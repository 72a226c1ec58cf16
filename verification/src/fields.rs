//! Typed access to the fields of a JSON object.
//!
//! Every decoder reads an object through these helpers. A required field
//! yields `None` when it is missing or has the wrong shape; an optional
//! field distinguishes "absent or null" (the inner `None`) from a shape
//! error (the outer `None`).

use vstd::prelude::*;
use crate::ids::{spec_parse_uuid, Uuid};
use crate::json::{jv_field, Jv, JsonValue};
use crate::text::{parse_i64, spec_parse_i64};
use crate::time::{parse_rfc3339, rfc3339_of, Timestamp};

verus! {

/// A required string field.
pub open spec fn spec_str_field(j: Jv, key: Seq<char>) -> Option<Seq<char>> {
    match jv_field(j, key) {
        Some(Jv::Str(s)) => Some(s),
        _ => None,
    }
}

pub fn get_str_field(j: &JsonValue, key: &str) -> (r: Option<String>)
    ensures
        match r {
            Some(v) => spec_str_field(j@, key@) == Some(v@),
            None => spec_str_field(j@, key@) is None,
        },
{
    match j.get(key) {
        Some(JsonValue::Str(s)) => Some(s.clone()),
        _ => None,
    }
}

/// An optional string field: absent and null both mean "no value".
pub open spec fn spec_opt_str_field(j: Jv, key: Seq<char>) -> Option<Option<Seq<char>>> {
    match jv_field(j, key) {
        None => Some(None),
        Some(Jv::Null) => Some(None),
        Some(Jv::Str(s)) => Some(Some(s)),
        Some(_) => None,
    }
}

pub fn get_opt_str_field(j: &JsonValue, key: &str) -> (r: Option<Option<String>>)
    ensures
        ({
            let m = spec_opt_str_field(j@, key@);
            match r {
                Some(Some(v)) => m == Some(Some(v@)),
                Some(None) => m == Some(None::<Seq<char>>),
                None => m is None,
            }
        }),
{
    match j.get(key) {
        None => Some(None),
        Some(JsonValue::Null) => Some(None),
        Some(JsonValue::Str(s)) => Some(Some(s.clone())),
        Some(_) => None,
    }
}

/// A required boolean field.
pub open spec fn spec_bool_field(j: Jv, key: Seq<char>) -> Option<bool> {
    match jv_field(j, key) {
        Some(Jv::Bool(b)) => Some(b),
        _ => None,
    }
}

pub fn get_bool_field(j: &JsonValue, key: &str) -> (r: Option<bool>)
    ensures
        r == spec_bool_field(j@, key@),
{
    match j.get(key) {
        Some(JsonValue::Bool(b)) => Some(*b),
        _ => None,
    }
}

/// A required integer field: a number whose literal is a decimal integer
/// that an `i64` can hold.
pub open spec fn spec_i64_field(j: Jv, key: Seq<char>) -> Option<i64> {
    match jv_field(j, key) {
        Some(Jv::Num(lit)) => spec_parse_i64(lit),
        _ => None,
    }
}

pub fn get_i64_field(j: &JsonValue, key: &str) -> (r: Option<i64>)
    ensures
        r == spec_i64_field(j@, key@),
{
    match j.get(key) {
        Some(JsonValue::Num(lit)) => parse_i64(lit.as_str()),
        _ => None,
    }
}

/// A required integer field that must fit an `i32`.
pub open spec fn spec_i32_field(j: Jv, key: Seq<char>) -> Option<i32> {
    match spec_i64_field(j, key) {
        Some(v) => if i32::MIN <= v <= i32::MAX {
            Some(v as i32)
        } else {
            None
        },
        None => None,
    }
}

pub fn get_i32_field(j: &JsonValue, key: &str) -> (r: Option<i32>)
    ensures
        r == spec_i32_field(j@, key@),
{
    match get_i64_field(j, key) {
        Some(v) => if i32::MIN as i64 <= v && v <= i32::MAX as i64 {
            Some(v as i32)
        } else {
            None
        },
        None => None,
    }
}

/// A required integer field that must fit a `u16`.
pub open spec fn spec_u16_field(j: Jv, key: Seq<char>) -> Option<u16> {
    match spec_i64_field(j, key) {
        Some(v) => if 0 <= v <= u16::MAX {
            Some(v as u16)
        } else {
            None
        },
        None => None,
    }
}

pub fn get_u16_field(j: &JsonValue, key: &str) -> (r: Option<u16>)
    ensures
        r == spec_u16_field(j@, key@),
{
    match get_i64_field(j, key) {
        Some(v) => if 0 <= v && v <= u16::MAX as i64 {
            Some(v as u16)
        } else {
            None
        },
        None => None,
    }
}

/// An optional integer field that must fit an `i32` where present.
pub open spec fn spec_opt_i32_field(j: Jv, key: Seq<char>) -> Option<Option<i32>> {
    match jv_field(j, key) {
        None => Some(None),
        Some(Jv::Null) => Some(None),
        Some(Jv::Num(lit)) => match spec_parse_i64(lit) {
            Some(v) => if i32::MIN <= v <= i32::MAX {
                Some(Some(v as i32))
            } else {
                None
            },
            None => None,
        },
        Some(_) => None,
    }
}

pub fn get_opt_i32_field(j: &JsonValue, key: &str) -> (r: Option<Option<i32>>)
    ensures
        r == spec_opt_i32_field(j@, key@),
{
    match j.get(key) {
        None => Some(None),
        Some(JsonValue::Null) => Some(None),
        Some(JsonValue::Num(lit)) => match parse_i64(lit.as_str()) {
            Some(v) => if i32::MIN as i64 <= v && v <= i32::MAX as i64 {
                Some(Some(v as i32))
            } else {
                None
            },
            None => None,
        },
        Some(_) => None,
    }
}

/// An optional numeric field kept as its decimal wire literal, so that
/// fractional readings pass through the library unchanged.
pub open spec fn spec_opt_num_lit_field(j: Jv, key: Seq<char>) -> Option<Option<Seq<char>>> {
    match jv_field(j, key) {
        None => Some(None),
        Some(Jv::Null) => Some(None),
        Some(Jv::Num(lit)) => Some(Some(lit)),
        Some(_) => None,
    }
}

pub fn get_opt_num_lit_field(j: &JsonValue, key: &str) -> (r: Option<Option<String>>)
    ensures
        ({
            let m = spec_opt_num_lit_field(j@, key@);
            match r {
                Some(Some(v)) => m == Some(Some(v@)),
                Some(None) => m == Some(None::<Seq<char>>),
                None => m is None,
            }
        }),
{
    match j.get(key) {
        None => Some(None),
        Some(JsonValue::Null) => Some(None),
        Some(JsonValue::Num(lit)) => Some(Some(lit.clone())),
        Some(_) => None,
    }
}

/// A required string field holding a 128-bit identifier.
pub open spec fn spec_uuid_field(j: Jv, key: Seq<char>) -> Option<Uuid> {
    match jv_field(j, key) {
        Some(Jv::Str(s)) => spec_parse_uuid(s),
        _ => None,
    }
}

pub fn get_uuid_field(j: &JsonValue, key: &str) -> (r: Option<Uuid>)
    ensures
        r == spec_uuid_field(j@, key@),
{
    match j.get(key) {
        Some(JsonValue::Str(s)) => Uuid::parse(s.as_str()),
        _ => None,
    }
}

/// A required string field holding an RFC 3339 timestamp.
pub open spec fn spec_timestamp_field(j: Jv, key: Seq<char>) -> Option<Timestamp> {
    match jv_field(j, key) {
        Some(Jv::Str(s)) => rfc3339_of(s),
        _ => None,
    }
}

pub fn get_timestamp_field(j: &JsonValue, key: &str) -> (r: Option<Timestamp>)
    ensures
        r == spec_timestamp_field(j@, key@),
{
    match j.get(key) {
        Some(JsonValue::Str(s)) => parse_rfc3339(s.as_str()),
        _ => None,
    }
}

/// An optional string field holding an RFC 3339 timestamp.
pub open spec fn spec_opt_timestamp_field(j: Jv, key: Seq<char>) -> Option<Option<Timestamp>> {
    match jv_field(j, key) {
        None => Some(None),
        Some(Jv::Null) => Some(None),
        Some(Jv::Str(s)) => match rfc3339_of(s) {
            Some(t) => Some(Some(t)),
            None => None,
        },
        Some(_) => None,
    }
}

pub fn get_opt_timestamp_field(j: &JsonValue, key: &str) -> (r: Option<Option<Timestamp>>)
    ensures
        r == spec_opt_timestamp_field(j@, key@),
{
    match j.get(key) {
        None => Some(None),
        Some(JsonValue::Null) => Some(None),
        Some(JsonValue::Str(s)) => match parse_rfc3339(s.as_str()) {
            Some(t) => Some(Some(t)),
            None => None,
        },
        Some(_) => None,
    }
}

/// The texts of a sequence of JSON strings; `None` where some element is
/// not a string.
pub open spec fn spec_str_seq(items: Seq<Jv>) -> Option<Seq<Seq<char>>>
    decreases items.len(),
{
    if items.len() == 0 {
        Some(Seq::empty())
    } else {
        match spec_str_seq(items.drop_last()) {
            Some(pre) => match items.last() {
                Jv::Str(s) => Some(pre.push(s)),
                _ => None,
            },
            None => None,
        }
    }
}

proof fn lemma_str_seq_none(items: Seq<Jv>, t: int)
    requires
        0 <= t < items.len(),
        !(items[t] is Str),
    ensures
        spec_str_seq(items) is None,
    decreases items.len(),
{
    if t < items.len() - 1 {
        lemma_str_seq_none(items.drop_last(), t);
    }
}

/// A required field holding an array of strings.
pub open spec fn spec_str_list_field(j: Jv, key: Seq<char>) -> Option<Seq<Seq<char>>> {
    match jv_field(j, key) {
        Some(Jv::Arr(items)) => spec_str_seq(items),
        _ => None,
    }
}

pub fn get_str_list_field(j: &JsonValue, key: &str) -> (r: Option<Vec<String>>)
    ensures
        match r {
            Some(v) => spec_str_list_field(j@, key@) == Some(v.deep_view()),
            None => spec_str_list_field(j@, key@) is None,
        },
{
    match j.get(key) {
        Some(arr @ JsonValue::Arr(items)) => {
            let ghost jitems = arr@->Arr_0;
            let mut out: Vec<String> = Vec::new();
            assert(out.deep_view() =~= Seq::<Seq<char>>::empty());
            let n = items.len();
            let mut i: usize = 0;
            while i < n
                invariant
                    0 <= i <= n,
                    n == items.len(),
                    jitems.len() == n,
                    jv_field(j@, key@) == Some(Jv::Arr(jitems)),
                    forall|t: int| 0 <= t < n ==> jitems[t] == crate::json::jv(items@[t]),
                    out.deep_view().len() == i,
                    spec_str_seq(jitems.take(i as int)) == Some(out.deep_view()),
                decreases n - i,
            {
                match &items[i] {
                    JsonValue::Str(s) => {
                        let ghost pre = out.deep_view();
                        out.push(s.clone());
                        assert(out.deep_view() =~= pre.push(s@));
                    },
                    _ => {
                        proof {
                            lemma_str_seq_none(jitems, i as int);
                        }
                        return None;
                    },
                }
                assert(jitems.take(i + 1).drop_last() =~= jitems.take(i as int));
                assert(jitems.take(i + 1).last() == jitems[i as int]);
                i = i + 1;
            }
            assert(jitems.take(n as int) =~= jitems);
            Some(out)
        },
        _ => None,
    }
}

} // verus!

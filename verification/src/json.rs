//! A small JSON document model.
//!
//! Response bodies are parsed by serde_json behind a trusted wrapper and
//! handed to the verified code as [`JsonValue`] trees. Numbers are kept as
//! their decimal wire literal, so the model never holds a floating-point
//! value. In specifications a tree is seen as a [`Jv`], its deep view.

use vstd::prelude::*;

verus! {

/// One JSON value. A number carries its decimal literal text.
#[derive(Debug)]
pub enum JsonValue {
    Null,
    Bool(bool),
    Num(String),
    Str(String),
    Arr(Vec<JsonValue>),
    Obj(Vec<(String, JsonValue)>),
}

/// The specification-level shape of a [`JsonValue`].
pub enum Jv {
    Null,
    Bool(bool),
    Num(Seq<char>),
    Str(Seq<char>),
    Arr(Seq<Jv>),
    Obj(Seq<(Seq<char>, Jv)>),
}

/// The deep view of a [`JsonValue`].
pub open spec fn jv(v: JsonValue) -> Jv
    decreases v,
{
    match v {
        JsonValue::Null => Jv::Null,
        JsonValue::Bool(b) => Jv::Bool(b),
        JsonValue::Num(s) => Jv::Num(s@),
        JsonValue::Str(s) => Jv::Str(s@),
        JsonValue::Arr(items) => Jv::Arr(
            Seq::new(
                items@.len(),
                |i: int|
                    if 0 <= i < items@.len() {
                        jv(items@[i])
                    } else {
                        Jv::Null
                    },
            ),
        ),
        JsonValue::Obj(fields) => Jv::Obj(
            Seq::new(
                fields@.len(),
                |i: int|
                    if 0 <= i < fields@.len() {
                        (fields@[i].0@, jv(fields@[i].1))
                    } else {
                        (Seq::empty(), Jv::Null)
                    },
            ),
        ),
    }
}

impl View for JsonValue {
    type V = Jv;

    open spec fn view(&self) -> Jv {
        jv(*self)
    }
}

/// The value of the first field named `key`, if any.
pub open spec fn jv_lookup(fields: Seq<(Seq<char>, Jv)>, key: Seq<char>) -> Option<Jv>
    decreases fields.len(),
{
    if fields.len() == 0 {
        None
    } else if fields[0].0 == key {
        Some(fields[0].1)
    } else {
        jv_lookup(fields.drop_first(), key)
    }
}

/// Field lookup on an object, `None` on every other shape.
pub open spec fn jv_field(j: Jv, key: Seq<char>) -> Option<Jv> {
    match j {
        Jv::Obj(fields) => jv_lookup(fields, key),
        _ => None,
    }
}

impl JsonValue {
    /// Looks up a field of an object by name.
    pub fn get<'a>(&'a self, key: &str) -> (r: Option<&'a JsonValue>)
        ensures
            match r {
                Some(v) => jv_field(self@, key@) == Some(v@),
                None => jv_field(self@, key@) is None,
            },
    {
        match self {
            JsonValue::Obj(fields) => {
                let k: String = key.to_owned();
                let ghost fs = self@->Obj_0;
                assert(fs.skip(0) =~= fs);
                let n = fields.len();
                let mut i: usize = 0;
                while i < n
                    invariant
                        n == fields.len(),
                        0 <= i <= n,
                        self@ == Jv::Obj(fs),
                        fs.len() == n,
                        forall|t: int| 0 <= t < n ==> fs[t] == (fields@[t].0@, jv(fields@[t].1)),
                        k@ == key@,
                        jv_lookup(fs, key@) == jv_lookup(fs.skip(i as int), key@),
                    decreases n - i,
                {
                    assert(fs.skip(i as int)[0] == fs[i as int]);
                    if fields[i].0 == k {
                        assert(jv_lookup(fs.skip(i as int), key@) == Some(fs[i as int].1));
                        return Some(&fields[i].1);
                    }
                    assert(fs.skip(i as int).drop_first() =~= fs.skip(i + 1));
                    i = i + 1;
                }
                assert(fs.skip(n as int) =~= Seq::<(Seq<char>, Jv)>::empty());
                None
            }
            _ => None,
        }
    }
}

#[verifier::external_type_specification]
#[verifier::external_body]
pub struct ExValue(serde_json::Value);

/// What serde_json makes of a piece of JSON text, under the [`Jv`] model:
/// `None` where the text is rejected, otherwise the parsed tree with object
/// fields in serde_json's (sorted, last-duplicate-wins) order and each number
/// as the literal its `Display` form prints.
pub uninterp spec fn json_of(s: Seq<char>) -> Option<Jv>;

/// Relies on serde_json::Value: it has exactly the six JSON shapes, and
/// `Number::to_string` prints a number's decimal literal. Each arm only moves
/// the payload into the corresponding [`JsonValue`] shape.
#[verifier::external_body]
fn json_value_of(v: serde_json::Value) -> JsonValue {
    match v {
        serde_json::Value::Null => JsonValue::Null,
        serde_json::Value::Bool(b) => JsonValue::Bool(b),
        serde_json::Value::Number(n) => JsonValue::Num(n.to_string()),
        serde_json::Value::String(s) => JsonValue::Str(s),
        serde_json::Value::Array(items) => JsonValue::Arr(
            items.into_iter().map(json_value_of).collect(),
        ),
        serde_json::Value::Object(fields) => JsonValue::Obj(
            fields.into_iter().map(|(k, f)| (k, json_value_of(f))).collect(),
        ),
    }
}

/// Relies on serde_json::from_str::<serde_json::Value>: whether a text parses,
/// and what it parses to, depends on the text alone; that result is named
/// [`json_of`].
#[verifier::external_body]
pub(crate) fn parse_json(s: &str) -> (r: Option<JsonValue>)
    ensures
        match r {
            Some(v) => json_of(s@) == Some(v@),
            None => json_of(s@) is None,
        },
{
    match serde_json::from_str::<serde_json::Value>(s) {
        Ok(v) => Some(json_value_of(v)),
        Err(_) => None,
    }
}

} // verus!

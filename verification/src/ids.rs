//! Opaque 128-bit identifiers.
//!
//! Sites and devices are identified by 128-bit tokens that the server prints
//! in the usual hyphenated hexadecimal form. The client never interprets
//! their structure; it only parses them from response bodies and prints them
//! back into request paths.

use vstd::prelude::*;
use vstd::string::StrSliceExecFns;
use vstd::arithmetic::power2::{pow2, lemma_pow2_adds, lemma_pow2_strictly_increases, lemma2_to64};
use crate::text::{hex_digit_char, push_hex_digit};

verus! {

/// A 128-bit identifier, held as its value.
#[derive(Clone, Copy, Debug, PartialEq, Eq, Hash, PartialOrd, Ord)]
pub struct Uuid(pub u128);

/// A hexadecimal digit, either case.
pub open spec fn is_hex_char(c: char) -> bool {
    48 <= c as u32 <= 57 || 97 <= c as u32 <= 102 || 65 <= c as u32 <= 70
}

/// The value of a hexadecimal digit.
pub open spec fn hex_char_val(c: char) -> int
    recommends
        is_hex_char(c),
{
    if 48 <= c as u32 <= 57 {
        c as u32 - 48
    } else if 97 <= c as u32 <= 102 {
        c as u32 - 87
    } else {
        c as u32 - 55
    }
}

/// Where the `k`-th hexadecimal digit of a hyphenated identifier stands in
/// its text, with hyphens after digits 8, 12, 16 and 20.
pub open spec fn uuid_digit_pos(k: int) -> int {
    k + if k >= 20 {
        4int
    } else if k >= 16 {
        3int
    } else if k >= 12 {
        2int
    } else if k >= 8 {
        1int
    } else {
        0int
    }
}

/// The text is 36 characters long with hyphens in the four fixed places.
pub open spec fn uuid_hyphens_ok(s: Seq<char>) -> bool {
    s.len() == 36 && s[8] == '-' && s[13] == '-' && s[18] == '-' && s[23] == '-'
}

/// Where the `k`-th digit stands: the hyphenated place or the digit index.
pub open spec fn uuid_pos(hyphenated: bool, k: int) -> int {
    if hyphenated {
        uuid_digit_pos(k)
    } else {
        k
    }
}

/// The first `k` of the 32 digit places hold hexadecimal digits.
pub open spec fn uuid_digits_ok_upto(s: Seq<char>, hyphenated: bool, k: int) -> bool {
    forall|t: int| 0 <= t < k ==> is_hex_char(#[trigger] s[uuid_pos(hyphenated, t)])
}

/// The value of the first `k` hexadecimal digits, most significant first.
pub open spec fn uuid_val(s: Seq<char>, hyphenated: bool, k: int) -> int
    decreases k,
{
    if k <= 0 {
        0
    } else {
        uuid_val(s, hyphenated, k - 1) * 16 + hex_char_val(s[uuid_pos(hyphenated, k - 1)])
    }
}

proof fn lemma_uuid_val_bound(s: Seq<char>, hyphenated: bool, k: int)
    requires
        0 <= k,
        uuid_digits_ok_upto(s, hyphenated, k),
    ensures
        0 <= uuid_val(s, hyphenated, k) < pow2((4 * k) as nat),
    decreases k,
{
    lemma2_to64();
    if k > 0 {
        lemma_uuid_val_bound(s, hyphenated, k - 1);
        lemma_pow2_adds((4 * (k - 1)) as nat, 4);
    }
}

/// What a 128-bit identifier's text denotes: either the 36-character
/// hyphenated form or the bare 32-digit form, hexadecimal digits of either
/// case.
pub open spec fn spec_parse_uuid(s: Seq<char>) -> Option<Uuid> {
    if uuid_hyphens_ok(s) && uuid_digits_ok_upto(s, true, 32) {
        Some(Uuid(uuid_val(s, true, 32) as u128))
    } else if s.len() == 32 && uuid_digits_ok_upto(s, false, 32) {
        Some(Uuid(uuid_val(s, false, 32) as u128))
    } else {
        None
    }
}

/// Reads the 32 digits, `hyphenated` telling where they stand.
fn parse_uuid_digits(s: &str, hyphenated: bool) -> (r: Option<Uuid>)
    requires
        hyphenated ==> uuid_hyphens_ok(s@),
        !hyphenated ==> s@.len() == 32,
    ensures
        r == spec_parse_uuid(s@),
{
    let mut acc: u128 = 0;
    let mut k: usize = 0;
    while k < 32
        invariant
            0 <= k <= 32,
            hyphenated ==> uuid_hyphens_ok(s@),
            !hyphenated ==> s@.len() == 32,
            uuid_digits_ok_upto(s@, hyphenated, k as int),
            acc as int == uuid_val(s@, hyphenated, k as int),
        decreases 32 - k,
    {
        let i: usize = if hyphenated {
            if k >= 20 {
                k + 4
            } else if k >= 16 {
                k + 3
            } else if k >= 12 {
                k + 2
            } else if k >= 8 {
                k + 1
            } else {
                k
            }
        } else {
            k
        };
        assert(i as int == uuid_pos(hyphenated, k as int));
        let c = s.get_char(i);
        let cu = c as u32;
        let d: u128 = if 48 <= cu && cu <= 57 {
            (cu - 48) as u128
        } else if 97 <= cu && cu <= 102 {
            (cu - 87) as u128
        } else if 65 <= cu && cu <= 70 {
            (cu - 55) as u128
        } else {
            assert(!is_hex_char(s@[i as int]));
            assert(!uuid_digits_ok_upto(s@, hyphenated, 32));
            return None;
        };
        assert(d as int == hex_char_val(s@[i as int]));
        assert(uuid_digits_ok_upto(s@, hyphenated, k + 1));
        proof {
            lemma_uuid_val_bound(s@, hyphenated, k as int);
            lemma_pow2_adds((4 * k) as nat, 4);
            lemma2_to64();
            lemma_pow2_adds(64, 64);
            if 4 * k + 4 < 128 {
                lemma_pow2_strictly_increases((4 * k + 4) as nat, 128);
            }
            assert(acc as int * 16 + d as int <= pow2((4 * k + 4) as nat) - 1);
            assert(pow2((4 * k + 4) as nat) <= pow2(128));
            assert(pow2(128) == 0x100000000000000000000000000000000int);
        }
        acc = acc * 16 + d;
        k = k + 1;
    }
    Some(Uuid(acc))
}

/// `count` hexadecimal digits of a nonnegative value, most significant
/// first, lower case; high digits are zeroes where the value is short.
pub open spec fn hex_text(n: int, count: nat) -> Seq<char>
    decreases count,
{
    if count == 0 {
        Seq::empty()
    } else {
        hex_text(n / 16, (count - 1) as nat) + seq![hex_digit_char(n % 16)]
    }
}

/// The hyphenated lower-case text of a 128-bit identifier: digit groups of
/// 8, 4, 4, 4 and 12, most significant first.
pub open spec fn uuid_text(v: int) -> Seq<char> {
    hex_text(v / 0x1000000000000000000000000, 8) + seq!['-'] + hex_text(
        (v / 0x100000000000000000000) % 0x10000,
        4,
    ) + seq!['-'] + hex_text((v / 0x10000000000000000) % 0x10000, 4) + seq!['-'] + hex_text(
        (v / 0x1000000000000) % 0x10000,
        4,
    ) + seq!['-'] + hex_text(v % 0x1000000000000, 12)
}

/// Appends `count` hexadecimal digits of a value, most significant first.
fn append_hex(out: &mut String, n: u128, count: u32)
    ensures
        final(out)@ == old(out)@ + hex_text(n as int, count as nat),
    decreases count,
{
    if count > 0 {
        append_hex(out, n / 16, count - 1);
        push_hex_digit(out, (n % 16) as u8);
        assert(out@ =~= old(out)@ + hex_text(n as int, count as nat));
    } else {
        assert(out@ =~= old(out)@ + hex_text(n as int, 0));
    }
}

/// Appends one hyphen.
fn push_hyphen(out: &mut String)
    ensures
        final(out)@ == old(out)@ + seq!['-'],
{
    proof {
        reveal_strlit("-");
    }
    out.append("-");
    assert(out@ =~= old(out)@ + seq!['-']);
}

impl Uuid {
    /// Prints the identifier in its hyphenated lower-case form, the form the
    /// server uses in request paths.
    pub fn to_hyphenated(&self) -> (r: String)
        ensures
            r@ == uuid_text(self.0 as int),
    {
        let v = self.0;
        let mut out = String::new();
        append_hex(&mut out, v / 0x1000000000000000000000000, 8);
        push_hyphen(&mut out);
        append_hex(&mut out, (v / 0x100000000000000000000) % 0x10000, 4);
        push_hyphen(&mut out);
        append_hex(&mut out, (v / 0x10000000000000000) % 0x10000, 4);
        push_hyphen(&mut out);
        append_hex(&mut out, (v / 0x1000000000000) % 0x10000, 4);
        push_hyphen(&mut out);
        append_hex(&mut out, v % 0x1000000000000, 12);
        assert(out@ =~= uuid_text(self.0 as int));
        out
    }

    /// Parses an identifier from its hyphenated or bare hexadecimal text.
    pub fn parse(s: &str) -> (r: Option<Uuid>)
        ensures
            r == spec_parse_uuid(s@),
    {
        let n = s.unicode_len();
        if n == 36 {
            if s.get_char(8) != '-' || s.get_char(13) != '-' || s.get_char(18) != '-'
                || s.get_char(23) != '-' {
                return None;
            }
            parse_uuid_digits(s, true)
        } else if n == 32 {
            parse_uuid_digits(s, false)
        } else {
            None
        }
    }
}

} // verus!

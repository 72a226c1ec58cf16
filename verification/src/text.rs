//! Character-level text utilities: decimal parsing and formatting.
//!
//! JSON numbers reach the decoders as decimal literals, and URL query
//! strings are built from integers, so both directions are needed.

use vstd::prelude::*;
use vstd::string::StrSliceExecFns;
use vstd::string::StringExecFns;

verus! {

/// A decimal digit.
pub open spec fn is_digit_char(c: char) -> bool {
    48 <= c as u32 <= 57
}

/// The value of a decimal digit.
pub open spec fn digit_val(c: char) -> int {
    c as u32 - 48
}

/// Every character is a decimal digit.
pub open spec fn all_digits(s: Seq<char>) -> bool {
    forall|i: int| 0 <= i < s.len() ==> is_digit_char(s[i])
}

/// The value of a sequence of decimal digits, most significant first.
pub open spec fn dec_val(s: Seq<char>) -> int
    decreases s.len(),
{
    if s.len() == 0 {
        0
    } else {
        dec_val(s.drop_last()) * 10 + digit_val(s.last())
    }
}

pub proof fn lemma_dec_val_nonneg(s: Seq<char>)
    requires
        all_digits(s),
    ensures
        dec_val(s) >= 0,
    decreases s.len(),
{
    if s.len() > 0 {
        assert(all_digits(s.drop_last()));
        lemma_dec_val_nonneg(s.drop_last());
    }
}

/// What a decimal integer literal (an optional `-` sign and at least one
/// digit) denotes, if it denotes a value an `i64` can hold.
pub open spec fn spec_parse_i64(s: Seq<char>) -> Option<i64> {
    let digits = if s.len() >= 1 && s[0] == '-' {
        s.drop_first()
    } else {
        s
    };
    let neg = s.len() >= 1 && s[0] == '-';
    if digits.len() == 0 || !all_digits(digits) {
        None
    } else {
        let v = if neg {
            -dec_val(digits)
        } else {
            dec_val(digits)
        };
        if i64::MIN <= v <= i64::MAX {
            Some(v as i64)
        } else {
            None
        }
    }
}

/// The magnitude of `i64::MIN`.
pub(crate) const I64_MIN_MAGNITUDE: u64 = 9223372036854775808;

/// Parses a decimal integer literal into an `i64`.
pub fn parse_i64(s: &str) -> (r: Option<i64>)
    ensures
        r == spec_parse_i64(s@),
{
    let n = s.unicode_len();
    let neg = n > 0 && s.get_char(0) == '-';
    let start: usize = if neg {
        1
    } else {
        0
    };
    let ghost digits = if neg {
        s@.drop_first()
    } else {
        s@
    };
    assert(digits =~= s@.skip(start as int));
    if n == start {
        return None;
    }
    let mut acc: u64 = 0;
    let mut big = false;
    let mut k: usize = start;
    while k < n
        invariant
            start <= k <= n,
            n == s@.len(),
            digits == s@.skip(start as int),
            start == 0 || start == 1,
            neg == (s@.len() >= 1 && s@[0] == '-'),
            neg == (start == 1),
            all_digits(digits.take(k - start)),
            !big ==> acc <= I64_MIN_MAGNITUDE && acc == dec_val(digits.take(k - start)),
            big ==> dec_val(digits.take(k - start)) > I64_MIN_MAGNITUDE,
        decreases n - k,
    {
        let c = s.get_char(k);
        let cu = c as u32;
        if cu < 48 || cu > 57 {
            assert(digits[k - start] == s@[k as int]);
            assert(!is_digit_char(digits[k - start]));
            assert(!all_digits(digits));
            return None;
        }
        let d: u64 = (cu - 48) as u64;
        assert(digits.take(k + 1 - start).drop_last() =~= digits.take(k - start));
        assert(digits.take(k + 1 - start).last() == s@[k as int]);
        proof {
            lemma_dec_val_nonneg(digits.take(k - start));
        }
        if big {
            assert(dec_val(digits.take(k + 1 - start)) > I64_MIN_MAGNITUDE);
        } else if acc > (I64_MIN_MAGNITUDE - d) / 10 {
            assert(acc * 10 + d > I64_MIN_MAGNITUDE) by {
                assert(acc >= (I64_MIN_MAGNITUDE - d) / 10 + 1);
                assert(acc * 10 >= ((I64_MIN_MAGNITUDE - d) / 10 + 1) * 10) by (nonlinear_arith)
                    requires
                        acc >= (I64_MIN_MAGNITUDE - d) / 10 + 1,
                ;
                assert(((I64_MIN_MAGNITUDE - d) / 10) * 10 + 10 > I64_MIN_MAGNITUDE - d);
            }
            big = true;
        } else {
            assert(acc * 10 + d <= I64_MIN_MAGNITUDE) by {
                assert(acc * 10 <= ((I64_MIN_MAGNITUDE - d) / 10) * 10) by (nonlinear_arith)
                    requires
                        acc <= (I64_MIN_MAGNITUDE - d) / 10,
                ;
                assert(((I64_MIN_MAGNITUDE - d) / 10) * 10 <= I64_MIN_MAGNITUDE - d);
            }
            acc = acc * 10 + d;
        }
        k = k + 1;
    }
    assert(digits.take(n - start) =~= digits);
    if big {
        return None;
    }
    if acc == I64_MIN_MAGNITUDE {
        if neg {
            return Some(i64::MIN);
        } else {
            return None;
        }
    }
    let v = acc as i64;
    if neg {
        Some(-v)
    } else {
        Some(v)
    }
}

/// The text of an optional string.
pub open spec fn opt_text(o: Option<String>) -> Option<Seq<char>> {
    match o {
        Some(s) => Some(s@),
        None => None,
    }
}

/// Compares two pieces of text by contents.
pub fn str_eq(a: &str, b: &str) -> (r: bool)
    ensures
        r == (a@ == b@),
{
    let sa: String = a.to_owned();
    let sb: String = b.to_owned();
    sa == sb
}

/// The character of a decimal digit value.
pub open spec fn digit_char(d: int) -> char {
    if d == 0 {
        '0'
    } else if d == 1 {
        '1'
    } else if d == 2 {
        '2'
    } else if d == 3 {
        '3'
    } else if d == 4 {
        '4'
    } else if d == 5 {
        '5'
    } else if d == 6 {
        '6'
    } else if d == 7 {
        '7'
    } else if d == 8 {
        '8'
    } else {
        '9'
    }
}

/// The character of a hexadecimal digit value, lower case.
pub open spec fn hex_digit_char(d: int) -> char {
    if d < 10 {
        digit_char(d)
    } else if d == 10 {
        'a'
    } else if d == 11 {
        'b'
    } else if d == 12 {
        'c'
    } else if d == 13 {
        'd'
    } else if d == 14 {
        'e'
    } else {
        'f'
    }
}

/// Appends the character of one decimal digit.
pub fn push_digit(out: &mut String, d: u8)
    requires
        d < 10,
    ensures
        final(out)@ == old(out)@ + seq![digit_char(d as int)],
{
    if d == 0 {
        proof {
            reveal_strlit("0");
        }
        out.append("0");
    } else if d == 1 {
        proof {
            reveal_strlit("1");
        }
        out.append("1");
    } else if d == 2 {
        proof {
            reveal_strlit("2");
        }
        out.append("2");
    } else if d == 3 {
        proof {
            reveal_strlit("3");
        }
        out.append("3");
    } else if d == 4 {
        proof {
            reveal_strlit("4");
        }
        out.append("4");
    } else if d == 5 {
        proof {
            reveal_strlit("5");
        }
        out.append("5");
    } else if d == 6 {
        proof {
            reveal_strlit("6");
        }
        out.append("6");
    } else if d == 7 {
        proof {
            reveal_strlit("7");
        }
        out.append("7");
    } else if d == 8 {
        proof {
            reveal_strlit("8");
        }
        out.append("8");
    } else {
        proof {
            reveal_strlit("9");
        }
        out.append("9");
    }
    assert(out@ =~= old(out)@ + seq![digit_char(d as int)]);
}

/// Appends the character of one hexadecimal digit, lower case.
pub fn push_hex_digit(out: &mut String, d: u8)
    requires
        d < 16,
    ensures
        final(out)@ == old(out)@ + seq![hex_digit_char(d as int)],
{
    if d < 10 {
        push_digit(out, d);
    } else if d == 10 {
        proof {
            reveal_strlit("a");
        }
        out.append("a");
    } else if d == 11 {
        proof {
            reveal_strlit("b");
        }
        out.append("b");
    } else if d == 12 {
        proof {
            reveal_strlit("c");
        }
        out.append("c");
    } else if d == 13 {
        proof {
            reveal_strlit("d");
        }
        out.append("d");
    } else if d == 14 {
        proof {
            reveal_strlit("e");
        }
        out.append("e");
    } else {
        proof {
            reveal_strlit("f");
        }
        out.append("f");
    }
    assert(out@ =~= old(out)@ + seq![hex_digit_char(d as int)]);
}

/// The decimal text of a nonnegative value.
pub open spec fn nat_text(n: int) -> Seq<char>
    decreases n,
{
    if n < 10 {
        seq![digit_char(n)]
    } else {
        nat_text(n / 10) + seq![digit_char(n % 10)]
    }
}

/// The decimal text of a value, with a leading `-` where it is negative.
pub open spec fn int_text(n: int) -> Seq<char> {
    if n < 0 {
        seq!['-'] + nat_text(-n)
    } else {
        nat_text(n)
    }
}

/// Appends the decimal text of a nonnegative value.
pub fn append_nat_u32(out: &mut String, n: u32)
    ensures
        final(out)@ == old(out)@ + nat_text(n as int),
    decreases n,
{
    if n < 10 {
        push_digit(out, n as u8);
    } else {
        append_nat_u32(out, n / 10);
        push_digit(out, (n % 10) as u8);
        assert(out@ =~= old(out)@ + nat_text(n as int));
    }
}

/// Appends the decimal text of an `i32`.
pub fn append_i32(out: &mut String, n: i32)
    ensures
        final(out)@ == old(out)@ + int_text(n as int),
{
    if n < 0 {
        proof {
            reveal_strlit("-");
        }
        out.append("-");
        let m: u32 = (-(n as i64)) as u32;
        append_nat_u32(out, m);
        assert(out@ =~= old(out)@ + int_text(n as int));
    } else {
        append_nat_u32(out, n as u32);
    }
}

} // verus!

//! Verified decimal parsing and formatting, used by the value-coercion
//! rules of the wire types.

use vstd::prelude::*;

verus! {

use vstd::string::StringExecFns;
use vstd::string::StringSliceAdditionalSpecFns;

/// Ascii code of `0`.
pub const DIGIT_ZERO: u8 = 48;

/// Ascii code of `+`.
pub const PLUS_SIGN: u8 = 43;

/// Ascii code of `-`.
pub const MINUS_SIGN: u8 = 45;

pub open spec fn is_dec_digit(b: u8) -> bool {
    48 <= b <= 57
}

pub open spec fn all_dec_digits(s: Seq<u8>) -> bool {
    forall|i: int| 0 <= i < s.len() ==> is_dec_digit(#[trigger] s[i])
}

/// The number denoted by a string of decimal digits, most significant
/// digit first.
pub open spec fn dec_value(s: Seq<u8>) -> int
    decreases s.len(),
{
    if s.len() == 0 {
        0
    } else {
        dec_value(s.drop_last()) * 10 + (s.last() - 48)
    }
}

pub proof fn lemma_dec_value_nonneg(s: Seq<u8>)
    requires
        all_dec_digits(s),
    ensures
        dec_value(s) >= 0,
    decreases s.len(),
{
    if s.len() > 0 {
        assert(all_dec_digits(s.drop_last()));
        lemma_dec_value_nonneg(s.drop_last());
    }
}

/// The digit part of a signed decimal string: everything after a leading
/// `+` or `-`.
pub open spec fn dec_digits_part(s: Seq<u8>) -> Seq<u8> {
    if s.len() > 0 && (s[0] == PLUS_SIGN || s[0] == MINUS_SIGN) {
        s.subrange(1, s.len() as int)
    } else {
        s
    }
}

pub open spec fn dec_is_negative(s: Seq<u8>) -> bool {
    s.len() > 0 && s[0] == MINUS_SIGN
}

/// What parsing a signed 64-bit decimal yields: the denoted number when
/// the string is an optional sign followed by at least one digit and the
/// number fits, and 0 on any malformed or out-of-range input.
pub open spec fn parse_i64_spec(s: Seq<u8>) -> i64 {
    let d = dec_digits_part(s);
    if d.len() > 0 && all_dec_digits(d) {
        let v = if dec_is_negative(s) {
            -dec_value(d)
        } else {
            dec_value(d)
        };
        if i64::MIN <= v <= i64::MAX {
            v as i64
        } else {
            0
        }
    } else {
        0
    }
}

/// Parses an optionally signed decimal from bytes; malformed and
/// out-of-range inputs yield 0.
pub fn parse_i64_bytes(bytes: &[u8]) -> (r: i64)
    ensures
        r == parse_i64_spec(bytes@),
{
    let ghost whole = bytes@;
    let ghost digits = dec_digits_part(whole);
    let n: usize = bytes.len();
    let mut i: usize = 0;
    let mut neg = false;
    if n > 0 && (bytes[0] == PLUS_SIGN || bytes[0] == MINUS_SIGN) {
        neg = bytes[0] == MINUS_SIGN;
        i = 1;
    }
    proof {
        assert(digits =~= whole.subrange(i as int, n as int));
        assert(neg == dec_is_negative(whole));
    }
    let start: usize = i;
    if i == n {
        return 0;
    }
    let mut mag: u64 = 0;
    let mut overflow = false;
    while i < n
        invariant
            start <= i <= n,
            n == whole.len(),
            bytes@ == whole,
            start <= 1,
            digits == whole.subrange(start as int, n as int),
            digits == dec_digits_part(whole),
            neg == dec_is_negative(whole),
            all_dec_digits(whole.subrange(start as int, i as int)),
            !overflow ==> mag == dec_value(whole.subrange(start as int, i as int)),
            overflow ==> dec_value(whole.subrange(start as int, i as int)) > u64::MAX,
        decreases n - i,
    {
        let b = bytes[i];
        let ghost scanned = whole.subrange(start as int, i as int);
        let ghost scanned_next = whole.subrange(start as int, i + 1 as int);
        proof {
            assert(scanned_next.drop_last() =~= scanned);
            assert(dec_value(scanned_next) == dec_value(scanned) * 10 + (b - 48));
        }
        if b < 48 || b > 57 {
            // a non-digit anywhere makes the whole string malformed
            assert(!all_dec_digits(digits)) by {
                assert(digits[i - start] == b);
            }
            return 0;
        }
        if !overflow {
            proof {
                lemma_dec_value_nonneg(scanned);
            }
            let m10 = mag.checked_mul(10);
            match m10 {
                Some(m) => {
                    let madd = m.checked_add((b - DIGIT_ZERO) as u64);
                    match madd {
                        Some(m2) => {
                            mag = m2;
                        },
                        None => {
                            overflow = true;
                        },
                    }
                },
                None => {
                    overflow = true;
                    assert(dec_value(scanned) * 10 > u64::MAX) by (nonlinear_arith)
                        requires
                            dec_value(scanned) * 10 > u64::MAX || dec_value(scanned) * 10
                                <= u64::MAX,
                            mag == dec_value(scanned),
                            mag * 10 > u64::MAX,
                    ;
                },
            }
        } else {
            proof {
                assert(dec_value(scanned) * 10 > 10 * (u64::MAX as int)) by (nonlinear_arith)
                    requires
                        dec_value(scanned) > u64::MAX,
                ;
            }
        }
        i = i + 1;
    }
    proof {
        assert(whole.subrange(start as int, n as int) =~= digits);
        if !overflow {
            lemma_dec_value_nonneg(digits);
        }
    }
    if overflow {
        return 0;
    }
    if neg {
        if mag > 0x8000_0000_0000_0000u64 {
            0
        } else if mag == 0x8000_0000_0000_0000u64 {
            i64::MIN
        } else {
            let r = -(mag as i64);
            r
        }
    } else {
        if mag > i64::MAX as u64 {
            0
        } else {
            mag as i64
        }
    }
}

/// Parses an optionally signed decimal from a string slice.
pub fn parse_i64_str(s: &str) -> (r: i64)
    ensures
        r == parse_i64_spec(s.spec_bytes()),
{
    parse_i64_bytes(s.as_bytes())
}

/// The decimal digit character for one digit value.
pub open spec fn digit_char(d: int) -> char {
    if d == 0 {
        '0'
    } else if d == 1 {
        '1'
    } else if d == 2 {
        '2'
    } else if d == 3 {
        '3'
    } else if d == 4 {
        '4'
    } else if d == 5 {
        '5'
    } else if d == 6 {
        '6'
    } else if d == 7 {
        '7'
    } else if d == 8 {
        '8'
    } else {
        '9'
    }
}

/// The decimal rendering of a natural number, most significant digit
/// first, without leading zeros (except for 0 itself).
pub open spec fn u64_dec_chars(n: nat) -> Seq<char>
    decreases n,
{
    if n < 10 {
        seq![digit_char(n as int)]
    } else {
        u64_dec_chars(n / 10) + seq![digit_char((n % 10) as int)]
    }
}

/// The decimal rendering of a signed number: a leading `-` for negative
/// values, then the digits of the magnitude.
pub open spec fn i64_dec_chars(v: int) -> Seq<char> {
    if v < 0 {
        seq!['-'] + u64_dec_chars((-v) as nat)
    } else {
        u64_dec_chars(v as nat)
    }
}

fn digit_str(d: u64) -> (r: &'static str)
    requires
        d < 10,
    ensures
        r@ == seq![digit_char(d as int)],
{
    let r = if d == 0 {
        "0"
    } else if d == 1 {
        "1"
    } else if d == 2 {
        "2"
    } else if d == 3 {
        "3"
    } else if d == 4 {
        "4"
    } else if d == 5 {
        "5"
    } else if d == 6 {
        "6"
    } else if d == 7 {
        "7"
    } else if d == 8 {
        "8"
    } else {
        "9"
    };
    proof {
        reveal_strlit("0");
        reveal_strlit("1");
        reveal_strlit("2");
        reveal_strlit("3");
        reveal_strlit("4");
        reveal_strlit("5");
        reveal_strlit("6");
        reveal_strlit("7");
        reveal_strlit("8");
        reveal_strlit("9");
        assert(r@ =~= seq![digit_char(d as int)]);
    }
    r
}

/// Renders a natural number in decimal.
pub fn u64_to_dec_string(n: u64) -> (r: String)
    ensures
        r@ == u64_dec_chars(n as nat),
    decreases n,
{
    if n < 10 {
        String::from_str(digit_str(n))
    } else {
        let mut s = u64_to_dec_string(n / 10);
        s.append(digit_str(n % 10));
        s
    }
}

/// Renders a signed number in decimal.
pub fn i64_to_dec_string(v: i64) -> (r: String)
    ensures
        r@ == i64_dec_chars(v as int),
{
    if v < 0 {
        let mag: u64 = if v == i64::MIN {
            0x8000_0000_0000_0000u64
        } else {
            (-v) as u64
        };
        let mut s = String::from_str("-");
        let digits = u64_to_dec_string(mag);
        s.append(digits.as_str());
        proof {
            reveal_strlit("-");
            assert(s@ =~= i64_dec_chars(v as int));
        }
        s
    } else {
        u64_to_dec_string(v as u64)
    }
}

} // verus!

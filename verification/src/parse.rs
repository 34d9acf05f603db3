//! Parsing of decimal integers and fixed-point decimals from the byte
//! text of diagnostic lines.

use vstd::prelude::*;
use crate::numfmt::{is_digit, Decimal, DIGIT_ZERO, DOT, MINUS};
use crate::text::{first_match, is_match_at};

verus! {

pub const PLUS: u8 = 43;

pub open spec fn all_digits(s: Seq<u8>) -> bool {
    forall|i: int| 0 <= i < s.len() ==> is_digit(#[trigger] s[i])
}

/// Value of a digit string, most significant digit first.
pub open spec fn digits_value(s: Seq<u8>) -> int
    recommends
        all_digits(s),
    decreases s.len(),
{
    if s.len() == 0 {
        0
    } else {
        digits_value(s.drop_last()) * 10 + (s.last() - DIGIT_ZERO)
    }
}

proof fn lemma_digits_value_nonneg(s: Seq<u8>)
    requires
        all_digits(s),
    ensures
        digits_value(s) >= 0,
    decreases s.len(),
{
    if s.len() > 0 {
        assert(all_digits(s.drop_last()));
        lemma_digits_value_nonneg(s.drop_last());
    }
}

/// One more digit multiplies the value by ten and adds the digit.
proof fn lemma_digits_value_step(s: Seq<u8>, k: int)
    requires
        0 <= k < s.len(),
    ensures
        digits_value(s.take(k + 1)) == digits_value(s.take(k)) * 10 + (s[k] - DIGIT_ZERO),
{
    assert(s.take(k + 1).drop_last() =~= s.take(k));
    assert(s.take(k + 1).last() == s[k]);
}

/// Digits of `s`, as a value; `None` when `s` is empty, holds a
/// non-digit, or its value exceeds `u64::MAX`.
pub fn parse_digits_u64(s: &[u8]) -> (r: Option<u64>)
    ensures
        match r {
            Some(v) => s@.len() > 0 && all_digits(s@) && v == digits_value(s@),
            None => s@.len() == 0 || !all_digits(s@) || digits_value(s@) > u64::MAX,
        },
{
    let n = s.len();
    if n == 0 {
        return None;
    }
    let mut acc: u128 = 0;
    let mut over: bool = false;
    let mut k: usize = 0;
    while k < n
        invariant
            0 <= k <= n,
            n == s@.len(),
            forall|i: int| 0 <= i < k ==> is_digit(#[trigger] s@[i]),
            !over ==> acc == digits_value(s@.take(k as int)) && acc <= u64::MAX,
            over ==> digits_value(s@.take(k as int)) > u64::MAX,
        decreases n - k,
    {
        let b = s[k];
        if b < DIGIT_ZERO || b > 57 {
            assert(!is_digit(s@[k as int]));
            return None;
        }
        let d = (b - DIGIT_ZERO) as u128;
        proof {
            lemma_digits_value_step(s@, k as int);
            assert(all_digits(s@.take(k as int)));
            lemma_digits_value_nonneg(s@.take(k as int));
        }
        if over {
        } else {
            let next = acc * 10 + d;
            if next > u64::MAX as u128 {
                over = true;
            } else {
                acc = next;
            }
        }
        k = k + 1;
    }
    proof {
        assert(s@.take(n as int) =~= s@);
    }
    if over {
        None
    } else {
        Some(acc as u64)
    }
}

/// The integer value of a signed decimal token: an optional sign, then
/// one or more digits.
pub open spec fn spec_int_token(s: Seq<u8>) -> Option<int> {
    if s.len() > 0 && (s[0] == MINUS || s[0] == PLUS) {
        let body = s.skip(1);
        if body.len() > 0 && all_digits(body) {
            if s[0] == MINUS {
                Some(-digits_value(body))
            } else {
                Some(digits_value(body))
            }
        } else {
            None
        }
    } else if s.len() > 0 && all_digits(s) {
        Some(digits_value(s))
    } else {
        None
    }
}

/// `spec_int_token` narrowed to values an `i32` holds.
pub open spec fn spec_parse_i32(s: Seq<u8>) -> Option<i32> {
    match spec_int_token(s) {
        Some(v) => if i32::MIN <= v <= i32::MAX {
            Some(v as i32)
        } else {
            None
        },
        None => None,
    }
}

/// Parses a signed decimal integer, as `str::parse::<i32>` does on
/// plain tokens: an optional sign, digits, and a range check.
pub fn parse_i32(s: &[u8]) -> (r: Option<i32>)
    ensures
        r == spec_parse_i32(s@),
{
    let n = s.len();
    if n == 0 {
        return None;
    }
    let b0 = s[0];
    let neg = b0 == MINUS;
    let signed = neg || b0 == PLUS;
    let body: &[u8] = if signed {
        slice_skip_one(s)
    } else {
        s
    };
    let mag = match parse_digits_u64(body) {
        Some(v) => v,
        None => {
            proof {
                if !(body@.len() == 0 || !all_digits(body@)) {
                    lemma_digits_value_nonneg(body@);
                }
            }
            return None;
        },
    };
    if neg {
        if mag > 0x8000_0000u64 {
            return None;
        }
        Some((-(mag as i64)) as i32)
    } else {
        if mag > 0x7FFF_FFFFu64 {
            return None;
        }
        Some(mag as i32)
    }
}

/// The tail of `s` after its first byte.
fn slice_skip_one(s: &[u8]) -> (r: &[u8])
    requires
        s@.len() > 0,
    ensures
        r@ == s@.skip(1),
{
    let n = s.len();
    slice_subrange(s, 1, n)
}

/// `s[from..to]`.
pub fn slice_subrange(s: &[u8], from: usize, to: usize) -> (r: &[u8])
    requires
        from <= to <= s@.len(),
    ensures
        r@ == s@.subrange(from as int, to as int),
{
    &s[from..to]
}

/// Scaled value of a fraction-digit string: its first four digits,
/// right-padded with zeros, read as ten-thousandths.
pub open spec fn spec_frac_scaled(fs: Seq<u8>) -> int {
    spec_frac_digit(fs, 0) * 1000 + spec_frac_digit(fs, 1) * 100 + spec_frac_digit(fs, 2) * 10
        + spec_frac_digit(fs, 3)
}

pub open spec fn spec_frac_digit(fs: Seq<u8>, i: int) -> int {
    if i < fs.len() {
        fs[i] - DIGIT_ZERO
    } else {
        0
    }
}

/// Largest whole part a parsed decimal may carry: the scaled value then
/// fits an `i64`.
pub const MAX_DECIMAL_WHOLE: u64 = 922_337_203_685_476;

/// The scaled value of an unsigned decimal token: digits, optionally
/// followed by a dot and fraction digits, of which the first four
/// count. `None` on any other shape, or when the whole part exceeds
/// `MAX_DECIMAL_WHOLE`.
pub open spec fn spec_unsigned_decimal(s: Seq<u8>) -> Option<int> {
    let dot = first_match(s, seq![DOT], 0);
    if dot == -1 {
        if s.len() > 0 && all_digits(s) && digits_value(s) <= MAX_DECIMAL_WHOLE {
            Some(digits_value(s) * 10000)
        } else {
            None
        }
    } else {
        let ip = s.subrange(0, dot);
        let fp = s.subrange(dot + 1, s.len() as int);
        if ip.len() > 0 && all_digits(ip) && all_digits(fp) && digits_value(ip)
            <= MAX_DECIMAL_WHOLE {
            Some(digits_value(ip) * 10000 + spec_frac_scaled(fp))
        } else {
            None
        }
    }
}

/// The scaled value of a signed decimal token.
pub open spec fn spec_parse_decimal(s: Seq<u8>) -> Option<int> {
    if s.len() > 0 && (s[0] == MINUS || s[0] == PLUS) {
        match spec_unsigned_decimal(s.skip(1)) {
            Some(v) => if s[0] == MINUS {
                Some(-v)
            } else {
                Some(v)
            },
            None => None,
        }
    } else {
        spec_unsigned_decimal(s)
    }
}

/// Parses a plain decimal number token into a fixed-point value, as
/// `spec_parse_decimal` describes.
pub fn parse_decimal(s: &[u8]) -> (r: Option<Decimal>)
    ensures
        match r {
            Some(d) => spec_parse_decimal(s@) == Some(d.scaled as int),
            None => spec_parse_decimal(s@) == None::<int>,
        },
{
    let n = s.len();
    if n == 0 {
        return None;
    }
    let b0 = s[0];
    let neg = b0 == MINUS;
    let signed = neg || b0 == PLUS;
    let body: &[u8] = if signed {
        slice_skip_one(s)
    } else {
        s
    };
    match parse_unsigned_decimal(body) {
        Some(v) => if neg {
            Some(Decimal { scaled: -v })
        } else {
            Some(Decimal { scaled: v })
        },
        None => None,
    }
}

fn parse_unsigned_decimal(s: &[u8]) -> (r: Option<i64>)
    ensures
        match r {
            Some(v) => spec_unsigned_decimal(s@) == Some(v as int) && v >= 0,
            None => spec_unsigned_decimal(s@) == None::<int>,
        },
{
    let n = s.len();
    let dotpat: [u8; 1] = [DOT];
    proof {
        assert(dotpat@ =~= seq![DOT]);
    }
    let dot_opt = crate::text::find_sub(s, &dotpat, 0);
    match dot_opt {
        None => {
            let mag = match parse_digits_u64(s) {
                Some(v) => v,
                None => {
                    proof {
                        if s@.len() > 0 && all_digits(s@) {
                            lemma_digits_value_nonneg(s@);
                        }
                    }
                    return None;
                },
            };
            if mag > MAX_DECIMAL_WHOLE {
                return None;
            }
            Some((mag as i64) * 10000)
        },
        Some(dot) => {
            proof {
                crate::text::lemma_first_match_props(s@, seq![DOT], 0);
                assert(is_match_at(s@, seq![DOT], dot as int));
                assert(dot + 1 <= s@.len());
            }
            let ip = slice_subrange(s, 0, dot);
            let fp = slice_subrange(s, dot + 1, n);
            let mag = match parse_digits_u64(ip) {
                Some(v) => v,
                None => {
                    proof {
                        if ip@.len() > 0 && all_digits(ip@) {
                            lemma_digits_value_nonneg(ip@);
                        }
                    }
                    return None;
                },
            };
            if mag > MAX_DECIMAL_WHOLE {
                return None;
            }
            let frac = match frac_scaled_exec(fp) {
                Some(f) => f,
                None => {
                    return None;
                },
            };
            Some((mag as i64) * 10000 + (frac as i64))
        },
    }
}

/// First four fraction digits as ten-thousandths; `None` when a byte is
/// not a digit.
fn frac_scaled_exec(fs: &[u8]) -> (r: Option<u64>)
    ensures
        match r {
            Some(v) => all_digits(fs@) && v == spec_frac_scaled(fs@),
            None => !all_digits(fs@),
        },
{
    let n = fs.len();
    let mut k: usize = 0;
    while k < n
        invariant
            0 <= k <= n,
            n == fs@.len(),
            forall|i: int| 0 <= i < k ==> is_digit(#[trigger] fs@[i]),
        decreases n - k,
    {
        let b = fs[k];
        if b < DIGIT_ZERO || b > 57 {
            assert(!is_digit(fs@[k as int]));
            return None;
        }
        k = k + 1;
    }
    let d0 = frac_digit(fs, 0);
    let d1 = frac_digit(fs, 1);
    let d2 = frac_digit(fs, 2);
    let d3 = frac_digit(fs, 3);
    Some(d0 * 1000 + d1 * 100 + d2 * 10 + d3)
}

fn frac_digit(fs: &[u8], i: usize) -> (r: u64)
    requires
        i < fs@.len() ==> is_digit(fs@[i as int]),
    ensures
        r == spec_frac_digit(fs@, i as int),
{
    if i < fs.len() {
        (fs[i] - DIGIT_ZERO) as u64
    } else {
        0
    }
}

} // verus!

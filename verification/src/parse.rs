//! Parsing of the numeric text fields the gateways send: plain decimal
//! integers (timestamps, block heights) and prices with an optional
//! fractional part.
//!
//! A price is held as a fixed-point integer in hundredths of the quote
//! currency; fractional digits beyond the second are truncated. A parse
//! failure yields `None`, never a partial value.

use vstd::prelude::*;

verus! {

/// Is `c` a decimal digit?
pub open spec fn is_digit(c: char) -> bool {
    '0' <= c && c <= '9'
}

/// Numeric value of a digit character.
pub open spec fn digit_val(c: char) -> int {
    c as int - '0' as int
}

/// Does `s` consist of digits only?
pub open spec fn all_digits(s: Seq<char>) -> bool {
    forall|i: int| 0 <= i < s.len() ==> is_digit(#[trigger] s[i])
}

/// The value of a digit string read in base ten.
pub open spec fn digits_val(s: Seq<char>) -> int
    decreases s.len(),
{
    if s.len() == 0 {
        0
    } else {
        digits_val(s.drop_last()) * 10 + digit_val(s.last())
    }
}

/// What `parse_decimal_u64` returns: the base-ten value of a nonempty
/// all-digit string, if it fits in a `u64`.
pub open spec fn parse_u64_spec(s: Seq<char>) -> Option<u64> {
    if s.len() > 0 && all_digits(s) && digits_val(s) <= u64::MAX {
        Some(digits_val(s) as u64)
    } else {
        None
    }
}

pub proof fn lemma_digits_val_nonneg(s: Seq<char>)
    requires
        all_digits(s),
    ensures
        digits_val(s) >= 0,
    decreases s.len(),
{
    if s.len() > 0 {
        assert(all_digits(s.drop_last())) by {
            assert(forall|i: int| 0 <= i < s.len() - 1 ==> is_digit(#[trigger] s[i]));
        }
        lemma_digits_val_nonneg(s.drop_last());
    }
}

/// Extending an all-digit string never shrinks its value: the value of a
/// prefix bounds the value of the whole from below.
pub proof fn lemma_digits_val_prefix_le(s: Seq<char>, k: int)
    requires
        all_digits(s),
        0 <= k <= s.len(),
    ensures
        digits_val(s.take(k)) <= digits_val(s),
    decreases s.len() - k,
{
    if k < s.len() {
        let t = s.take(k + 1);
        assert(all_digits(t)) by {
            assert(forall|i: int| 0 <= i < t.len() ==> is_digit(#[trigger] t[i]));
        }
        assert(t.drop_last() =~= s.take(k));
        assert(t.last() == s[k]);
        lemma_digits_val_nonneg(s.take(k));
        assert(digits_val(t) == digits_val(s.take(k)) * 10 + digit_val(s[k]));
        assert(digits_val(s.take(k)) <= digits_val(t));
        lemma_digits_val_prefix_le(s, k + 1);
    } else {
        assert(s.take(k) =~= s);
    }
}

/// Parse a nonempty string of decimal digits into a `u64`.
///
/// Returns `None` when the string is empty, holds a non-digit, or names a
/// value above `u64::MAX`.
pub fn parse_decimal_u64(s: &str) -> (r: Option<u64>)
    ensures
        r == parse_u64_spec(s@),
{
    let n = s.unicode_len();
    if n == 0 {
        return None;
    }
    let mut acc: u64 = 0;
    let mut i: usize = 0;
    while i < n
        invariant
            0 <= i <= n,
            n == s@.len(),
            all_digits(s@.take(i as int)),
            acc == digits_val(s@.take(i as int)),
        decreases n - i,
    {
        let c = s.get_char(i);
        let code = c as u32;
        if code < 48 || code > 57 {
            assert(!is_digit(s@[i as int]));
            return None;
        }
        let d = (code - 48) as u64;
        assert(is_digit(s@[i as int]));
        assert(s@.take(i + 1).drop_last() =~= s@.take(i as int));
        assert(s@.take(i + 1).last() == s@[i as int]);
        assert(digits_val(s@.take(i + 1)) == acc * 10 + d);
        if acc > (u64::MAX - d) / 10 {
            // The prefix already exceeds the range, so the whole string does
            // too whenever it is all digits.
            assert(acc * 10 + d > u64::MAX) by {
                assert(acc >= (u64::MAX - d) / 10 + 1);
                assert(((u64::MAX - d) / 10 + 1) * 10 + d > u64::MAX) by (nonlinear_arith);
                assert(acc * 10 >= ((u64::MAX - d) / 10 + 1) * 10) by (nonlinear_arith)
                    requires
                        acc >= (u64::MAX - d) / 10 + 1,
                ;
            }
            proof {
                if all_digits(s@) {
                    assert(all_digits(s@.take(i + 1))) by {
                        assert(forall|j: int|
                            0 <= j < i + 1 ==> is_digit(#[trigger] s@.take(i + 1)[j]));
                    }
                    lemma_digits_val_prefix_le(s@, i + 1);
                    assert(digits_val(s@) > u64::MAX);
                }
            }
            return None;
        }
        assert(acc * 10 + d <= u64::MAX) by {
            assert(acc <= (u64::MAX - d) / 10);
            assert(((u64::MAX - d) / 10) * 10 + d <= u64::MAX) by (nonlinear_arith);
            assert(acc * 10 <= ((u64::MAX - d) / 10) * 10) by (nonlinear_arith)
                requires
                    acc <= (u64::MAX - d) / 10,
            ;
        }
        acc = acc * 10 + d;
        i = i + 1;
    }
    assert(s@.take(n as int) =~= s@);
    Some(acc)
}

/// What `parse_decimal_i64` returns: the base-ten value of a digit string
/// with an optional leading sign, if it fits in an `i64`.
pub open spec fn parse_i64_spec(s: Seq<char>) -> Option<i64> {
    if s.len() > 0 && s[0] == '-' {
        let d = s.skip(1);
        if d.len() > 0 && all_digits(d) && digits_val(d) <= 0x8000_0000_0000_0000 {
            Some((-digits_val(d)) as i64)
        } else {
            None
        }
    } else {
        let d = if s.len() > 0 && s[0] == '+' {
            s.skip(1)
        } else {
            s
        };
        if d.len() > 0 && all_digits(d) && digits_val(d) <= i64::MAX {
            Some(digits_val(d) as i64)
        } else {
            None
        }
    }
}

/// Parse a signed decimal integer: an optional `+` or `-`, then digits.
///
/// Returns `None` when the digits are missing, a non-digit appears, or the
/// value does not fit in an `i64`.
pub fn parse_decimal_i64(s: &str) -> (r: Option<i64>)
    ensures
        r == parse_i64_spec(s@),
{
    let n = s.unicode_len();
    if n == 0 {
        return None;
    }
    let c0 = s.get_char(0);
    if c0 == '-' {
        let d = s.substring_char(1, n);
        assert(d@ =~= s@.skip(1));
        match parse_decimal_u64(d) {
            Some(v) => {
                proof {
                    lemma_digits_val_nonneg(d@);
                }
                if v <= 0x8000_0000_0000_0000u64 {
                    if v == 0x8000_0000_0000_0000u64 {
                        Some(i64::MIN)
                    } else {
                        Some(-(v as i64))
                    }
                } else {
                    None
                }
            },
            None => None,
        }
    } else {
        let d: &str = if c0 == '+' {
            let t = s.substring_char(1, n);
            assert(t@ =~= s@.skip(1));
            t
        } else {
            s
        };
        match parse_decimal_u64(d) {
            Some(v) => {
                proof {
                    lemma_digits_val_nonneg(d@);
                }
                if v <= 0x7FFF_FFFF_FFFF_FFFFu64 {
                    Some(v as i64)
                } else {
                    None
                }
            },
            None => None,
        }
    }
}

/// What `parse_decimal_u32` returns: the base-ten value of a nonempty
/// all-digit string, if it fits in a `u32`.
pub open spec fn parse_u32_spec(s: Seq<char>) -> Option<u32> {
    match parse_u64_spec(s) {
        Some(v) => if v <= u32::MAX {
            Some(v as u32)
        } else {
            None
        },
        None => None,
    }
}

/// Parse a nonempty string of decimal digits into a `u32`.
pub fn parse_decimal_u32(s: &str) -> (r: Option<u32>)
    ensures
        r == parse_u32_spec(s@),
{
    match parse_decimal_u64(s) {
        Some(v) => {
            if v <= 0xFFFF_FFFFu64 {
                Some(v as u32)
            } else {
                None
            }
        },
        None => None,
    }
}

/// Index of the first `'.'` in `s`, or `s.len()` when there is none.
pub open spec fn first_dot(s: Seq<char>) -> int
    decreases s.len(),
{
    if s.len() == 0 {
        0
    } else if s[0] == '.' {
        0
    } else {
        1 + first_dot(s.skip(1))
    }
}

/// Is there a `'.'` anywhere in `s`?
pub open spec fn has_dot(s: Seq<char>) -> bool {
    exists|i: int| 0 <= i < s.len() && s[i] == '.'
}

pub proof fn lemma_first_dot_at(s: Seq<char>, i: int)
    requires
        0 <= i < s.len(),
        s[i] == '.',
        forall|k: int| 0 <= k < i ==> s[k] != '.',
    ensures
        first_dot(s) == i,
    decreases i,
{
    if i > 0 {
        lemma_first_dot_at(s.skip(1), i - 1);
    }
}

pub proof fn lemma_first_dot_none(s: Seq<char>)
    requires
        forall|k: int| 0 <= k < s.len() ==> s[k] != '.',
    ensures
        first_dot(s) == s.len(),
    decreases s.len(),
{
    if s.len() > 0 {
        lemma_first_dot_none(s.skip(1));
    }
}

/// The value, in hundredths, of a nonempty all-digit fractional part: the
/// first two digits count, the rest are truncated away.
pub open spec fn frac_val(s: Seq<char>) -> int {
    if s.len() == 1 {
        digit_val(s[0]) * 10
    } else {
        digit_val(s[0]) * 10 + digit_val(s[1])
    }
}

/// What `parse_price` returns: the fixed-point value, in hundredths, of a
/// decimal price string.
///
/// Accepted shapes are `digits` and `digits.digits`, both parts nonempty.
/// The result is `None` when the shape is wrong or the value does not fit.
pub open spec fn parse_price_spec(s: Seq<char>) -> Option<u64> {
    if !has_dot(s) {
        if s.len() > 0 && all_digits(s) && digits_val(s) * 100 <= u64::MAX {
            Some((digits_val(s) * 100) as u64)
        } else {
            None
        }
    } else {
        let i = first_dot(s);
        let ip = s.take(i);
        let fp = s.skip(i + 1);
        if ip.len() > 0 && all_digits(ip) && fp.len() > 0 && all_digits(fp) && digits_val(ip)
            * 100 + frac_val(fp) <= u64::MAX {
            Some((digits_val(ip) * 100 + frac_val(fp)) as u64)
        } else {
            None
        }
    }
}

/// Parse the fractional part of a price: nonempty, digits only; worth the
/// value of its first two digits in hundredths.
fn parse_frac(s: &str) -> (r: Option<u64>)
    ensures
        match r {
            Some(v) => s@.len() > 0 && all_digits(s@) && v == frac_val(s@),
            None => !(s@.len() > 0 && all_digits(s@)),
        },
{
    let n = s.unicode_len();
    if n == 0 {
        return None;
    }
    let mut i: usize = 0;
    while i < n
        invariant
            0 <= i <= n,
            n == s@.len(),
            all_digits(s@.take(i as int)),
        decreases n - i,
    {
        let c = s.get_char(i);
        let code = c as u32;
        if code < 48 || code > 57 {
            assert(!is_digit(s@[i as int]));
            return None;
        }
        assert(is_digit(s@[i as int]));
        assert(s@.take(i + 1).drop_last() =~= s@.take(i as int));
        i = i + 1;
    }
    assert(s@.take(n as int) =~= s@);
    let d0 = (s.get_char(0) as u32 - 48) as u64;
    if n == 1 {
        Some(d0 * 10)
    } else {
        let d1 = (s.get_char(1) as u32 - 48) as u64;
        Some(d0 * 10 + d1)
    }
}

/// Parse a decimal price string into its fixed-point value in hundredths.
///
/// `"12345.67"` is worth `1234567`; `"100"` is worth `10000`; fractional
/// digits beyond the second are truncated. Returns `None` on an empty part,
/// a non-digit, or a value that does not fit in a `u64`.
pub fn parse_price(s: &str) -> (r: Option<u64>)
    ensures
        r == parse_price_spec(s@),
{
    let n = s.unicode_len();
    // Find the first dot, if any.
    let mut dot: usize = n;
    let mut j: usize = 0;
    while j < n
        invariant
            0 <= j <= n,
            n == s@.len(),
            dot == n ==> forall|k: int| 0 <= k < j ==> s@[k] != '.',
            dot < n ==> s@[dot as int] == '.' && forall|k: int| 0 <= k < dot ==> s@[k] != '.',
            dot <= n,
        decreases n - j,
    {
        if dot == n && s.get_char(j) == '.' {
            dot = j;
        }
        j = j + 1;
    }
    if dot == n {
        proof {
            lemma_first_dot_none(s@);
            assert(!has_dot(s@));
        }
        // No fractional part: the whole string is the integer part.
        match parse_decimal_u64(s) {
            Some(v) => {
                proof {
                    lemma_digits_val_nonneg(s@);
                }
                if v <= u64::MAX / 100 {
                    assert(v * 100 <= u64::MAX) by {
                        assert((u64::MAX / 100) * 100 <= u64::MAX) by (nonlinear_arith);
                        assert(v * 100 <= (u64::MAX / 100) * 100) by (nonlinear_arith)
                            requires
                                v <= u64::MAX / 100,
                        ;
                    }
                    Some(v * 100)
                } else {
                    assert(v * 100 > u64::MAX) by {
                        assert(v >= u64::MAX / 100 + 1);
                        assert((u64::MAX / 100 + 1) * 100 > u64::MAX) by (nonlinear_arith);
                        assert(v * 100 >= (u64::MAX / 100 + 1) * 100) by (nonlinear_arith)
                            requires
                                v >= u64::MAX / 100 + 1,
                        ;
                    }
                    None
                }
            },
            None => {
                // Either a non-digit or an integer part already out of range;
                // scaling by one hundred keeps it out of range.
                proof {
                    if s@.len() > 0 && all_digits(s@) {
                        assert(digits_val(s@) > u64::MAX);
                        assert(digits_val(s@) * 100 > u64::MAX) by (nonlinear_arith)
                            requires
                                digits_val(s@) > u64::MAX,
                        ;
                    }
                }
                None
            },
        }
    } else {
        proof {
            lemma_first_dot_at(s@, dot as int);
            assert(has_dot(s@));
        }
        let ip = s.substring_char(0, dot);
        let fp = s.substring_char(dot + 1, n);
        assert(ip@ == s@.take(dot as int));
        assert(fp@ == s@.skip(dot as int + 1));
        let ipv = match parse_decimal_u64(ip) {
            Some(v) => v,
            None => {
                proof {
                    if ip@.len() > 0 && all_digits(ip@) {
                        assert(digits_val(ip@) > u64::MAX);
                        if fp@.len() > 0 && all_digits(fp@) {
                            assert(frac_val(fp@) >= 0);
                            assert(digits_val(ip@) * 100 + frac_val(fp@) > u64::MAX)
                                by (nonlinear_arith)
                                requires
                                    digits_val(ip@) > u64::MAX,
                                    frac_val(fp@) >= 0,
                            ;
                        }
                    }
                }
                return None;
            },
        };
        let fv = match parse_frac(fp) {
            Some(v) => v,
            None => {
                return None;
            },
        };
        proof {
            lemma_digits_val_nonneg(ip@);
        }
        assert(fv <= 99);
        if ipv <= (u64::MAX - fv) / 100 {
            assert(ipv * 100 + fv <= u64::MAX) by {
                assert(((u64::MAX - fv) / 100) * 100 + fv <= u64::MAX) by (nonlinear_arith);
                assert(ipv * 100 <= ((u64::MAX - fv) / 100) * 100) by (nonlinear_arith)
                    requires
                        ipv <= (u64::MAX - fv) / 100,
                ;
            }
            Some(ipv * 100 + fv)
        } else {
            assert(ipv * 100 + fv > u64::MAX) by {
                assert(ipv >= (u64::MAX - fv) / 100 + 1);
                assert(((u64::MAX - fv) / 100 + 1) * 100 + fv > u64::MAX) by (nonlinear_arith);
                assert(ipv * 100 >= ((u64::MAX - fv) / 100 + 1) * 100) by (nonlinear_arith)
                    requires
                        ipv >= (u64::MAX - fv) / 100 + 1,
                ;
            }
            None
        }
    }
}

} // verus!

//! The percent model of the progress stream.
//!
//! Progress percentages are carried as a fixed-point count of hundredths of
//! a percent, so a full download is 10000. A percent field is read from a
//! plain decimal numeral: an optional leading minus sign, digits, and at most
//! one decimal point, with at least one digit somewhere. Fractional digits
//! beyond the second carry less than one hundredth of a percent and are
//! dropped. Values outside [0, 100] percent are clamped to the range that
//! emitted progress events promise.

use vstd::prelude::*;

use crate::text::{find_char, lemma_find_char_absent, lemma_find_char_first, lemma_find_char_props};

verus! {

/// The largest percent value an event may carry: 100 percent, in hundredths.
pub const PERCENT_MAX_CENTI: i64 = 10000;

/// `c` is a decimal digit.
pub open spec fn is_digit(c: char) -> bool {
    48 <= c as u32 <= 57
}

/// The numeric value of the digit `c`.
pub open spec fn digit_val(c: char) -> int {
    c as u32 - 48
}

/// Every character of `s` is a decimal digit.
pub open spec fn all_digits(s: Seq<char>) -> bool {
    forall|i: int| 0 <= i < s.len() ==> is_digit(s[i])
}

/// The value of a string of digits read in base ten.
pub open spec fn digits_val(s: Seq<char>) -> int
    decreases s.len(),
{
    if s.len() == 0 {
        0
    } else {
        digits_val(s.drop_last()) * 10 + digit_val(s.last())
    }
}

/// The hundredths contributed by the fractional digits: only the first two
/// count.
pub open spec fn frac_centi(s: Seq<char>) -> int {
    (if s.len() >= 1 {
        digit_val(s[0]) * 10
    } else {
        0
    }) + (if s.len() >= 2 {
        digit_val(s[1])
    } else {
        0
    })
}

/// The part of a numeral after its optional leading minus sign.
pub open spec fn numeral_body(s: Seq<char>) -> Seq<char> {
    if s.len() > 0 && s[0] == '-' {
        s.skip(1)
    } else {
        s
    }
}

/// `s` is a well-formed decimal numeral: an optional minus sign, then digits
/// with at most one decimal point and at least one digit.
pub open spec fn valid_decimal(s: Seq<char>) -> bool {
    let body = numeral_body(s);
    let d = find_char(body, '.');
    &&& body.len() > 0
    &&& if d < 0 {
        all_digits(body)
    } else {
        &&& all_digits(body.subrange(0, d))
        &&& all_digits(body.skip(d + 1))
        &&& body.len() > 1
    }
}

/// The value of the numeral `s` in hundredths, keeping two fractional digits.
pub open spec fn decimal_centi(s: Seq<char>) -> int {
    let body = numeral_body(s);
    let d = find_char(body, '.');
    let int_part = if d < 0 {
        body
    } else {
        body.subrange(0, d)
    };
    let frac_part = if d < 0 {
        Seq::<char>::empty()
    } else {
        body.skip(d + 1)
    };
    let magnitude = digits_val(int_part) * 100 + frac_centi(frac_part);
    if s.len() > 0 && s[0] == '-' {
        -magnitude
    } else {
        magnitude
    }
}

/// `v` clamped to the percent range [0, 10000] hundredths.
pub open spec fn clamp_centi(v: int) -> int {
    if v < 0 {
        0
    } else if v > PERCENT_MAX_CENTI as int {
        PERCENT_MAX_CENTI as int
    } else {
        v
    }
}

/// `c` survives the sanitising pass over a percent field: a digit, a
/// decimal point, or a minus sign.
pub open spec fn is_numeral_char(c: char) -> bool {
    is_digit(c) || c == '.' || c == '-'
}

/// `s` reduced to the characters a numeral may contain.
pub open spec fn keep_numeral_chars(s: Seq<char>) -> Seq<char>
    decreases s.len(),
{
    if s.len() == 0 {
        Seq::<char>::empty()
    } else if is_numeral_char(s[0]) {
        seq![s[0]] + keep_numeral_chars(s.skip(1))
    } else {
        keep_numeral_chars(s.skip(1))
    }
}

/// Sanitises a percent field: keeps only digits, decimal points and minus
/// signs, dropping whitespace, the percent sign, and anything else.
pub fn keep_numeral_chars_str(s: &str) -> (r: String)
    ensures
        r@ == keep_numeral_chars(s@),
{
    let n = s.unicode_len();
    let mut out = String::new();
    let mut i: usize = 0;
    proof {
        assert(s@.skip(0) =~= s@);
        assert(Seq::<char>::empty() + keep_numeral_chars(s@) =~= keep_numeral_chars(s@));
    }
    while i < n
        invariant
            i <= n,
            n == s@.len(),
            keep_numeral_chars(s@) == out@ + keep_numeral_chars(s@.skip(i as int)),
        decreases n - i,
    {
        let ghost rest = s@.skip(i as int);
        let c = s.get_char(i);
        let u = c as u32;
        proof {
            assert(rest[0] == s@[i as int]);
            assert(rest.skip(1) =~= s@.skip(i + 1));
        }
        if (48 <= u && u <= 57) || c == '.' || c == '-' {
            let ghost out0 = out@;
            out.append(s.substring_char(i, i + 1));
            proof {
                assert(s@.subrange(i as int, i + 1 as int) =~= seq![s@[i as int]]);
                assert(out@ =~= out0 + seq![s@[i as int]]);
                assert(out0 + (seq![s@[i as int]] + keep_numeral_chars(s@.skip(i + 1))) =~= (out0
                    + seq![s@[i as int]]) + keep_numeral_chars(s@.skip(i + 1)));
            }
        } else {
            proof {
                assert(!is_numeral_char(rest[0]));
            }
        }
        i += 1;
    }
    proof {
        assert(s@.skip(n as int) =~= Seq::<char>::empty());
        assert(out@ + Seq::<char>::empty() =~= out@);
    }
    out
}

/// `digits_val`, saturated just above the largest whole percent that
/// survives clamping.
spec fn sat_digits(s: Seq<char>) -> int {
    if digits_val(s) > 100 {
        101
    } else {
        digits_val(s)
    }
}

proof fn lemma_digits_val_nonneg(s: Seq<char>)
    requires
        all_digits(s),
    ensures
        digits_val(s) >= 0,
    decreases s.len(),
{
    if s.len() > 0 {
        assert(forall|i: int| 0 <= i < s.drop_last().len() ==> s.drop_last()[i] == s[i]);
        lemma_digits_val_nonneg(s.drop_last());
    }
}

proof fn lemma_digits_val_push(s: Seq<char>, c: char)
    ensures
        digits_val(s.push(c)) == digits_val(s) * 10 + digit_val(c),
{
    assert(s.push(c).drop_last() =~= s);
    assert(s.push(c).last() == c);
}

/// Reads the numeral `s` as a percent value in hundredths, clamped to
/// [0, 10000]. Returns nothing exactly when `s` is not a well-formed decimal
/// numeral.
pub fn parse_percent(s: &str) -> (r: Option<i64>)
    ensures
        match r {
            Some(v) => valid_decimal(s@) && v == clamp_centi(decimal_centi(s@)),
            None => !valid_decimal(s@),
        },
{
    let n = s.unicode_len();
    let mut pos: usize = 0;
    let mut neg: bool = false;
    if n > 0 {
        if s.get_char(0) == '-' {
            neg = true;
            pos = 1;
        }
    }
    let ghost body = numeral_body(s@);
    proof {
        assert(body =~= s@.skip(pos as int));
    }
    let mut i: usize = pos;
    let mut acc: u64 = 0;
    while i < n
        invariant
            pos <= i <= n,
            n == s@.len(),
            forall|j: int| pos <= j < i ==> is_digit(s@[j]),
            acc == sat_digits(s@.subrange(pos as int, i as int)),
        ensures
            pos <= i <= n,
            forall|j: int| pos <= j < i ==> is_digit(s@[j]),
            acc == sat_digits(s@.subrange(pos as int, i as int)),
            i == n || !is_digit(s@[i as int]),
        decreases n - i,
    {
        let c = s.get_char(i);
        let u = c as u32;
        if !(48 <= u && u <= 57) {
            break;
        }
        let d = (u - 48) as u64;
        let ghost prefix = s@.subrange(pos as int, i as int);
        proof {
            assert(s@.subrange(pos as int, i + 1 as int) =~= prefix.push(s@[i as int]));
            lemma_digits_val_push(prefix, s@[i as int]);
            assert forall|j: int| 0 <= j < prefix.len() implies is_digit(prefix[j]) by {
                assert(prefix[j] == s@[pos + j]);
            }
            lemma_digits_val_nonneg(prefix);
        }
        let t = acc * 10 + d;
        acc = if t > 100 {
            101
        } else {
            t
        };
        i += 1;
    }
    if i == n {
        // No decimal point: the whole body must be digits, and non-empty.
        if i == pos {
            proof {
                assert(body.len() == 0);
            }
            return None;
        }
        proof {
            assert forall|j: int| 0 <= j < body.len() implies is_digit(body[j]) by {
                assert(body[j] == s@[pos + j]);
            }
            assert forall|j: int| 0 <= j < body.len() implies body[j] != '.' by {}
            lemma_find_char_absent(body, '.');
            assert(valid_decimal(s@));
            assert(body =~= s@.subrange(pos as int, i as int));
            lemma_digits_val_nonneg(body);
        }
        return Some(finish_percent(neg, acc, 0, 0));
    }
    let c = s.get_char(i);
    if c != '.' {
        // A stray character makes the numeral invalid wherever the first
        // decimal point sits relative to it.
        proof {
            lemma_find_char_props(body, '.');
            let d = find_char(body, '.');
            let bad = i - pos;
            assert(body[bad] == s@[i as int]);
            if d < 0 {
                assert(!is_digit(body[bad]));
            } else {
                assert(body[d] == '.');
                assert(d != bad);
                if d < bad {
                    assert(is_digit(s@[pos + d]));
                    assert(body[d] == s@[pos + d]);
                    assert(false);
                } else {
                    assert(body.subrange(0, d)[bad] == body[bad]);
                    assert(!all_digits(body.subrange(0, d)));
                }
            }
        }
        return None;
    }
    // Scan the fractional digits, which must run to the end of the string.
    proof {
        assert(body[i - pos] == '.');
        assert forall|j: int| 0 <= j < i - pos implies body[j] != '.' by {
            assert(body[j] == s@[pos + j]);
        }
        lemma_find_char_first(body, '.', i - pos);
    }
    let mut j: usize = i + 1;
    while j < n
        invariant
            i + 1 <= j <= n,
            n == s@.len(),
            forall|k: int| i + 1 <= k < j ==> is_digit(s@[k]),
        ensures
            i + 1 <= j <= n,
            forall|k: int| i + 1 <= k < j ==> is_digit(s@[k]),
            j == n || !is_digit(s@[j as int]),
        decreases n - j,
    {
        let c2 = s.get_char(j);
        let u2 = c2 as u32;
        if !(48 <= u2 && u2 <= 57) {
            break;
        }
        j += 1;
    }
    let ghost frac = body.skip(i - pos + 1);
    proof {
        assert(frac =~= s@.skip(i + 1));
    }
    if j < n {
        proof {
            assert(frac[j - (i + 1)] == s@[j as int]);
            assert(!all_digits(frac));
        }
        return None;
    }
    if n - pos <= 1 {
        // The body is just the decimal point.
        return None;
    }
    let d1: u64 = if n - i > 1 {
        (s.get_char(i + 1) as u32 - 48) as u64
    } else {
        0
    };
    let d2: u64 = if n - i > 2 {
        (s.get_char(i + 2) as u32 - 48) as u64
    } else {
        0
    };
    proof {
        assert(valid_decimal(s@));
        let int_part = body.subrange(0, i - pos);
        assert(int_part =~= s@.subrange(pos as int, i as int));
        lemma_digits_val_nonneg(int_part);
        if frac.len() >= 1 {
            assert(frac[0] == s@[i + 1]);
        }
        if frac.len() >= 2 {
            assert(frac[1] == s@[i + 2]);
        }
    }
    Some(finish_percent(neg, acc, d1, d2))
}

/// Combines the saturated whole-percent accumulator and the first two
/// fractional digits into the clamped fixed-point value.
fn finish_percent(neg: bool, acc: u64, d1: u64, d2: u64) -> (r: i64)
    requires
        acc <= 101,
        d1 <= 9,
        d2 <= 9,
    ensures
        0 <= r <= PERCENT_MAX_CENTI,
        ({
            let magnitude: int = if acc == 101 {
                10100int
            } else {
                acc * 100 + d1 * 10 + d2
            };
            r == clamp_centi(if neg {
                -magnitude
            } else {
                magnitude
            })
        }),
{
    if neg {
        return 0;
    }
    if acc > 100 {
        return PERCENT_MAX_CENTI;
    }
    let centi = acc * 100 + d1 * 10 + d2;
    if centi > 10000 {
        PERCENT_MAX_CENTI
    } else {
        centi as i64
    }
}

} // verus!

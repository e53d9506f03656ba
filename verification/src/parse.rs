//! Validation of the two numeric inputs: the total of marks, a non-negative
//! decimal number read into milli-marks, and the subject count, a positive
//! integer. The accepted shape is plain decimal digits with an optional
//! single point: `"270"`, `"89.999"`, `"5."` and `".5"` are accepted;
//! a sign, an exponent, a lone `"."` or an empty string are not.
//!
//! Fractional digits beyond the third are ignored: the value is truncated
//! to milli-marks.

use vstd::prelude::*;
use vstd::string::StrSliceExecFns;
use crate::grade::MAX_TOTAL_MARKS_MILLI;

verus! {

/// The largest integer part a total of marks may have: with three fractional
/// digits it fills [`MAX_TOTAL_MARKS_MILLI`] exactly.
pub const MAX_MARKS_WHOLE: u64 = 999_999_999_999;

/// Whether `c` is a decimal digit.
pub open spec fn is_digit(c: char) -> bool {
    48 <= c as int && c as int <= 57
}

/// The value of a digit character.
pub open spec fn digit_val(c: char) -> int {
    c as int - 48
}

/// Whether every character of `s` is a decimal digit.
pub open spec fn all_digits(s: Seq<char>) -> bool {
    forall|i: int| 0 <= i < s.len() ==> is_digit(#[trigger] s[i])
}

/// The value of a digit string, read in base ten; zero for the empty string.
pub open spec fn dec_val(s: Seq<char>) -> int
    decreases s.len(),
{
    if s.len() == 0 {
        0
    } else {
        dec_val(s.drop_last()) * 10 + digit_val(s.last())
    }
}

/// Ten to the `n`.
pub open spec fn pow10(n: nat) -> int
    decreases n,
{
    if n == 0 {
        1
    } else {
        10 * pow10((n - 1) as nat)
    }
}

/// The index of the first `'.'` in `s`, or `s.len()` if there is none.
pub open spec fn dot_index(s: Seq<char>) -> int
    decreases s.len(),
{
    if s.len() == 0 {
        0
    } else if s[0] == '.' {
        0
    } else {
        1 + dot_index(s.subrange(1, s.len() as int))
    }
}

/// The value in milli-marks of a fractional digit string: its first three
/// digits, padded with zeros to three; later digits are truncated away.
pub open spec fn frac_milli(f: Seq<char>) -> int {
    if f.len() >= 3 {
        dec_val(f.take(3))
    } else {
        dec_val(f) * pow10((3 - f.len()) as nat)
    }
}

/// Whether `s` is an accepted total-of-marks literal: digits with at most
/// one point, at least one character, and not a lone point.
pub open spec fn is_marks_string(s: Seq<char>) -> bool {
    let p = dot_index(s);
    &&& s.len() > 0
    &&& !(p == 0 && p + 1 >= s.len())
    &&& all_digits(s.take(p))
    &&& (p < s.len() ==> all_digits(s.skip(p + 1)))
}

/// The value in milli-marks of an accepted total-of-marks literal.
pub open spec fn marks_val_milli(s: Seq<char>) -> int {
    let p = dot_index(s);
    if p == s.len() {
        dec_val(s) * 1000
    } else {
        dec_val(s.take(p)) * 1000 + frac_milli(s.skip(p + 1))
    }
}

proof fn lemma_dec_val_nonneg(t: Seq<char>)
    requires
        all_digits(t),
    ensures
        dec_val(t) >= 0,
    decreases t.len(),
{
    if t.len() > 0 {
        assert(all_digits(t.drop_last()));
        lemma_dec_val_nonneg(t.drop_last());
    }
}

proof fn lemma_dec_val_bound(t: Seq<char>)
    requires
        all_digits(t),
    ensures
        0 <= dec_val(t) < pow10(t.len()),
    decreases t.len(),
{
    if t.len() > 0 {
        assert(all_digits(t.drop_last()));
        lemma_dec_val_bound(t.drop_last());
    }
}

proof fn lemma_dec_val_take_step(t: Seq<char>, k: int)
    requires
        0 <= k < t.len(),
    ensures
        dec_val(t.take(k + 1)) == dec_val(t.take(k)) * 10 + digit_val(t[k]),
{
    let u = t.take(k + 1);
    assert(u.drop_last() =~= t.take(k));
    assert(u.last() == t[k]);
}

proof fn lemma_dec_val_prefix_le(t: Seq<char>, k: int)
    requires
        0 <= k <= t.len(),
        all_digits(t),
    ensures
        0 <= dec_val(t.take(k)) <= dec_val(t),
    decreases t.len() - k,
{
    assert(all_digits(t.take(k)));
    lemma_dec_val_nonneg(t.take(k));
    if k == t.len() {
        assert(t.take(k) =~= t);
    } else {
        lemma_dec_val_take_step(t, k);
        lemma_dec_val_prefix_le(t, k + 1);
    }
}

proof fn lemma_frac_milli_bounds(f: Seq<char>)
    requires
        all_digits(f),
    ensures
        0 <= frac_milli(f) <= 999,
{
    reveal_with_fuel(pow10, 4);
    if f.len() >= 3 {
        assert(all_digits(f.take(3)));
        lemma_dec_val_bound(f.take(3));
    } else {
        lemma_dec_val_bound(f);
        if f.len() == 0 {
            assert(dec_val(f) == 0);
            assert(dec_val(f) * pow10(3) == 0) by (nonlinear_arith)
                requires
                    dec_val(f) == 0,
            ;
        } else if f.len() == 1 {
            assert(0 <= dec_val(f) * pow10(2) <= 999) by (nonlinear_arith)
                requires
                    0 <= dec_val(f),
                    dec_val(f) <= 9,
                    pow10(2) == 100,
            ;
        } else {
            assert(f.len() == 2);
            assert(0 <= dec_val(f) * pow10(1) <= 999) by (nonlinear_arith)
                requires
                    0 <= dec_val(f),
                    dec_val(f) <= 99,
                    pow10(1) == 10,
            ;
        }
    }
}

proof fn lemma_dot_index_at(s: Seq<char>, p: int)
    requires
        0 <= p <= s.len(),
        forall|j: int| 0 <= j < p ==> s[j] != '.',
        p < s.len() ==> s[p] == '.',
    ensures
        dot_index(s) == p,
    decreases p,
{
    if p == 0 {
    } else {
        let rest = s.subrange(1, s.len() as int);
        lemma_dot_index_at(rest, p - 1);
    }
}

/// Finds the first `'.'` of `s`, or its length if there is none.
fn find_dot(s: &str) -> (p: usize)
    ensures
        p as int == dot_index(s@),
        p <= s@.len(),
        p < s@.len() ==> s@[p as int] == '.',
{
    let n = s.unicode_len();
    let mut i: usize = 0;
    while i < n
        invariant
            i <= n,
            n == s@.len(),
            forall|j: int| 0 <= j < i ==> s@[j] != '.',
        decreases n - i,
    {
        if s.get_char(i) == '.' {
            proof {
                lemma_dot_index_at(s@, i as int);
            }
            return i;
        }
        i = i + 1;
    }
    proof {
        lemma_dot_index_at(s@, n as int);
    }
    n
}

/// Reads the digits of `s` between `from` and `to` as a base-ten value.
/// Returns the value if they are all digits and it is at most `cap`,
/// and nothing otherwise.
fn scan_digits_capped(s: &str, from: usize, to: usize, cap: u64) -> (r: Option<u64>)
    requires
        from <= to <= s@.len(),
    ensures
        ({
            let seg = s@.subrange(from as int, to as int);
            if all_digits(seg) && dec_val(seg) <= cap as int {
                r == Some(dec_val(seg) as u64)
            } else {
                r == None::<u64>
            }
        }),
{
    let ghost seg = s@.subrange(from as int, to as int);
    let mut acc: u64 = 0;
    let mut i = from;
    proof {
        assert(seg.take(0) =~= Seq::<char>::empty());
    }
    while i < to
        invariant
            from <= i <= to <= s@.len(),
            seg == s@.subrange(from as int, to as int),
            all_digits(seg.take(i as int - from as int)),
            acc as int == dec_val(seg.take(i as int - from as int)),
            acc <= cap,
        decreases to - i,
    {
        let ghost k = i as int - from as int;
        let c = s.get_char(i);
        proof {
            assert(seg[k] == s@[i as int]);
        }
        let u = c as u32;
        if u < 48 || u > 57 {
            proof {
                assert(!is_digit(seg[k]));
            }
            return None;
        }
        let d: u64 = (u - 48) as u64;
        proof {
            assert(is_digit(seg[k]));
            assert(d as int == digit_val(seg[k]));
            lemma_dec_val_take_step(seg, k);
        }
        let q = cap / 10;
        let m = cap % 10;
        proof {
            vstd::arithmetic::div_mod::lemma_fundamental_div_mod(cap as int, 10);
            vstd::arithmetic::div_mod::lemma_mod_bound(cap as int, 10);
        }
        if acc > q || (acc == q && d > m) {
            proof {
                assert(acc as int * 10 + d as int > cap as int) by (nonlinear_arith)
                    requires
                        acc as int > q as int || (acc as int == q as int && d as int > m as int),
                        cap as int == 10 * (q as int) + m as int,
                        0 <= (m as int),
                        (m as int) < 10,
                        d as int >= 0,
                ;
                assert(dec_val(seg.take(k + 1)) > cap as int);
                if all_digits(seg) {
                    lemma_dec_val_prefix_le(seg, k + 1);
                }
            }
            return None;
        }
        proof {
            assert(acc as int * 10 + d as int <= cap as int) by (nonlinear_arith)
                requires
                    acc as int <= q as int,
                    acc as int == q as int ==> d as int <= m as int,
                    d as int <= 9,
                    cap as int == 10 * (q as int) + m as int,
                    0 <= (m as int),
                    (m as int) < 10,
                    acc as int >= 0,
            ;
        }
        acc = acc * 10 + d;
        i = i + 1;
        proof {
            assert forall|j: int| 0 <= j < i as int - from as int implies is_digit(
                #[trigger] seg.take(i as int - from as int)[j],
            ) by {
                assert(seg.take(i as int - from as int)[j] == seg[j]);
                if j < k {
                    assert(is_digit(seg.take(k)[j]));
                    assert(seg.take(k)[j] == seg[j]);
                }
            }
        }
    }
    proof {
        assert(seg.take(to as int - from as int) =~= seg);
    }
    Some(acc)
}

/// Parses a total of marks into milli-marks. Returns the value exactly when
/// the input is an accepted marks literal whose value fits the model's
/// bound, and nothing otherwise. A rejected input is the caller's cue to
/// prompt again.
pub fn parse_total_marks(s: &str) -> (r: Option<u64>)
    ensures
        ({
            if is_marks_string(s@) && marks_val_milli(s@) <= MAX_TOTAL_MARKS_MILLI as int {
                r == Some(marks_val_milli(s@) as u64)
            } else {
                r == None::<u64>
            }
        }),
{
    let n = s.unicode_len();
    if n == 0 {
        return None;
    }
    let p = find_dot(s);
    if p == 0 && p + 1 >= n {
        return None;
    }
    let whole = match scan_digits_capped(s, 0, p, MAX_MARKS_WHOLE) {
        Some(v) => v,
        None => {
            proof {
                let wholeseq = s@.take(p as int);
                assert(s@.subrange(0, p as int) =~= wholeseq);
                if is_marks_string(s@) {
                    // The digits are in shape, so only the cap can have
                    // failed: the value then exceeds the model's bound.
                    assert(all_digits(wholeseq));
                    assert(dec_val(wholeseq) > MAX_MARKS_WHOLE as int);
                    if p == n {
                        assert(wholeseq =~= s@);
                    } else {
                        lemma_frac_milli_bounds(s@.skip(p as int + 1));
                    }
                    assert(marks_val_milli(s@) > MAX_TOTAL_MARKS_MILLI as int);
                }
            }
            return None;
        },
    };
    proof {
        assert(s@.subrange(0, p as int) =~= s@.take(p as int));
        lemma_dec_val_nonneg(s@.take(p as int));
        assert(whole <= MAX_MARKS_WHOLE);
    }
    if p == n {
        proof {
            assert(s@.take(p as int) =~= s@);
        }
        Some(whole * 1000)
    } else {
        if !check_digits(s, p + 1, n) {
            return None;
        }
        let fl = n - (p + 1);
        let f3to = if fl >= 3 {
            p + 1 + 3
        } else {
            n
        };
        let ghost frac = s@.skip(p as int + 1);
        proof {
            assert(frac =~= s@.subrange(p as int + 1, n as int));
            assert(s@.subrange(p as int + 1, f3to as int) =~= if frac.len() >= 3 {
                frac.take(3)
            } else {
                frac
            });
            if frac.len() >= 3 {
                assert(all_digits(frac.take(3)));
                lemma_dec_val_bound(frac.take(3));
            } else {
                lemma_dec_val_bound(frac);
            }
            reveal_with_fuel(pow10, 4);
        }
        let fv = match scan_digits_capped(s, p + 1, f3to, 999) {
            Some(v) => v,
            None => {
                // Unreachable: the digits were checked and three digits are
                // at most 999; still, rejecting is within the contract only
                // if the shape or bound fails, so prove it cannot.
                proof {
                    assert(false);
                }
                return None;
            },
        };
        proof {
            reveal_with_fuel(pow10, 4);
            assert(fl as int == frac.len());
            if fl >= 3 {
                assert(fv as int == dec_val(frac.take(3)));
            } else {
                assert(fv as int == dec_val(frac));
            }
            assert(fv <= 999);
        }
        let fm: u64 = if fl >= 3 {
            fv
        } else if fl == 2 {
            fv * 10
        } else if fl == 1 {
            fv * 100
        } else {
            fv * 1000
        };
        proof {
            assert(fm as int == frac_milli(frac));
            lemma_frac_milli_bounds(frac);
        }
        Some(whole * 1000 + fm)
    }
}

/// Whether the characters of `s` between `from` and `to` are all digits.
fn check_digits(s: &str, from: usize, to: usize) -> (b: bool)
    requires
        from <= to <= s@.len(),
    ensures
        b == all_digits(s@.subrange(from as int, to as int)),
{
    let ghost seg = s@.subrange(from as int, to as int);
    let mut i = from;
    while i < to
        invariant
            from <= i <= to <= s@.len(),
            seg == s@.subrange(from as int, to as int),
            forall|j: int| 0 <= j < i as int - from as int ==> is_digit(#[trigger] seg[j]),
        decreases to - i,
    {
        let c = s.get_char(i);
        let u = c as u32;
        proof {
            assert(seg[i as int - from as int] == s@[i as int]);
        }
        if u < 48 || u > 57 {
            proof {
                assert(!is_digit(seg[i as int - from as int]));
            }
            return false;
        }
        i = i + 1;
    }
    true
}

/// Parses a subject count. Returns the count exactly when the input is a
/// non-empty digit string whose value is positive and fits `u32`, and
/// nothing otherwise.
pub fn parse_num_subjects(s: &str) -> (r: Option<u32>)
    ensures
        ({
            if all_digits(s@) && s@.len() > 0 && 1 <= dec_val(s@) <= u32::MAX as int {
                r == Some(dec_val(s@) as u32)
            } else {
                r == None::<u32>
            }
        }),
{
    let n = s.unicode_len();
    if n == 0 {
        return None;
    }
    proof {
        assert(s@.subrange(0, n as int) =~= s@);
    }
    match scan_digits_capped(s, 0, n, 0xffff_ffff) {
        Some(v) => {
            proof {
                lemma_dec_val_nonneg(s@);
                assert(v <= 0xffff_ffffu64);
            }
            if v == 0 {
                None
            } else {
                Some(v as u32)
            }
        },
        None => None,
    }
}

} // verus!

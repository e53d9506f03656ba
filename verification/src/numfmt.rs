//! Decimal rendering of the integers that the model stores: plain decimal
//! digits, fixed-point values in hundredths with exactly two decimal digits,
//! and right-padding to a column width.

use vstd::prelude::*;
use vstd::string::StrSliceExecFns;
use vstd::string::StringExecFns;

verus! {

/// The decimal digit character for `d` (meaningful for `0 <= d <= 9`).
pub open spec fn spec_digit(d: int) -> char {
    if d == 0 {
        '0'
    } else if d == 1 {
        '1'
    } else if d == 2 {
        '2'
    } else if d == 3 {
        '3'
    } else if d == 4 {
        '4'
    } else if d == 5 {
        '5'
    } else if d == 6 {
        '6'
    } else if d == 7 {
        '7'
    } else if d == 8 {
        '8'
    } else {
        '9'
    }
}

/// The decimal representation of a non-negative integer, most significant
/// digit first, with no leading zeros (a single `'0'` for zero).
pub open spec fn spec_dec(n: int) -> Seq<char>
    recommends
        n >= 0,
    decreases n,
{
    if n < 10 {
        seq![spec_digit(n)]
    } else {
        spec_dec(n / 10).push(spec_digit(n % 10))
    }
}

/// A value in hundredths rendered with exactly two decimal digits,
/// e.g. 9000 becomes "90.00" and 7 becomes "0.07".
pub open spec fn spec_centi(c: int) -> Seq<char>
    recommends
        c >= 0,
{
    spec_dec(c / 100) + seq!['.', spec_digit((c / 10) % 10), spec_digit(c % 10)]
}

/// `n` space characters.
pub open spec fn spec_spaces(n: int) -> Seq<char>
    decreases n,
{
    if n <= 0 {
        Seq::empty()
    } else {
        spec_spaces(n - 1).push(' ')
    }
}

/// `s` padded on the right with spaces to at least `w` characters; a longer
/// `s` is returned unchanged.
pub open spec fn spec_pad_right(s: Seq<char>, w: int) -> Seq<char> {
    if s.len() >= w {
        s
    } else {
        s + spec_spaces(w - s.len())
    }
}

fn digit_str(d: u64) -> (r: &'static str)
    requires
        d < 10,
    ensures
        r@ == seq![spec_digit(d as int)],
{
    let r: &'static str = match d {
        0 => "0",
        1 => "1",
        2 => "2",
        3 => "3",
        4 => "4",
        5 => "5",
        6 => "6",
        7 => "7",
        8 => "8",
        _ => "9",
    };
    proof {
        reveal_strlit("0");
        reveal_strlit("1");
        reveal_strlit("2");
        reveal_strlit("3");
        reveal_strlit("4");
        reveal_strlit("5");
        reveal_strlit("6");
        reveal_strlit("7");
        reveal_strlit("8");
        reveal_strlit("9");
        assert(r@ =~= seq![spec_digit(d as int)]);
    }
    r
}

/// Renders `n` in decimal.
pub fn u64_to_string(n: u64) -> (r: String)
    ensures
        r@ == spec_dec(n as int),
    decreases n,
{
    if n < 10 {
        String::from_str(digit_str(n))
    } else {
        let mut r = u64_to_string(n / 10);
        r.append(digit_str(n % 10));
        proof {
            assert(r@ =~= spec_dec(n as int));
        }
        r
    }
}

/// Renders a value in hundredths with exactly two decimal digits.
pub fn centi_to_string(c: u64) -> (r: String)
    ensures
        r@ == spec_centi(c as int),
{
    let mut r = u64_to_string(c / 100);
    r.append(".");
    r.append(digit_str((c / 10) % 10));
    r.append(digit_str(c % 10));
    proof {
        reveal_strlit(".");
        assert(r@ =~= spec_centi(c as int));
    }
    r
}

/// Pads `s` on the right with spaces to at least `w` characters.
pub fn pad_right(s: String, w: usize) -> (r: String)
    ensures
        r@ == spec_pad_right(s@, w as int),
{
    let ghost s0 = s@;
    let mut r = s;
    let mut len = r.as_str().unicode_len();
    proof {
        assert(r@ =~= s0 + spec_spaces(0));
    }
    while len < w
        invariant
            len as int == r@.len(),
            s0.len() <= len,
            len <= w || len == s0.len(),
            r@ == s0 + spec_spaces(len - s0.len()),
        decreases w - len,
    {
        r.append(" ");
        proof {
            reveal_strlit(" ");
            assert(r@ =~= s0 + spec_spaces(len + 1 - s0.len()));
        }
        len = len + 1;
    }
    proof {
        if s0.len() >= w {
            assert(r@ =~= s0);
        }
    }
    r
}

} // verus!

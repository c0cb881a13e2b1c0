//! Decimal rendering of integers, as character sequences with exact
//! contracts.

use vstd::prelude::*;
use vstd::string::*;

verus! {

/// The ASCII digit for one value below ten.
pub open spec fn spec_digit_char(d: nat) -> char {
    if d == 0 {
        '0'
    } else if d == 1 {
        '1'
    } else if d == 2 {
        '2'
    } else if d == 3 {
        '3'
    } else if d == 4 {
        '4'
    } else if d == 5 {
        '5'
    } else if d == 6 {
        '6'
    } else if d == 7 {
        '7'
    } else if d == 8 {
        '8'
    } else {
        '9'
    }
}

/// The decimal digits of `n`, most significant first, with no leading zeros
/// (zero itself is the single digit `0`).
pub open spec fn spec_dec_digits(n: nat) -> Seq<char>
    decreases n,
{
    if n < 10 {
        seq![spec_digit_char(n)]
    } else {
        spec_dec_digits(n / 10).push(spec_digit_char(n % 10))
    }
}

/// The decimal rendering of a signed value: a minus sign before the digits
/// of its magnitude when it is negative.
pub open spec fn spec_dec_signed(v: int) -> Seq<char> {
    if v < 0 {
        seq!['-'] + spec_dec_digits((-v) as nat)
    } else {
        spec_dec_digits(v as nat)
    }
}

/// One decimal digit as a string slice.
fn digit_str(d: u32) -> (r: &'static str)
    requires
        d < 10,
    ensures
        r@ == seq![spec_digit_char(d as nat)],
{
    let r = match d {
        0 => "0",
        1 => "1",
        2 => "2",
        3 => "3",
        4 => "4",
        5 => "5",
        6 => "6",
        7 => "7",
        8 => "8",
        _ => "9",
    };
    proof {
        reveal_strlit("0");
        reveal_strlit("1");
        reveal_strlit("2");
        reveal_strlit("3");
        reveal_strlit("4");
        reveal_strlit("5");
        reveal_strlit("6");
        reveal_strlit("7");
        reveal_strlit("8");
        reveal_strlit("9");
        assert(r@ =~= seq![spec_digit_char(d as nat)]);
    }
    r
}

/// Renders an unsigned value in decimal.
pub fn u32_to_dec_string(v: u32) -> (s: String)
    ensures
        s@ == spec_dec_digits(v as nat),
    decreases v,
{
    if v < 10 {
        String::from_str(digit_str(v))
    } else {
        let mut s = u32_to_dec_string(v / 10);
        s.append(digit_str(v % 10));
        proof {
            assert(s@ =~= spec_dec_digits(v as nat));
        }
        s
    }
}

/// Renders a signed value in decimal.
pub fn i32_to_dec_string(v: i32) -> (s: String)
    ensures
        s@ == spec_dec_signed(v as int),
{
    if v < 0 {
        let magnitude: u32 = #[verifier::truncate] ((-(v as i64)) as u32);
        let mut s = String::from_str("-");
        let digits = u32_to_dec_string(magnitude);
        s.append(digits.as_str());
        proof {
            reveal_strlit("-");
            assert(s@ =~= spec_dec_signed(v as int));
        }
        s
    } else {
        let magnitude: u32 = #[verifier::truncate] (v as u32);
        u32_to_dec_string(magnitude)
    }
}

} // verus!

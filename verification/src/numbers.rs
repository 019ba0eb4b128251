//! Integer helpers: the threshold check and decimal rendering.

use vstd::prelude::*;
use vstd::string::StringExecFns;

verus! {

/// What `check_number` returns: values above ten are reduced by ten,
/// all other values pass through unchanged.
pub open spec fn spec_check_number(x: int) -> int {
    if x > 10 {
        x - 10
    } else {
        x
    }
}

/// Reduce a value above ten by ten; return any other value unchanged.
pub fn check_number(x: i32) -> (r: i32)
    ensures
        r as int == spec_check_number(x as int),
{
    if x > 10 {
        return x - 10;
    }
    x
}

/// The one-character rendering of a single decimal digit.
pub open spec fn spec_digit(d: nat) -> Seq<char> {
    if d == 0 {
        "0"@
    } else if d == 1 {
        "1"@
    } else if d == 2 {
        "2"@
    } else if d == 3 {
        "3"@
    } else if d == 4 {
        "4"@
    } else if d == 5 {
        "5"@
    } else if d == 6 {
        "6"@
    } else if d == 7 {
        "7"@
    } else if d == 8 {
        "8"@
    } else {
        "9"@
    }
}

fn digit_str(d: u32) -> (r: &'static str)
    requires
        d < 10,
    ensures
        r@ == spec_digit(d as nat),
{
    if d == 0 {
        "0"
    } else if d == 1 {
        "1"
    } else if d == 2 {
        "2"
    } else if d == 3 {
        "3"
    } else if d == 4 {
        "4"
    } else if d == 5 {
        "5"
    } else if d == 6 {
        "6"
    } else if d == 7 {
        "7"
    } else if d == 8 {
        "8"
    } else {
        "9"
    }
}

/// The usual decimal rendering of a non-negative integer: most
/// significant digit first, no leading zeros (zero itself is "0").
pub open spec fn spec_decimal(n: nat) -> Seq<char>
    decreases n,
{
    if n < 10 {
        spec_digit(n)
    } else {
        spec_decimal(n / 10) + spec_digit(n % 10)
    }
}

/// Render a `u32` in decimal.
pub fn u32_decimal(n: u32) -> (r: String)
    ensures
        r@ == spec_decimal(n as nat),
    decreases n,
{
    if n < 10 {
        String::from_str(digit_str(n))
    } else {
        let mut s = u32_decimal(n / 10);
        s.append(digit_str(n % 10));
        s
    }
}

/// The decimal rendering of a signed integer: a leading minus sign
/// for negative values, then the digits of the magnitude.
pub open spec fn spec_int_decimal(n: int) -> Seq<char> {
    if n < 0 {
        "-"@ + spec_decimal((-n) as nat)
    } else {
        spec_decimal(n as nat)
    }
}

/// Render an `i32` in decimal, sign included.
pub fn i32_decimal(n: i32) -> (r: String)
    ensures
        r@ == spec_int_decimal(n as int),
{
    if n >= 0 {
        u32_decimal(n as u32)
    } else {
        let wide: i64 = -(n as i64);
        let mag: u32 = wide as u32;
        let mut s = String::from_str("-");
        let digits = u32_decimal(mag);
        s.append(digits.as_str());
        s
    }
}

} // verus!

//! Small string helpers shared by the page builders and the route table.

use vstd::prelude::*;
use vstd::string::StringExecFns;

verus! {

/// Equality of two string slices, by their character sequences.
pub fn str_eq(a: &str, b: &str) -> (r: bool)
    ensures
        r == (a@ == b@),
{
    let owned_a: String = a.to_owned();
    let owned_b: String = b.to_owned();
    owned_a == owned_b
}

/// How a submitted checkbox value reads: checked exactly when the field
/// came in as "1", "on" or "true"; anything else, or no field at all,
/// means unchecked.
pub fn checkbox_value(s: &str) -> (r: bool)
    ensures
        r == (s@ == "1"@ || s@ == "on"@ || s@ == "true"@),
{
    str_eq(s, "1") || str_eq(s, "on") || str_eq(s, "true")
}

/// The character for one decimal digit.
pub open spec fn spec_decimal_digit(d: int) -> char
    recommends
        0 <= d < 10,
{
    ((d + 48) as u8) as char
}

/// The decimal digits of a non-negative integer, most significant first.
pub open spec fn spec_nat_decimal(n: int) -> Seq<char>
    recommends
        n >= 0,
    decreases n,
{
    if n < 10 {
        seq![spec_decimal_digit(n)]
    } else {
        spec_nat_decimal(n / 10).push(spec_decimal_digit(n % 10))
    }
}

/// The decimal rendering of a signed integer: a minus sign, if negative,
/// followed by the digits of its magnitude.
pub open spec fn spec_i64_decimal(i: int) -> Seq<char> {
    if i < 0 {
        seq!['-'] + spec_nat_decimal(-i)
    } else {
        spec_nat_decimal(i)
    }
}

/// Relies on std's `i64` formatting: the decimal digits of the value, with a
/// leading minus sign when it is negative.
#[verifier::external_body]
pub(crate) fn i64_to_string(i: i64) -> (r: String)
    ensures
        r@ == spec_i64_decimal(i as int),
{
    i.to_string()
}

} // verus!

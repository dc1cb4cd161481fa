//! Numbers of the language are IEEE 754 binary64 values, carried as their
//! 64-bit encodings. Equality, ordering, negation and the zero test are
//! defined here directly on the encoding; rounding arithmetic, reading a
//! decimal numeral and rendering a value are done by `rustc_apfloat`, which
//! works on the same encoding, behind trusted wrappers.

use vstd::prelude::*;

use rustc_apfloat::Float;

verus! {

/// The sign bit of the binary64 encoding.
pub const SIGN_MASK: u64 = 0x8000_0000_0000_0000;

/// The exponent field of the binary64 encoding.
pub const EXP_MASK: u64 = 0x7FF0_0000_0000_0000;

/// The fraction field of the binary64 encoding.
pub const FRAC_MASK: u64 = 0x000F_FFFF_FFFF_FFFF;

/// A NaN encoding: exponent field all ones, fraction field not zero.
pub open spec fn num_is_nan(b: u64) -> bool {
    b & EXP_MASK == EXP_MASK && b & FRAC_MASK != 0
}

/// A zero encoding, of either sign.
pub open spec fn num_is_zero(b: u64) -> bool {
    b & (EXP_MASK | FRAC_MASK) == 0
}

/// Whether the encoded value is negative (sign bit set).
pub open spec fn num_sign(b: u64) -> bool {
    b & SIGN_MASK != 0
}

/// IEEE 754 equality on binary64 encodings: NaN equals nothing, the two
/// zeroes are equal, and every other value is equal exactly to itself.
pub open spec fn num_eq(a: u64, b: u64) -> bool {
    &&& !num_is_nan(a)
    &&& !num_is_nan(b)
    &&& (a == b || (num_is_zero(a) && num_is_zero(b)))
}

/// IEEE 754 ordering on binary64 encodings: false when either side is NaN;
/// otherwise sign-magnitude comparison of the encodings, with the two
/// zeroes equal.
pub open spec fn num_lt(a: u64, b: u64) -> bool {
    &&& !num_is_nan(a)
    &&& !num_is_nan(b)
    &&& !(num_is_zero(a) && num_is_zero(b))
    &&& (if num_sign(a) != num_sign(b) {
        num_sign(a)
    } else if !num_sign(a) {
        a < b
    } else {
        b < a
    })
}

pub open spec fn num_le(a: u64, b: u64) -> bool {
    num_lt(a, b) || num_eq(a, b)
}

pub open spec fn num_gt(a: u64, b: u64) -> bool {
    num_lt(b, a)
}

pub open spec fn num_ge(a: u64, b: u64) -> bool {
    num_le(b, a)
}

/// IEEE 754 negation: the sign bit flips, and nothing else.
pub open spec fn num_neg(b: u64) -> u64 {
    b ^ SIGN_MASK
}

pub fn is_nan_bits(b: u64) -> (r: bool)
    ensures
        r == num_is_nan(b),
{
    b & EXP_MASK == EXP_MASK && b & FRAC_MASK != 0
}

pub fn is_zero_bits(b: u64) -> (r: bool)
    ensures
        r == num_is_zero(b),
{
    b & (EXP_MASK | FRAC_MASK) == 0
}

pub fn eq_bits(a: u64, b: u64) -> (r: bool)
    ensures
        r == num_eq(a, b),
{
    !is_nan_bits(a) && !is_nan_bits(b) && (a == b || (is_zero_bits(a) && is_zero_bits(b)))
}

pub fn lt_bits(a: u64, b: u64) -> (r: bool)
    ensures
        r == num_lt(a, b),
{
    if is_nan_bits(a) || is_nan_bits(b) {
        false
    } else if is_zero_bits(a) && is_zero_bits(b) {
        false
    } else {
        let sa: bool = a & SIGN_MASK != 0;
        let sb: bool = b & SIGN_MASK != 0;
        if sa != sb {
            sa
        } else if !sa {
            a < b
        } else {
            b < a
        }
    }
}

pub fn le_bits(a: u64, b: u64) -> (r: bool)
    ensures
        r == num_le(a, b),
{
    lt_bits(a, b) || eq_bits(a, b)
}

pub fn gt_bits(a: u64, b: u64) -> (r: bool)
    ensures
        r == num_gt(a, b),
{
    lt_bits(b, a)
}

pub fn ge_bits(a: u64, b: u64) -> (r: bool)
    ensures
        r == num_ge(a, b),
{
    le_bits(b, a)
}

pub fn neg_bits(b: u64) -> (r: u64)
    ensures
        r == num_neg(b),
{
    b ^ SIGN_MASK
}

/// The binary64 sum of two encoded values, rounded to nearest, ties to even.
pub uninterp spec fn num_add(a: u64, b: u64) -> u64;

/// The binary64 difference, rounded to nearest, ties to even.
pub uninterp spec fn num_sub(a: u64, b: u64) -> u64;

/// The binary64 product, rounded to nearest, ties to even.
pub uninterp spec fn num_mul(a: u64, b: u64) -> u64;

/// The binary64 quotient, rounded to nearest, ties to even.
pub uninterp spec fn num_div(a: u64, b: u64) -> u64;

/// The value a decimal numeral denotes, rounded to the nearest binary64
/// value, or None where the text is no numeral.
pub uninterp spec fn num_of_text(s: Seq<char>) -> Option<u64>;

/// The decimal rendering of an encoded binary64 value.
pub uninterp spec fn num_text(b: u64) -> Seq<char>;

/// Relies on rustc_apfloat's IEEE binary64 addition (round to nearest, ties
/// to even, as its `ops::Add` impl fixes): the sum depends on the operand
/// encodings alone.
#[verifier::external_body]
pub(crate) fn add_bits(a: u64, b: u64) -> (r: u64)
    ensures
        r == num_add(a, b),
{
    let x = rustc_apfloat::ieee::Double::from_bits(a as u128);
    let y = rustc_apfloat::ieee::Double::from_bits(b as u128);
    (x + y).value.to_bits() as u64
}

/// Relies on rustc_apfloat's IEEE binary64 subtraction (round to nearest,
/// ties to even): the difference depends on the operand encodings alone.
#[verifier::external_body]
pub(crate) fn sub_bits(a: u64, b: u64) -> (r: u64)
    ensures
        r == num_sub(a, b),
{
    let x = rustc_apfloat::ieee::Double::from_bits(a as u128);
    let y = rustc_apfloat::ieee::Double::from_bits(b as u128);
    (x - y).value.to_bits() as u64
}

/// Relies on rustc_apfloat's IEEE binary64 multiplication (round to nearest,
/// ties to even): the product depends on the operand encodings alone.
#[verifier::external_body]
pub(crate) fn mul_bits(a: u64, b: u64) -> (r: u64)
    ensures
        r == num_mul(a, b),
{
    let x = rustc_apfloat::ieee::Double::from_bits(a as u128);
    let y = rustc_apfloat::ieee::Double::from_bits(b as u128);
    (x * y).value.to_bits() as u64
}

/// Relies on rustc_apfloat's IEEE binary64 division (round to nearest, ties
/// to even; a finite value divided by zero gives an infinity, as IEEE 754
/// fixes): the quotient depends on the operand encodings alone.
#[verifier::external_body]
pub(crate) fn div_bits(a: u64, b: u64) -> (r: u64)
    ensures
        r == num_div(a, b),
{
    let x = rustc_apfloat::ieee::Double::from_bits(a as u128);
    let y = rustc_apfloat::ieee::Double::from_bits(b as u128);
    (x / y).value.to_bits() as u64
}

/// Relies on rustc_apfloat's decimal-to-binary64 conversion (its `FromStr`
/// impl, round to nearest, ties to even): the value read depends on the
/// text alone.
#[verifier::external_body]
pub(crate) fn parse_bits(s: &str) -> (r: Option<u64>)
    ensures
        r == num_of_text(s@),
{
    match s.parse::<rustc_apfloat::ieee::Double>() {
        Ok(d) => Some(d.to_bits() as u64),
        Err(_) => None,
    }
}

/// Relies on rustc_apfloat's decimal rendering of a binary64 value (its
/// `Display` impl), which depends on the encoding alone.
#[verifier::external_body]
pub(crate) fn num_to_text(b: u64) -> (r: String)
    ensures
        r@ == num_text(b),
{
    format!("{}", rustc_apfloat::ieee::Double::from_bits(b as u128))
}

} // verus!

use vstd::prelude::*;
use rustc_apfloat::Float;

verus! {

// Runtime numbers are IEEE-754 binary64 values, carried everywhere as their
// 64-bit representation. Comparisons and negation are pure bit logic and are
// implemented and verified here directly; rounding arithmetic, decimal
// parsing and decimal rendering go through rustc_apfloat behind trusted
// wrappers, each one named by an uninterpreted function of its inputs.

/// Mask of the sign bit of a binary64 representation.
pub const SIGN_MASK: u64 = 0x8000_0000_0000_0000;

/// Mask of everything but the sign bit.
pub const ABS_MASK: u64 = 0x7fff_ffff_ffff_ffff;

/// All exponent bits set, mantissa clear: the representation of +infinity.
pub const EXP_MASK: u64 = 0x7ff0_0000_0000_0000;

/// The representation with the sign bit cleared.
pub open spec fn f64_abs_bits(a: u64) -> u64 {
    a & ABS_MASK
}

/// A binary64 representation is a NaN when its exponent bits are all set
/// and its mantissa is not zero.
pub open spec fn f64_is_nan(a: u64) -> bool {
    f64_abs_bits(a) > EXP_MASK
}

/// Positive or negative zero.
pub open spec fn f64_is_zero(a: u64) -> bool {
    f64_abs_bits(a) == 0
}

/// A key that orders non-NaN binary64 representations exactly as IEEE-754
/// orders the numbers they stand for: negative values reversed below zero,
/// positive values above, and both zeros mapped to the same key.
pub open spec fn f64_key(a: u64) -> int {
    if a >= SIGN_MASK {
        SIGN_MASK - a
    } else {
        a as int
    }
}

/// IEEE-754 equality on representations: false if either side is NaN,
/// true for the pair of zeros, bit equality otherwise.
pub open spec fn f64_eq_bits(a: u64, b: u64) -> bool {
    &&& !f64_is_nan(a)
    &&& !f64_is_nan(b)
    &&& (a == b || (f64_is_zero(a) && f64_is_zero(b)))
}

/// IEEE-754 `<` on representations: false if either side is NaN.
pub open spec fn f64_lt_bits(a: u64, b: u64) -> bool {
    &&& !f64_is_nan(a)
    &&& !f64_is_nan(b)
    &&& f64_key(a) < f64_key(b)
}

/// IEEE-754 `<=` on representations: false if either side is NaN.
pub open spec fn f64_le_bits(a: u64, b: u64) -> bool {
    &&& !f64_is_nan(a)
    &&& !f64_is_nan(b)
    &&& f64_key(a) <= f64_key(b)
}

/// IEEE-754 `>` is `<` with the operands swapped.
pub open spec fn f64_gt_bits(a: u64, b: u64) -> bool {
    f64_lt_bits(b, a)
}

/// IEEE-754 `>=` is `<=` with the operands swapped.
pub open spec fn f64_ge_bits(a: u64, b: u64) -> bool {
    f64_le_bits(b, a)
}

/// IEEE-754 negation flips the sign bit and changes nothing else.
pub open spec fn f64_neg_bits(a: u64) -> u64 {
    a ^ SIGN_MASK
}

/// Equality of a representation with itself holds exactly when it is not
/// a NaN; distinct-variant coercion aside, this is the whole exception to
/// reflexivity of runtime equality.
pub proof fn lemma_f64_eq_reflexive(a: u64)
    ensures
        f64_eq_bits(a, a) <==> !f64_is_nan(a),
{
}

pub fn num_is_nan(a: u64) -> (r: bool)
    ensures
        r == f64_is_nan(a),
{
    (a & ABS_MASK) > EXP_MASK
}

pub fn num_eq(a: u64, b: u64) -> (r: bool)
    ensures
        r == f64_eq_bits(a, b),
{
    if num_is_nan(a) || num_is_nan(b) {
        false
    } else {
        a == b || ((a & ABS_MASK) == 0 && (b & ABS_MASK) == 0)
    }
}

pub fn num_lt(a: u64, b: u64) -> (r: bool)
    ensures
        r == f64_lt_bits(a, b),
{
    if num_is_nan(a) || num_is_nan(b) {
        false
    } else {
        let a_neg = a >= SIGN_MASK;
        let b_neg = b >= SIGN_MASK;
        if a_neg {
            if b_neg {
                b < a
            } else {
                // a is at or below -0, b at or above +0; only the two zeros tie.
                !(a == SIGN_MASK && b == 0)
            }
        } else {
            if b_neg {
                false
            } else {
                a < b
            }
        }
    }
}

pub fn num_le(a: u64, b: u64) -> (r: bool)
    ensures
        r == f64_le_bits(a, b),
{
    if num_is_nan(a) || num_is_nan(b) {
        false
    } else {
        let a_neg = a >= SIGN_MASK;
        let b_neg = b >= SIGN_MASK;
        if a_neg {
            if b_neg {
                b <= a
            } else {
                true
            }
        } else {
            if b_neg {
                a == 0 && b == SIGN_MASK
            } else {
                a <= b
            }
        }
    }
}

pub fn num_neg(a: u64) -> (r: u64)
    ensures
        r == f64_neg_bits(a),
{
    a ^ SIGN_MASK
}

/// The representation of the IEEE-754 sum of the numbers `a` and `b`
/// stand for, rounded to nearest, ties to even.
pub uninterp spec fn f64_add_bits(a: u64, b: u64) -> u64;

/// The representation of the IEEE-754 difference, rounded to nearest,
/// ties to even.
pub uninterp spec fn f64_sub_bits(a: u64, b: u64) -> u64;

/// The representation of the IEEE-754 product, rounded to nearest,
/// ties to even.
pub uninterp spec fn f64_mul_bits(a: u64, b: u64) -> u64;

/// The representation of the IEEE-754 quotient, rounded to nearest, ties
/// to even; a finite number divided by zero gives the signed infinity.
pub uninterp spec fn f64_div_bits(a: u64, b: u64) -> u64;

/// The binary64 representation that decimal text parses to, rounded to
/// nearest, ties to even.
pub uninterp spec fn f64_of_decimal(text: Seq<u8>) -> u64;

/// The shortest decimal rendering of a binary64 representation.
pub uninterp spec fn decimal_of_f64(a: u64) -> Seq<u8>;

/// Relies on rustc_apfloat::ieee::Double::add_r (via `+`): IEEE-754
/// binary64 addition, round to nearest, ties to even, a function of the
/// operand bits alone.
#[verifier::external_body]
pub(crate) fn num_add(a: u64, b: u64) -> (r: u64)
    ensures
        r == f64_add_bits(a, b),
{
    let x = rustc_apfloat::ieee::Double::from_bits(a as u128);
    let y = rustc_apfloat::ieee::Double::from_bits(b as u128);
    (x + y).value.to_bits() as u64
}

/// Relies on rustc_apfloat::ieee::Double::sub_r (via `-`): IEEE-754
/// binary64 subtraction, round to nearest, ties to even, a function of the
/// operand bits alone.
#[verifier::external_body]
pub(crate) fn num_sub(a: u64, b: u64) -> (r: u64)
    ensures
        r == f64_sub_bits(a, b),
{
    let x = rustc_apfloat::ieee::Double::from_bits(a as u128);
    let y = rustc_apfloat::ieee::Double::from_bits(b as u128);
    (x - y).value.to_bits() as u64
}

/// Relies on rustc_apfloat::ieee::Double::mul_r (via `*`): IEEE-754
/// binary64 multiplication, round to nearest, ties to even, a function of
/// the operand bits alone.
#[verifier::external_body]
pub(crate) fn num_mul(a: u64, b: u64) -> (r: u64)
    ensures
        r == f64_mul_bits(a, b),
{
    let x = rustc_apfloat::ieee::Double::from_bits(a as u128);
    let y = rustc_apfloat::ieee::Double::from_bits(b as u128);
    (x * y).value.to_bits() as u64
}

/// Relies on rustc_apfloat::ieee::Double::div_r (via `/`): IEEE-754
/// binary64 division, round to nearest, ties to even, a function of the
/// operand bits alone. Division by zero is well defined and gives an
/// infinity or a NaN, never a failure.
#[verifier::external_body]
pub(crate) fn num_div(a: u64, b: u64) -> (r: u64)
    ensures
        r == f64_div_bits(a, b),
{
    let x = rustc_apfloat::ieee::Double::from_bits(a as u128);
    let y = rustc_apfloat::ieee::Double::from_bits(b as u128);
    (x / y).value.to_bits() as u64
}

/// Relies on rustc_apfloat::ieee::Double::from_str: correctly rounded
/// decimal-to-binary64 conversion, a function of the text alone. Text that
/// is not valid UTF-8 or not a valid decimal number maps to the zero
/// representation; the lexer only ever hands over digits and one dot.
#[verifier::external_body]
pub(crate) fn num_parse(text: &[u8]) -> (r: u64)
    ensures
        r == f64_of_decimal(text@),
{
    match core::str::from_utf8(text) {
        Ok(s) => match s.parse::<rustc_apfloat::ieee::Double>() {
            Ok(v) => v.to_bits() as u64,
            Err(_) => 0,
        },
        Err(_) => 0,
    }
}

/// Relies on rustc_apfloat::ieee::Double's Display implementation: a
/// decimal rendering of the value, a function of the bits alone.
#[verifier::external_body]
pub(crate) fn num_render(a: u64) -> (r: Vec<u8>)
    ensures
        r@ == decimal_of_f64(a),
{
    let v = rustc_apfloat::ieee::Double::from_bits(a as u128);
    format!("{v}").into_bytes()
}

} // verus!

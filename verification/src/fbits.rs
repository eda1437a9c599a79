//! IEEE-754 double-precision values, carried as their 64-bit patterns.
//!
//! The comparison predicates below restate the IEEE-754 ordering of doubles
//! in terms of the bit pattern alone: a NaN compares with nothing, `+0` and
//! `-0` are equal, and otherwise values order by sign and magnitude. The
//! arithmetic needed by the distance metric (subtract, square, add, square
//! root) is done by an outside soft-float library behind trusted wrappers;
//! each operation's result is named by an uninterpreted function of the
//! operand patterns, which is sound because IEEE-754 arithmetic is a pure
//! function of its operands.

use vstd::prelude::*;
use const_soft_float::soft_f64::SoftF64;
use rustc_apfloat::Float;

verus! {

/// The bit pattern with the sign bit cleared.
pub open spec fn magnitude_bits(b: u64) -> u64 {
    b & 0x7fff_ffff_ffff_ffffu64
}

/// Whether the sign bit is set (the value is negative or `-0`).
pub open spec fn sign_bits(b: u64) -> bool {
    b & 0x8000_0000_0000_0000u64 != 0
}

/// The pattern with the sign bit flipped (IEEE-754 negation).
pub open spec fn flip_sign_bits(b: u64) -> u64 {
    b ^ 0x8000_0000_0000_0000u64
}

/// Whether the pattern encodes a NaN (exponent all ones, mantissa non-zero).
pub open spec fn is_nan_bits(b: u64) -> bool {
    magnitude_bits(b) > 0x7ff0_0000_0000_0000u64
}

/// Whether the pattern encodes a finite number (exponent not all ones).
pub open spec fn is_finite_bits(b: u64) -> bool {
    magnitude_bits(b) < 0x7ff0_0000_0000_0000u64
}

/// Whether the pattern encodes a zero (`+0` or `-0`).
pub open spec fn is_zero_bits(b: u64) -> bool {
    magnitude_bits(b) == 0
}

/// IEEE-754 `<` on double bit patterns: false whenever either side is a NaN,
/// `+0` and `-0` are equal, and otherwise values order by sign and magnitude.
pub open spec fn f64_lt(a: u64, b: u64) -> bool {
    if is_nan_bits(a) || is_nan_bits(b) {
        false
    } else if sign_bits(a) && !sign_bits(b) {
        !(is_zero_bits(a) && is_zero_bits(b))
    } else if !sign_bits(a) && sign_bits(b) {
        false
    } else if !sign_bits(a) {
        magnitude_bits(a) < magnitude_bits(b)
    } else {
        magnitude_bits(b) < magnitude_bits(a)
    }
}

/// Decides `f64_lt` on two bit patterns.
pub fn lt_bits(a: u64, b: u64) -> (r: bool)
    ensures
        r == f64_lt(a, b),
{
    let ma: u64 = a & 0x7fff_ffff_ffff_ffff;
    let mb: u64 = b & 0x7fff_ffff_ffff_ffff;
    if ma > 0x7ff0_0000_0000_0000 || mb > 0x7ff0_0000_0000_0000 {
        return false;
    }
    let sa: bool = a & 0x8000_0000_0000_0000 != 0;
    let sb: bool = b & 0x8000_0000_0000_0000 != 0;
    if sa && !sb {
        !(ma == 0 && mb == 0)
    } else if !sa && sb {
        false
    } else if !sa {
        ma < mb
    } else {
        mb < ma
    }
}

/// The bit pattern of the IEEE-754 double difference `a - b`.
pub uninterp spec fn sub_bits(a: u64, b: u64) -> u64;

/// The bit pattern of the IEEE-754 double square `a * a`.
pub uninterp spec fn square_bits(a: u64) -> u64;

/// The bit pattern of the IEEE-754 double sum `a + b`.
pub uninterp spec fn add_bits(a: u64, b: u64) -> u64;

/// The bit pattern of the IEEE-754 double square root of `a`.
pub uninterp spec fn sqrt_bits(a: u64) -> u64;

/// The bit pattern a string parses to as an IEEE-754 double (round to
/// nearest, ties to even), or nothing when the string is not a number.
pub uninterp spec fn parsed_f64(s: Seq<char>) -> Option<u64>;

/// Relies on `const_soft_float::soft_f64::SoftF64::sub`, a port of the
/// compiler-builtins IEEE-754 double subtraction. The result depends on the
/// two operand patterns alone. The stated facts are IEEE-754: subtracting
/// finite values never yields a NaN; `x - x` is `+0` for finite `x`; and for
/// distinct non-NaN operands the difference is non-NaN and swapping the
/// operands flips its sign.
#[verifier::external_body]
pub(crate) fn f64_sub(a: u64, b: u64) -> (r: u64)
    ensures
        r == sub_bits(a, b),
        is_finite_bits(a) && is_finite_bits(b) ==> !is_nan_bits(r),
        is_finite_bits(a) && is_finite_bits(b) && a == b ==> r == 0,
        !is_nan_bits(a) && !is_nan_bits(b) && a != b ==> !is_nan_bits(r) && sub_bits(b, a)
            == flip_sign_bits(r),
{
    SoftF64::from_bits(a).sub(SoftF64::from_bits(b)).to_bits()
}

/// Relies on `const_soft_float::soft_f64::SoftF64::mul`, a port of the
/// compiler-builtins IEEE-754 double multiplication, applied to equal
/// operands. The stated facts are IEEE-754: a product's sign is the
/// exclusive-or of the operand signs and its magnitude ignores them, so a
/// square of a non-NaN value is non-NaN, non-negative and unchanged by
/// negating the operand; the square of a zero is `+0`.
#[verifier::external_body]
pub(crate) fn f64_square(a: u64) -> (r: u64)
    ensures
        r == square_bits(a),
        !is_nan_bits(a) ==> !is_nan_bits(r) && !sign_bits(r) && r == square_bits(
            flip_sign_bits(a),
        ),
        a == 0 ==> r == 0,
{
    let v = SoftF64::from_bits(a);
    v.mul(v).to_bits()
}

/// Relies on `const_soft_float::soft_f64::SoftF64::add`, a port of the
/// compiler-builtins IEEE-754 double addition. The stated facts are IEEE-754:
/// a sum of non-negative non-NaN values is non-negative and non-NaN, and
/// `+0 + +0` is `+0`.
#[verifier::external_body]
pub(crate) fn f64_add(a: u64, b: u64) -> (r: u64)
    ensures
        r == add_bits(a, b),
        !is_nan_bits(a) && !is_nan_bits(b) && !sign_bits(a) && !sign_bits(b) ==> !is_nan_bits(r)
            && !sign_bits(r),
        a == 0 && b == 0 ==> r == 0,
{
    SoftF64::from_bits(a).add(SoftF64::from_bits(b)).to_bits()
}

/// Relies on `const_soft_float::soft_f64::SoftF64::sqrt`, the correctly
/// rounded IEEE-754 double square root (from FreeBSD's msun). The stated
/// facts are IEEE-754: the square root of a non-negative non-NaN value is
/// non-negative and non-NaN, and the square root of `+0` is `+0`.
#[verifier::external_body]
pub(crate) fn f64_sqrt(a: u64) -> (r: u64)
    ensures
        r == sqrt_bits(a),
        !is_nan_bits(a) && !sign_bits(a) ==> !is_nan_bits(r) && !sign_bits(r),
        a == 0 ==> r == 0,
{
    SoftF64::from_bits(a).sqrt().to_bits()
}

/// Relies on `rustc_apfloat::ieee::Double`'s `FromStr`, which parses a
/// floating-point literal with round-to-nearest-ties-to-even. The outcome
/// depends on the characters alone, and malformed strings (among them the
/// empty string) yield an error rather than a panic.
#[verifier::external_body]
pub(crate) fn parse_f64(s: &str) -> (r: Result<u64, String>)
    ensures
        r is Ok <==> parsed_f64(s@) is Some,
        r is Ok ==> r->Ok_0 == parsed_f64(s@)->Some_0,
{
    match s.parse::<rustc_apfloat::ieee::Double>() {
        Ok(v) => Ok(v.to_bits() as u64),
        Err(e) => Err(e.0.to_string()),
    }
}

} // verus!

use vstd::prelude::*;

verus! {

/// Complex numbers from the `num` crate are the numeric primitive of this
/// library. Their floating-point components stay opaque to verification:
/// every arithmetic step on them goes through one of the trusted wrappers
/// below, and all decisions the library proves anything about are made on
/// the plain values (booleans, indices) that those wrappers hand back.
#[verifier::external_type_specification]
#[verifier::external_body]
#[verifier::reject_recursive_types(T)]
pub struct ExComplex<T>(num::complex::Complex<T>);

/// Relies on `num::Zero::zero` for `Complex`: the additive identity `0+0i`.
#[verifier::external_body]
pub(crate) fn c_zero() -> num::complex::Complex32 {
    <num::complex::Complex32 as num::Zero>::zero()
}

/// Relies on `num::One::one` for `Complex`: the multiplicative identity `1+0i`.
#[verifier::external_body]
pub(crate) fn c_one() -> num::complex::Complex32 {
    <num::complex::Complex32 as num::One>::one()
}

/// Relies on the `Copy` impl of `num::complex::Complex`: copying returns
/// the same value.
#[verifier::external_body]
pub(crate) fn c_dup(a: &num::complex::Complex32) -> (r: num::complex::Complex32)
    ensures
        r == *a,
{
    *a
}

/// Relies on the `Neg` impl of `num::complex::Complex`: componentwise negation.
#[verifier::external_body]
pub(crate) fn c_neg(a: &num::complex::Complex32) -> num::complex::Complex32 {
    -*a
}

/// Relies on the `Add` impl of `num::complex::Complex`: componentwise sum.
#[verifier::external_body]
pub(crate) fn c_add(
    a: &num::complex::Complex32,
    b: &num::complex::Complex32,
) -> num::complex::Complex32 {
    *a + *b
}

/// Relies on the `Sub` impl of `num::complex::Complex`: componentwise difference.
#[verifier::external_body]
pub(crate) fn c_sub(
    a: &num::complex::Complex32,
    b: &num::complex::Complex32,
) -> num::complex::Complex32 {
    *a - *b
}

/// Relies on the `Mul` impl of `num::complex::Complex`: the complex product.
#[verifier::external_body]
pub(crate) fn c_mul(
    a: &num::complex::Complex32,
    b: &num::complex::Complex32,
) -> num::complex::Complex32 {
    *a * *b
}

/// Relies on the `Div` impl of `num::complex::Complex`: the complex quotient
/// `(a*conj(b)) / |b|^2`. A zero divisor yields non-finite components, never
/// a panic.
#[verifier::external_body]
pub(crate) fn c_div(
    a: &num::complex::Complex32,
    b: &num::complex::Complex32,
) -> num::complex::Complex32 {
    *a / *b
}

/// Relies on `num::complex::Complex::powu`: the integer power of a complex
/// number, computed by repeated squaring.
#[verifier::external_body]
pub(crate) fn c_powu(a: &num::complex::Complex32, exp: u32) -> num::complex::Complex32 {
    a.powu(exp)
}

/// Relies on the `PartialEq` impl of `num::complex::Complex`: exact
/// componentwise floating-point equality, deliberately not within-epsilon.
#[verifier::external_body]
pub(crate) fn c_eq(a: &num::complex::Complex32, b: &num::complex::Complex32) -> bool {
    *a == *b
}

/// Relies on `num::complex::Complex::is_nan`: true when either component
/// is a floating-point NaN.
#[verifier::external_body]
pub(crate) fn c_is_nan(a: &num::complex::Complex32) -> bool {
    a.is_nan()
}

/// Relies on the `Sub` impl and `num::complex::Complex::norm` (the Euclidean
/// magnitude, computed by `hypot`) together with the strict floating-point
/// `<`: true exactly when `c` is strictly closer to `a` than to `b`. On equal
/// distances, and whenever a NaN is involved, the strict comparison is false.
#[verifier::external_body]
pub(crate) fn dist_lt(
    c: &num::complex::Complex32,
    a: &num::complex::Complex32,
    b: &num::complex::Complex32,
) -> bool {
    (*c - *a).norm() < (*c - *b).norm()
}

/// Relies on `num::NumCast::from` (the exact integer-to-float cast, total on
/// `i32`) and `num::complex::Complex::unscale` (componentwise division by a
/// scalar): the plane sample `(dx/ppu) + (dy/ppu)i` for a pixel offset
/// `(dx, dy)` at `ppu` pixels per unit length.
#[verifier::external_body]
pub(crate) fn sample_point(dx: i32, dy: i32, ppu: i32) -> num::complex::Complex32 {
    let p: num::complex::Complex32 =
        num::complex::Complex32::new(num::NumCast::from(dx).unwrap(), num::NumCast::from(dy).unwrap());
    p.unscale(num::NumCast::from(ppu).unwrap())
}

/// Relies on `num::NumCast::from` (the exact integer-to-float cast, total on
/// `u32`) and `num::Zero::zero`: the complex number `k + 0i`.
#[verifier::external_body]
pub(crate) fn c_from_u32(k: u32) -> num::complex::Complex32 {
    num::complex::Complex32::new(num::NumCast::from(k).unwrap(), num::Zero::zero())
}

} // verus!

//! Real scalars held as IEEE-754 double bit patterns.
//!
//! Flip angles, phases, time intervals and relaxation constants enter the
//! library as the bit patterns of doubles. The transcendental functions the
//! rotation matrix and the decay factors need are delegated to `libm`
//! behind trusted wrappers; division, which prepares `-dt / t` arguments,
//! is the primitive `f64` division. Each wrapper's result is referred to
//! by an uninterpreted name: the same bits always give the same bits.

use vstd::prelude::*;

verus! {

/// Bit pattern of `core::f64::consts::PI`.
pub const PI_BITS: u64 = 0x4009_21FB_5444_2D18;

/// Bit pattern of `PI / 2.0` (the halving is exact).
pub const HALF_PI_BITS: u64 = 0x3FF9_21FB_5444_2D18;

/// Bit pattern of `2.0 * PI` (the doubling is exact).
pub const TAU_BITS: u64 = 0x4019_21FB_5444_2D18;

/// Bit pattern of `2.0_f64`.
pub const TWO_BITS: u64 = 0x4000_0000_0000_0000;

/// Whether the bit pattern encodes a strictly positive double, i.e. a
/// positive subnormal, normal or infinity — not a zero, not a NaN, not a
/// negative. Positive doubles are exactly the patterns between `1` and the
/// pattern of `+inf`, `0x7FF0_0000_0000_0000`.
pub open spec fn spec_is_positive_real(bits: u64) -> bool {
    0 < bits <= 0x7FF0_0000_0000_0000
}

/// Tests whether the bit pattern encodes a strictly positive double.
pub fn is_positive_real(bits: u64) -> (r: bool)
    ensures
        r == spec_is_positive_real(bits),
{
    0 < bits && bits <= 0x7FF0_0000_0000_0000
}

/// What the sine returns on the given operand.
pub uninterp spec fn sin_of(x: u64) -> u64;

/// What the cosine returns on the given operand.
pub uninterp spec fn cos_of(x: u64) -> u64;

/// What the real exponential returns on the given operand.
pub uninterp spec fn rexp_of(x: u64) -> u64;

/// What real multiplication returns on the given operands.
pub uninterp spec fn rmul_of(a: u64, b: u64) -> u64;

/// What real division returns on the given operands.
pub uninterp spec fn rdiv_of(a: u64, b: u64) -> u64;

/// What conversion of a 32-bit unsigned integer to a double returns; the
/// conversion is exact, every `u32` being far below `2^53`.
pub uninterp spec fn real_of_u32(k: u32) -> u64;

/// Relies on `libm::sin`: the sine of the operand, a function of its bits
/// alone.
#[verifier::external_body]
pub fn r_sin(x: u64) -> (r: u64)
    ensures
        r == sin_of(x),
{
    bytemuck::cast(libm::sin(bytemuck::cast(x)))
}

/// Relies on `libm::cos`: the cosine of the operand, a function of its
/// bits alone.
#[verifier::external_body]
pub fn r_cos(x: u64) -> (r: u64)
    ensures
        r == cos_of(x),
{
    bytemuck::cast(libm::cos(bytemuck::cast(x)))
}

/// Relies on `libm::exp`: the exponential of the operand, a function of
/// its bits alone.
#[verifier::external_body]
pub fn r_exp(x: u64) -> (r: u64)
    ensures
        r == rexp_of(x),
{
    bytemuck::cast(libm::exp(bytemuck::cast(x)))
}

/// Relies on primitive `f64` multiplication; `num_complex::Complex64::new`
/// only carries the two operands to give them their floating type.
#[verifier::external_body]
pub fn r_mul(a: u64, b: u64) -> (r: u64)
    ensures
        r == rmul_of(a, b),
{
    let x = num_complex::Complex64::new(bytemuck::cast(a), bytemuck::cast(b));
    bytemuck::cast(x.re * x.im)
}

/// Relies on primitive `f64` division; `num_complex::Complex64::new` only
/// carries the two operands to give them their floating type.
#[verifier::external_body]
pub fn r_div(a: u64, b: u64) -> (r: u64)
    ensures
        r == rdiv_of(a, b),
{
    let x = num_complex::Complex64::new(bytemuck::cast(a), bytemuck::cast(b));
    bytemuck::cast(x.re / x.im)
}

/// Relies on the primitive conversion of `u32` to `f64` (exact for every
/// `u32`); `num_complex::Complex64::new` only receives the converted value
/// to give it its floating type.
#[verifier::external_body]
pub fn r_of_u32(k: u32) -> (r: u64)
    ensures
        r == real_of_u32(k),
{
    bytemuck::cast(num_complex::Complex64::new(k.into(), k.into()).re)
}

} // verus!

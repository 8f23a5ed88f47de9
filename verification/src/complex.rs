//! Complex scalars held as IEEE-754 double bit patterns.
//!
//! A [`Cpx`] stores the bit patterns of the real and imaginary parts of a
//! `num_complex::Complex64`. Keeping the bits rather than the doubles lets
//! the ladder bookkeeping be reasoned about exactly: equality is bit
//! equality, and conjugation — the one arithmetic operation the gradient
//! shift needs — is a sign-bit flip, implemented and verified here without
//! any trusted code. The remaining arithmetic (addition, subtraction,
//! multiplication) goes through trusted wrappers around `num_complex`,
//! whose results the contracts refer to by uninterpreted names.

use vstd::prelude::*;

verus! {

/// The sign bit of an IEEE-754 double.
pub const F64_SIGN_BIT: u64 = 0x8000_0000_0000_0000;

/// Bit pattern of `0.0_f64`.
pub const F64_ZERO: u64 = 0;

/// Bit pattern of `1.0_f64`.
pub const F64_ONE: u64 = 0x3FF0_0000_0000_0000;

/// A complex number, stored as the IEEE-754 bit patterns of its real and
/// imaginary parts.
#[derive(Clone, Copy, PartialEq, Eq, Structural, Debug)]
pub struct Cpx {
    /// Bit pattern of the real part.
    pub re: u64,
    /// Bit pattern of the imaginary part.
    pub im: u64,
}

/// The complex zero, `0 + 0i`.
pub open spec fn cpx_zero() -> Cpx {
    Cpx { re: F64_ZERO, im: F64_ZERO }
}

/// The complex one, `1 + 0i`.
pub open spec fn cpx_one() -> Cpx {
    Cpx { re: F64_ONE, im: F64_ZERO }
}

/// Negation of a double is exactly a flip of its sign bit.
pub open spec fn spec_flip_sign(bits: u64) -> u64 {
    bits ^ F64_SIGN_BIT
}

/// The complex conjugate: the imaginary part's sign bit flipped.
pub open spec fn spec_conj(c: Cpx) -> Cpx {
    Cpx { re: c.re, im: spec_flip_sign(c.im) }
}

/// Flipping a sign bit twice restores the original bit pattern.
pub proof fn lemma_flip_sign_involutive(bits: u64)
    ensures
        spec_flip_sign(spec_flip_sign(bits)) == bits,
{
    assert((bits ^ F64_SIGN_BIT) ^ F64_SIGN_BIT == bits) by (bit_vector);
}

/// Conjugating twice restores the original value.
pub proof fn lemma_conj_involutive(c: Cpx)
    ensures
        spec_conj(spec_conj(c)) == c,
{
    lemma_flip_sign_involutive(c.im);
}

impl Cpx {
    /// The complex zero, `0 + 0i`.
    pub fn zero() -> (r: Cpx)
        ensures
            r == cpx_zero(),
    {
        Cpx { re: F64_ZERO, im: F64_ZERO }
    }

    /// The complex one, `1 + 0i`.
    pub fn one() -> (r: Cpx)
        ensures
            r == cpx_one(),
    {
        Cpx { re: F64_ONE, im: F64_ZERO }
    }

    /// Builds a complex value from the bit patterns of its parts.
    pub fn new(re: u64, im: u64) -> (r: Cpx)
        ensures
            r == (Cpx { re, im }),
    {
        Cpx { re, im }
    }

    /// Lifts a real bit pattern to a complex value with zero imaginary part.
    pub fn from_real(re: u64) -> (r: Cpx)
        ensures
            r == (Cpx { re, im: F64_ZERO }),
    {
        Cpx { re, im: F64_ZERO }
    }

    /// The complex conjugate. Negating a double flips exactly its sign
    /// bit, so conjugation needs no floating-point arithmetic.
    pub fn conj(self) -> (r: Cpx)
        ensures
            r == spec_conj(self),
    {
        Cpx { re: self.re, im: self.im ^ F64_SIGN_BIT }
    }
}

/// Negation of a real bit pattern (used for `-dt` and `-phi`).
pub fn flip_sign(bits: u64) -> (r: u64)
    ensures
        r == spec_flip_sign(bits),
{
    bits ^ F64_SIGN_BIT
}

/// What complex addition returns on the given operands.
pub uninterp spec fn add_of(a: Cpx, b: Cpx) -> Cpx;

/// What complex subtraction returns on the given operands.
pub uninterp spec fn sub_of(a: Cpx, b: Cpx) -> Cpx;

/// What complex multiplication returns on the given operands.
pub uninterp spec fn mul_of(a: Cpx, b: Cpx) -> Cpx;

/// Relies on `num_complex`'s `Add` for `Complex64`: componentwise IEEE-754
/// addition of the operands, a function of their bits alone.
#[verifier::external_body]
pub fn cx_add(a: Cpx, b: Cpx) -> (r: Cpx)
    ensures
        r == add_of(a, b),
{
    let x = num_complex::Complex64::new(bytemuck::cast(a.re), bytemuck::cast(a.im));
    let y = num_complex::Complex64::new(bytemuck::cast(b.re), bytemuck::cast(b.im));
    let s = x + y;
    Cpx { re: bytemuck::cast(s.re), im: bytemuck::cast(s.im) }
}

/// Relies on `num_complex`'s `Sub` for `Complex64`: componentwise IEEE-754
/// subtraction of the operands, a function of their bits alone.
#[verifier::external_body]
pub fn cx_sub(a: Cpx, b: Cpx) -> (r: Cpx)
    ensures
        r == sub_of(a, b),
{
    let x = num_complex::Complex64::new(bytemuck::cast(a.re), bytemuck::cast(a.im));
    let y = num_complex::Complex64::new(bytemuck::cast(b.re), bytemuck::cast(b.im));
    let s = x - y;
    Cpx { re: bytemuck::cast(s.re), im: bytemuck::cast(s.im) }
}

/// Relies on `num_complex`'s `Mul` for `Complex64`: the IEEE-754 complex
/// product of the operands, a function of their bits alone.
#[verifier::external_body]
pub fn cx_mul(a: Cpx, b: Cpx) -> (r: Cpx)
    ensures
        r == mul_of(a, b),
{
    let x = num_complex::Complex64::new(bytemuck::cast(a.re), bytemuck::cast(a.im));
    let y = num_complex::Complex64::new(bytemuck::cast(b.re), bytemuck::cast(b.im));
    let s = x * y;
    Cpx { re: bytemuck::cast(s.re), im: bytemuck::cast(s.im) }
}

} // verus!

//! The RF rotation matrix.
//!
//! An RF pulse of flip angle `alpha` and phase `phi` acts on each
//! coherence order through a fixed 3×3 complex matrix in the half-angle
//! parameterization. The matrix is rebuilt per distinct `(alpha, phi)`
//! pair and consumed by the rotation operator; it is not part of the EPG
//! state.

use vstd::prelude::*;

use crate::complex::{cx_mul, mul_of, spec_flip_sign, Cpx, F64_ONE, F64_ZERO};
use crate::scalar::{cos_of, r_cos, r_div, r_mul, r_sin, rdiv_of, rmul_of, sin_of, TWO_BITS};

verus! {

/// Bit pattern of `-1.0_f64`.
pub const F64_NEG_ONE: u64 = 0xBFF0_0000_0000_0000;

/// Bit pattern of `0.5_f64`.
pub const F64_HALF: u64 = 0x3FE0_0000_0000_0000;

/// Bit pattern of `-0.5_f64`.
pub const F64_NEG_HALF: u64 = 0xBFE0_0000_0000_0000;

/// Bit pattern of `-0.0_f64`.
pub const F64_NEG_ZERO: u64 = 0x8000_0000_0000_0000;

/// Bit pattern of `-2.0_f64`.
pub const F64_NEG_TWO: u64 = 0xC000_0000_0000_0000;

/// A 3×3 complex rotation operator. Row `i`, column `j` is `rij`; the
/// matrix acts on the per-order column vector `(F_plus, F_minus, Z)`.
#[derive(Clone, Copy, PartialEq, Eq, Structural, Debug)]
pub struct RotMatrix {
    pub r00: Cpx,
    pub r01: Cpx,
    pub r02: Cpx,
    pub r10: Cpx,
    pub r11: Cpx,
    pub r12: Cpx,
    pub r20: Cpx,
    pub r21: Cpx,
    pub r22: Cpx,
}

/// The imaginary unit `i`.
pub open spec fn cpx_i() -> Cpx {
    Cpx { re: F64_ZERO, im: F64_ONE }
}

/// `-i`, with both components negated as complex negation does.
pub open spec fn cpx_neg_i() -> Cpx {
    Cpx { re: F64_NEG_ZERO, im: F64_NEG_ONE }
}

/// `i / 2`.
pub open spec fn cpx_i_half() -> Cpx {
    Cpx { re: F64_ZERO, im: F64_HALF }
}

/// `-i / 2`, with both components negated as complex negation does.
pub open spec fn cpx_neg_i_half() -> Cpx {
    Cpx { re: F64_NEG_ZERO, im: F64_NEG_HALF }
}

/// `e^{i phi}` by Euler's formula: `cos phi + i sin phi`. The complex
/// exponential of a purely imaginary operand is exactly this pair, since
/// `e^0 = 1` exactly.
pub open spec fn spec_eiphi(phi: u64) -> Cpx {
    Cpx { re: cos_of(phi), im: sin_of(phi) }
}

/// `e^{i phi}` as executable code.
pub fn eiphi(phi: u64) -> (r: Cpx)
    ensures
        r == spec_eiphi(phi),
{
    Cpx::new(r_cos(phi), r_sin(phi))
}

/// The rotation operator for flip angle `alpha` and RF phase `phi`, in
/// the half-angle parameterization:
///
/// ```text
/// |  cos²(a/2)            sin²(a/2)·e^{2iφ}    -i·e^{iφ}·sin a  |
/// |  sin²(a/2)·e^{-2iφ}   cos²(a/2)             i·e^{-iφ}·sin a |
/// | -i/2·e^{-iφ}·sin a    i/2·e^{iφ}·sin a      cos a           |
/// ```
///
/// Every entry is pinned down to the named results of the trusted sine,
/// cosine, product and quotient operations, composed in the same
/// association order the executable code uses.
pub open spec fn spec_gen_rotation_matrix(alpha: u64, phi: u64) -> RotMatrix {
    let sa = Cpx { re: sin_of(alpha), im: F64_ZERO };
    let ca = Cpx { re: cos_of(alpha), im: F64_ZERO };
    let half_alpha = rdiv_of(alpha, TWO_BITS);
    let ca2 = Cpx { re: cos_of(half_alpha), im: F64_ZERO };
    let sa2 = Cpx { re: sin_of(half_alpha), im: F64_ZERO };
    RotMatrix {
        r00: mul_of(ca2, ca2),
        r01: mul_of(mul_of(sa2, sa2), spec_eiphi(rmul_of(TWO_BITS, phi))),
        r02: mul_of(mul_of(cpx_neg_i(), spec_eiphi(phi)), sa),
        r10: mul_of(mul_of(spec_eiphi(rmul_of(F64_NEG_TWO, phi)), sa2), sa2),
        r11: mul_of(ca2, ca2),
        r12: mul_of(mul_of(cpx_i(), spec_eiphi(spec_flip_sign(phi))), sa),
        r20: mul_of(mul_of(cpx_neg_i_half(), spec_eiphi(spec_flip_sign(phi))), sa),
        r21: mul_of(mul_of(cpx_i_half(), spec_eiphi(phi)), sa),
        r22: ca,
    }
}

/// Builds the rotation operator for flip angle `alpha` and RF phase
/// `phi`, both given as the bit patterns of doubles in radians.
pub fn gen_rotation_matrix(alpha: u64, phi: u64) -> (m: RotMatrix)
    ensures
        m == spec_gen_rotation_matrix(alpha, phi),
{
    let sa = Cpx::from_real(r_sin(alpha));
    let ca = Cpx::from_real(r_cos(alpha));
    let half_alpha = r_div(alpha, TWO_BITS);
    let ca2 = Cpx::from_real(r_cos(half_alpha));
    let sa2 = Cpx::from_real(r_sin(half_alpha));

    let j = Cpx::new(F64_ZERO, F64_ONE);
    let neg_j = Cpx::new(F64_NEG_ZERO, F64_NEG_ONE);
    let j_half = Cpx::new(F64_ZERO, F64_HALF);
    let neg_j_half = Cpx::new(F64_NEG_ZERO, F64_NEG_HALF);

    let e_p = eiphi(phi);
    let e_n = eiphi(crate::complex::flip_sign(phi));
    let e_2p = eiphi(r_mul(TWO_BITS, phi));
    let e_2n = eiphi(r_mul(F64_NEG_TWO, phi));

    RotMatrix {
        r00: cx_mul(ca2, ca2),
        r01: cx_mul(cx_mul(sa2, sa2), e_2p),
        r02: cx_mul(cx_mul(neg_j, e_p), sa),
        r10: cx_mul(cx_mul(e_2n, sa2), sa2),
        r11: cx_mul(ca2, ca2),
        r12: cx_mul(cx_mul(j, e_n), sa),
        r20: cx_mul(cx_mul(neg_j_half, e_n), sa),
        r21: cx_mul(cx_mul(j_half, e_p), sa),
        r22: ca,
    }
}

} // verus!

//! Pulse-sequence drivers.
//!
//! Each driver composes the EPG operators into a named acquisition
//! protocol — free-induction decay, spin echo, fast spin echo, SPACE —
//! and returns the ordered signal trace, one complex sample per readout.
//! A driver validates its relaxation constants eagerly and fails with a
//! configuration error before touching any state.

use vstd::prelude::*;

use crate::complex::{spec_flip_sign, Cpx, F64_ZERO};
use crate::rotation::{spec_gen_rotation_matrix, RotMatrix};
use crate::scalar::{r_div, r_exp, rdiv_of, rexp_of, HALF_PI_BITS};
use crate::shift::spec_shift;
use crate::state::{spec_initial, spec_relax, spec_rotate, EpgView};

pub mod fid;
pub mod fse;
pub mod se;
pub mod space;

verus! {

/// A sequence driver together with its configuration.
pub enum SequenceSelection {
    FSE(fse::FseParams),
    SE(se::SeParams),
    FID(fid::FidParams),
    SPACE(space::SpaceParams),
}

/// A configuration rejected before any state mutation.
#[derive(Clone, Copy, PartialEq, Eq, Structural, Debug)]
pub enum SequenceError {
    /// `T1` does not encode a strictly positive double.
    NonPositiveT1,
    /// `T2` does not encode a strictly positive double.
    NonPositiveT2,
}

/// The decay factor `exp(-dt / t)`, lifted to a complex value with zero
/// imaginary part.
pub open spec fn spec_decay_factor(dt: u64, t: u64) -> Cpx {
    Cpx { re: rexp_of(rdiv_of(spec_flip_sign(dt), t)), im: F64_ZERO }
}

/// Computes the decay factor `exp(-dt / t)` from the bit patterns of the
/// interval `dt` and the relaxation constant `t`.
pub fn decay_factor(dt: u64, t: u64) -> (r: Cpx)
    ensures
        r == spec_decay_factor(dt, t),
{
    Cpx::from_real(r_exp(r_div(crate::complex::flip_sign(dt), t)))
}

/// A fresh ladder of capacity `k` after the canonical excitation pulse
/// (`alpha = π/2`, `phi = π/2`).
pub open spec fn spec_excited(k: nat) -> EpgView {
    spec_rotate(spec_initial(k), spec_gen_rotation_matrix(HALF_PI_BITS, HALF_PI_BITS))
}

/// The state after `n` echo-train periods, each: shift and relax over
/// half an echo spacing, refocus with `m`, shift and relax over the
/// other half.
pub open spec fn spec_echo_train_state(v0: EpgView, m: RotMatrix, e1: Cpx, e2: Cpx, n: nat) -> EpgView
    decreases n,
{
    if n == 0 {
        v0
    } else {
        let s = spec_echo_train_state(v0, m, e1, e2, (n - 1) as nat);
        spec_relax(spec_shift(spec_rotate(spec_relax(spec_shift(s, 1), e1, e2), m), 1), e1, e2)
    }
}

/// The signal trace of `n` echo-train periods: after each period, the
/// rephased transverse coefficient `F_plus[0]` is recorded.
pub open spec fn spec_echo_train_trace(v0: EpgView, m: RotMatrix, e1: Cpx, e2: Cpx, n: nat) -> Seq<
    Cpx,
>
    decreases n,
{
    if n == 0 {
        Seq::empty()
    } else {
        spec_echo_train_trace(v0, m, e1, e2, (n - 1) as nat).push(
            spec_echo_train_state(v0, m, e1, e2, n).f_p[0],
        )
    }
}

} // verus!

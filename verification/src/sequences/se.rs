//! Spin echo: excite, dephase and relax over half the echo time, refocus,
//! rephase and relax over the other half, then read the echo.

use vstd::prelude::*;

use crate::complex::Cpx;
use crate::rotation::{gen_rotation_matrix, spec_gen_rotation_matrix};
use crate::scalar::{is_positive_real, rdiv_of, spec_is_positive_real, TWO_BITS};
use crate::sequences::{
    decay_factor, spec_decay_factor, spec_echo_train_state, spec_echo_train_trace, spec_excited,
    SequenceError,
};
use crate::state::EpgState;

verus! {

/// Configuration of a spin-echo acquisition. The relaxation constants,
/// angles and echo time are bit patterns of doubles.
pub struct SeParams {
    /// Longitudinal relaxation constant `T1`.
    pub t1: u64,
    /// Transverse relaxation constant `T2`.
    pub t2: u64,
    /// Flip angle of the refocusing pulse, in radians.
    pub refocus_angle: u64,
    /// RF phase of the refocusing pulse, in radians.
    pub refocus_phase: u64,
    /// The echo time; dephasing and relaxation act over each half of it.
    pub echo_time: u64,
    /// Whether the caller wants a diagnostic trace; the driver itself
    /// never prints.
    pub debug_print: bool,
}

/// The trace a valid spin-echo configuration produces: one echo-train
/// period on a three-order ladder, one sample.
pub open spec fn spec_se_result(params: SeParams) -> Seq<Cpx> {
    let m = spec_gen_rotation_matrix(params.refocus_angle, params.refocus_phase);
    let dt = rdiv_of(params.echo_time, TWO_BITS);
    let e1 = spec_decay_factor(dt, params.t1);
    let e2 = spec_decay_factor(dt, params.t2);
    spec_echo_train_trace(spec_excited(3), m, e1, e2, 1)
}

/// Simulates a spin-echo acquisition and returns its signal trace of one
/// sample; a non-positive `T1` or `T2` is rejected before any state is
/// built.
pub fn simulate(params: SeParams) -> (r: Result<Vec<Cpx>, SequenceError>)
    ensures
        r is Ok <==> spec_is_positive_real(params.t1) && spec_is_positive_real(params.t2),
        r == Err::<Vec<Cpx>, SequenceError>(SequenceError::NonPositiveT1) <==> !spec_is_positive_real(params.t1),
        (r == Err::<Vec<Cpx>, SequenceError>(SequenceError::NonPositiveT2) <==> spec_is_positive_real(params.t1)
            && !spec_is_positive_real(params.t2)),
        r is Ok ==> r->Ok_0@ == spec_se_result(params) && r->Ok_0@.len() == 1,
{
    if !is_positive_real(params.t1) {
        return Err(SequenceError::NonPositiveT1);
    }
    if !is_positive_real(params.t2) {
        return Err(SequenceError::NonPositiveT2);
    }

    let mut epg = EpgState::new(3);
    let mut signal: Vec<Cpx> = Vec::with_capacity(1);

    let x180 = gen_rotation_matrix(params.refocus_angle, params.refocus_phase);

    let dt = crate::scalar::r_div(params.echo_time, TWO_BITS);
    let et1d = decay_factor(dt, params.t1);
    let et2d = decay_factor(dt, params.t2);

    epg.excite();
    let ghost v0 = epg@;

    epg.grelax(et1d, et2d, 1);
    epg.rotate(&x180);
    epg.grelax(et1d, et2d, 1);

    signal.push(epg.read());

    proof {
        assert(spec_echo_train_state(v0, x180, et1d, et2d, 0) == v0);
        assert(spec_echo_train_trace(v0, x180, et1d, et2d, 0) == Seq::<Cpx>::empty());
        assert(epg@ == spec_echo_train_state(v0, x180, et1d, et2d, 1));
        assert(signal@ =~= spec_echo_train_trace(v0, x180, et1d, et2d, 1));
    }
    Ok(signal)
}

} // verus!

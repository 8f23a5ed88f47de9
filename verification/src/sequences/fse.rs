//! Fast spin echo: an echo train of refocusing pulses at a configurable
//! flip angle, sampling one echo per period.

use vstd::prelude::*;

use crate::complex::Cpx;
use crate::rotation::{gen_rotation_matrix, spec_gen_rotation_matrix};
use crate::scalar::{is_positive_real, rdiv_of, spec_is_positive_real, TWO_BITS};
use crate::sequences::{
    decay_factor, spec_decay_factor, spec_echo_train_state, spec_echo_train_trace, spec_excited,
    SequenceError,
};
use crate::state::EpgState;

verus! {

/// Configuration of a fast-spin-echo acquisition. The relaxation
/// constants, angles and echo spacing are bit patterns of doubles.
pub struct FseParams {
    /// Echo-train length: the number of refocusing/readout periods.
    pub etl: usize,
    /// Longitudinal relaxation constant `T1`.
    pub t1: u64,
    /// Transverse relaxation constant `T2`.
    pub t2: u64,
    /// Echo spacing; dephasing and relaxation act over each half of it.
    pub esp: u64,
    /// Flip angle of the refocusing pulses, in radians.
    pub refocus_angle: u64,
    /// RF phase of the refocusing pulses, in radians.
    pub cpmg_phase: u64,
    /// Whether the caller wants a diagnostic trace; the driver itself
    /// never prints.
    pub debug_print: bool,
}

/// The trace a valid fast-spin-echo configuration produces: `etl`
/// echo-train periods on a ladder of `etl / 2 + 1` orders.
pub open spec fn spec_fse_result(params: FseParams) -> Seq<Cpx> {
    let m = spec_gen_rotation_matrix(params.refocus_angle, params.cpmg_phase);
    let dt = rdiv_of(params.esp, TWO_BITS);
    let e1 = spec_decay_factor(dt, params.t1);
    let e2 = spec_decay_factor(dt, params.t2);
    spec_echo_train_trace(spec_excited((params.etl / 2 + 1) as nat), m, e1, e2, params.etl as nat)
}

/// Simulates a fast-spin-echo acquisition and returns its signal trace,
/// one sample per echo; a non-positive `T1` or `T2` is rejected before
/// any state is built.
pub fn simulate(params: FseParams) -> (r: Result<Vec<Cpx>, SequenceError>)
    ensures
        r is Ok <==> spec_is_positive_real(params.t1) && spec_is_positive_real(params.t2),
        r == Err::<Vec<Cpx>, SequenceError>(SequenceError::NonPositiveT1) <==> !spec_is_positive_real(params.t1),
        (r == Err::<Vec<Cpx>, SequenceError>(SequenceError::NonPositiveT2) <==> spec_is_positive_real(params.t1)
            && !spec_is_positive_real(params.t2)),
        r is Ok ==> r->Ok_0@ == spec_fse_result(params) && r->Ok_0@.len() == params.etl,
{
    if !is_positive_real(params.t1) {
        return Err(SequenceError::NonPositiveT1);
    }
    if !is_positive_real(params.t2) {
        return Err(SequenceError::NonPositiveT2);
    }

    let etl = params.etl;
    let mut epg = EpgState::new(etl / 2 + 1);
    let mut signal: Vec<Cpx> = Vec::with_capacity(etl);

    let x180 = gen_rotation_matrix(params.refocus_angle, params.cpmg_phase);

    let dt = crate::scalar::r_div(params.esp, TWO_BITS);
    let et1d = decay_factor(dt, params.t1);
    let et2d = decay_factor(dt, params.t2);

    epg.excite();
    let ghost v0 = epg@;

    let mut i: usize = 0;
    while i < etl
        invariant
            epg.wf(),
            i <= etl,
            epg@ == spec_echo_train_state(v0, x180, et1d, et2d, i as nat),
            signal@ == spec_echo_train_trace(v0, x180, et1d, et2d, i as nat),
            signal@.len() == i,
        decreases etl - i,
    {
        epg.grelax(et1d, et2d, 1);
        epg.rotate(&x180);
        epg.grelax(et1d, et2d, 1);

        signal.push(epg.read());
        i += 1;
    }

    Ok(signal)
}

} // verus!

//! Free-induction decay: excite once, then read out repeatedly while the
//! signal relaxes, with no gradient twists.

use vstd::prelude::*;

use crate::complex::Cpx;
use crate::scalar::{is_positive_real, spec_is_positive_real};
use crate::sequences::{decay_factor, spec_decay_factor, spec_excited, SequenceError};
use crate::shift::spec_shift;
use crate::state::{spec_relax, EpgState, EpgView};

verus! {

/// Configuration of a free-induction decay acquisition. The relaxation
/// constants and the echo time are bit patterns of doubles in seconds.
pub struct FidParams {
    /// Number of readouts.
    pub nreads: usize,
    /// Longitudinal relaxation constant `T1`.
    pub t1: u64,
    /// Transverse relaxation constant `T2`.
    pub t2: u64,
    /// The interval between readouts.
    pub echo_time: u64,
    /// Whether the caller wants a diagnostic trace; the driver itself
    /// never prints.
    pub debug_print: bool,
}

/// The state after `n` readout periods, each a relaxation over one echo
/// time with no twist.
pub open spec fn spec_fid_state(v0: EpgView, e1: Cpx, e2: Cpx, n: nat) -> EpgView
    decreases n,
{
    if n == 0 {
        v0
    } else {
        spec_relax(spec_shift(spec_fid_state(v0, e1, e2, (n - 1) as nat), 0), e1, e2)
    }
}

/// The trace of `n` readouts: `F_plus[0]` after each period.
pub open spec fn spec_fid_trace(v0: EpgView, e1: Cpx, e2: Cpx, n: nat) -> Seq<Cpx>
    decreases n,
{
    if n == 0 {
        Seq::empty()
    } else {
        spec_fid_trace(v0, e1, e2, (n - 1) as nat).push(spec_fid_state(v0, e1, e2, n).f_p[0])
    }
}

/// The trace a valid free-induction decay configuration produces: the
/// ladder has one order more than there are readouts, is excited once,
/// and then relaxes between readouts.
pub open spec fn spec_fid_result(params: FidParams) -> Seq<Cpx> {
    let e1 = spec_decay_factor(params.echo_time, params.t1);
    let e2 = spec_decay_factor(params.echo_time, params.t2);
    spec_fid_trace(spec_excited((params.nreads + 1) as nat), e1, e2, params.nreads as nat)
}

/// Simulates a free-induction decay acquisition and returns its signal
/// trace, one sample per readout; a non-positive `T1` or `T2` is
/// rejected before any state is built.
pub fn simulate(params: FidParams) -> (r: Result<Vec<Cpx>, SequenceError>)
    requires
        params.nreads < usize::MAX,
    ensures
        r is Ok <==> spec_is_positive_real(params.t1) && spec_is_positive_real(params.t2),
        r == Err::<Vec<Cpx>, SequenceError>(SequenceError::NonPositiveT1) <==> !spec_is_positive_real(params.t1),
        (r == Err::<Vec<Cpx>, SequenceError>(SequenceError::NonPositiveT2) <==> spec_is_positive_real(params.t1)
            && !spec_is_positive_real(params.t2)),
        r is Ok ==> r->Ok_0@ == spec_fid_result(params) && r->Ok_0@.len() == params.nreads,
{
    if !is_positive_real(params.t1) {
        return Err(SequenceError::NonPositiveT1);
    }
    if !is_positive_real(params.t2) {
        return Err(SequenceError::NonPositiveT2);
    }

    let nreads = params.nreads;
    let mut epg = EpgState::new(nreads + 1);
    let mut signal: Vec<Cpx> = Vec::with_capacity(nreads);

    let et1d = decay_factor(params.echo_time, params.t1);
    let et2d = decay_factor(params.echo_time, params.t2);

    epg.excite();
    let ghost v0 = epg@;

    let mut i: usize = 0;
    while i < nreads
        invariant
            epg.wf(),
            i <= nreads,
            epg@ == spec_fid_state(v0, et1d, et2d, i as nat),
            signal@ == spec_fid_trace(v0, et1d, et2d, i as nat),
            signal@.len() == i,
        decreases nreads - i,
    {
        epg.grelax(et1d, et2d, 0);
        signal.push(epg.read());
        i += 1;
    }

    Ok(signal)
}

} // verus!

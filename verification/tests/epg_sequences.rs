//! Tests of the pulse-sequence drivers and the tissue table.

use epg::complex::Cpx;
use epg::sequences::fid::FidParams;
use epg::sequences::fse::FseParams;
use epg::sequences::se::SeParams;
use epg::sequences::space::SpaceParams;
use epg::sequences::{fid, fse, se, space, SequenceError};
use epg::tissues::get_tissue;
use epg::types::Tissue;

use std::f64::consts::PI;

fn re_of(x: Cpx) -> f64 {
    f64::from_bits(x.re)
}

fn im_of(x: Cpx) -> f64 {
    f64::from_bits(x.im)
}

fn norm(x: Cpx) -> f64 {
    re_of(x).hypot(im_of(x))
}

#[test]
fn test_fid_pure_t2_decay() {
    // With an effectively infinite T1 the free-induction decay signal is
    // a pure exponential in T2: the n-th readout is exp(-n·dt/T2).
    let params = FidParams {
        nreads: 3,
        t1: 1e9f64.to_bits(),
        t2: 0.1f64.to_bits(),
        echo_time: 0.2f64.to_bits(),
        debug_print: false,
    };
    let signal = fid::simulate(params).unwrap();
    assert_eq!(signal.len(), 3);
    for (n, s) in signal.iter().enumerate() {
        let expected = (-((n + 1) as f64) * 2.0).exp();
        assert!((re_of(*s) - expected).abs() <= 1e-7);
        assert!(im_of(*s).abs() <= 1e-7);
    }
}

#[test]
fn test_se_echo_amplitude() {
    // A π refocusing pulse recovers the dephased signal; what is left at
    // the echo is the T2 decay over the full echo time.
    let params = SeParams {
        t1: 0.5f64.to_bits(),
        t2: 0.1f64.to_bits(),
        refocus_angle: PI.to_bits(),
        refocus_phase: 0.0f64.to_bits(),
        echo_time: 0.02f64.to_bits(),
        debug_print: false,
    };
    let signal = se::simulate(params).unwrap();
    assert_eq!(signal.len(), 1);
    let expected = (-0.02f64 / 0.1).exp();
    assert!((re_of(signal[0]) - expected).abs() <= 1e-7);
    assert!(im_of(signal[0]).abs() <= 1e-7);
}

#[test]
fn test_fse_end_to_end() {
    // Twenty echoes under relaxation-dominant parameters: all finite and
    // bounded by the first echo, with the envelope decayed to well below
    // it over the second half of the train. (Under a 90° refocusing
    // train the stimulated-echo pathways make the decay oscillatory, so
    // the envelope is not non-increasing echo by echo: the tenth echo
    // already rises above the ninth.)
    let params = FseParams {
        etl: 20,
        esp: 0.01f64.to_bits(),
        t1: 0.58f64.to_bits(),
        t2: 0.11f64.to_bits(),
        refocus_angle: (PI / 2.0).to_bits(),
        cpmg_phase: (PI / 2.0).to_bits(),
        debug_print: false,
    };
    let signal = fse::simulate(params).unwrap();
    assert_eq!(signal.len(), 20);
    for s in signal.iter() {
        assert!(re_of(*s).is_finite());
        assert!(im_of(*s).is_finite());
    }
    let first = norm(signal[0]);
    for s in signal.iter() {
        assert!(norm(*s) <= first + 1e-12);
    }
    for s in signal.iter().skip(10) {
        assert!(norm(*s) <= first / 2.0);
    }
}

#[test]
fn test_space_matches_fse_settings() {
    // SPACE and FSE share the engine: on identical configurations the
    // traces agree bit for bit.
    let space_params = SpaceParams {
        etl: 12,
        esp: 0.01f64.to_bits(),
        t1: 0.58f64.to_bits(),
        t2: 0.11f64.to_bits(),
        refocus_angle: PI.to_bits(),
        cpmg_phase: (PI / 2.0).to_bits(),
        debug_print: false,
    };
    let fse_params = FseParams {
        etl: 12,
        esp: 0.01f64.to_bits(),
        t1: 0.58f64.to_bits(),
        t2: 0.11f64.to_bits(),
        refocus_angle: PI.to_bits(),
        cpmg_phase: (PI / 2.0).to_bits(),
        debug_print: false,
    };
    let a = space::simulate(space_params).unwrap();
    let b = fse::simulate(fse_params).unwrap();
    assert_eq!(a, b);
    assert_eq!(a.len(), 12);
}

#[test]
fn test_fid_no_readouts() {
    let params = FidParams {
        nreads: 0,
        t1: 1.0f64.to_bits(),
        t2: 0.1f64.to_bits(),
        echo_time: 0.2f64.to_bits(),
        debug_print: false,
    };
    let signal = fid::simulate(params).unwrap();
    assert!(signal.is_empty());
}

#[test]
fn test_rejects_non_positive_t1() {
    let params = FidParams {
        nreads: 2,
        t1: 0.0f64.to_bits(),
        t2: 0.1f64.to_bits(),
        echo_time: 0.2f64.to_bits(),
        debug_print: false,
    };
    assert_eq!(fid::simulate(params), Err(SequenceError::NonPositiveT1));

    let params = SeParams {
        t1: (-1.0f64).to_bits(),
        t2: 0.1f64.to_bits(),
        refocus_angle: PI.to_bits(),
        refocus_phase: 0.0f64.to_bits(),
        echo_time: 0.02f64.to_bits(),
        debug_print: false,
    };
    assert_eq!(se::simulate(params), Err(SequenceError::NonPositiveT1));

    let params = FseParams {
        etl: 4,
        esp: 0.01f64.to_bits(),
        t1: f64::NAN.to_bits(),
        t2: 0.11f64.to_bits(),
        refocus_angle: PI.to_bits(),
        cpmg_phase: (PI / 2.0).to_bits(),
        debug_print: false,
    };
    assert_eq!(fse::simulate(params), Err(SequenceError::NonPositiveT1));
}

#[test]
fn test_rejects_non_positive_t2() {
    let params = SpaceParams {
        etl: 4,
        esp: 0.01f64.to_bits(),
        t1: 0.58f64.to_bits(),
        t2: (-0.0f64).to_bits(),
        refocus_angle: PI.to_bits(),
        cpmg_phase: (PI / 2.0).to_bits(),
        debug_print: false,
    };
    assert_eq!(space::simulate(params), Err(SequenceError::NonPositiveT2));

    let params = FidParams {
        nreads: 2,
        t1: 0.5f64.to_bits(),
        t2: f64::NAN.to_bits(),
        echo_time: 0.2f64.to_bits(),
        debug_print: false,
    };
    assert_eq!(fid::simulate(params), Err(SequenceError::NonPositiveT2));
}

#[test]
fn test_tissue_table() {
    let wm = get_tissue(Tissue::WhiteMatter);
    assert_eq!(wm.name, "wm");
    assert_eq!(f32::from_bits(wm.pd), 0.69);
    assert_eq!(f32::from_bits(wm.t1), 0.505);
    assert_eq!(f32::from_bits(wm.t2), 0.089);
    assert_eq!(f32::from_bits(wm.t2s), 0.07);

    let gm = get_tissue(Tissue::GreyMatter);
    assert_eq!(gm.name, "gm");
    assert_eq!(f32::from_bits(gm.t1), 0.775);
    assert_eq!(f32::from_bits(gm.t2), 0.110);

    let caudate = get_tissue(Tissue::Caudate);
    assert_eq!(caudate.name, "caudate");
    assert_eq!(f32::from_bits(caudate.pd), 0.82);

    let thalamus = get_tissue(Tissue::Thalamus);
    assert_eq!(thalamus.name, "thalamus");
    assert_eq!(f32::from_bits(thalamus.t1), 0.730);

    let csf = get_tissue(Tissue::CerebroSpinalFluid);
    assert_eq!(csf.name, "csf");
    assert_eq!(f32::from_bits(csf.t1), 4.0);
    assert_eq!(f32::from_bits(csf.t2), 2.0);

    let blood = get_tissue(Tissue::Blood);
    assert_eq!(blood.name, "blood");
    assert_eq!(f32::from_bits(blood.t1), 1.12);
    assert_eq!(f32::from_bits(blood.t2s), 0.03);
}

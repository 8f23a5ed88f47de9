//! Tests of the EPG ladder and its operators: rotation, relaxation and
//! the gradient shift.

use epg::complex::Cpx;
use epg::rotation::gen_rotation_matrix;
use epg::state::{relaxation, rf_rotation, to_mxy, to_mz, EpgState};
use epg::shift::gradient_shift;

use std::f64::consts::PI;

fn c(re: f64, im: f64) -> Cpx {
    Cpx { re: re.to_bits(), im: im.to_bits() }
}

fn re_of(x: Cpx) -> f64 {
    f64::from_bits(x.re)
}

fn im_of(x: Cpx) -> f64 {
    f64::from_bits(x.im)
}

fn norm(x: Cpx) -> f64 {
    re_of(x).hypot(im_of(x))
}

fn conj(x: Cpx) -> Cpx {
    Cpx { re: x.re, im: x.im ^ 0x8000_0000_0000_0000 }
}

fn complex_close_l1(a: Cpx, b: Cpx, tolerance: f64) -> bool {
    (norm(a) - norm(b)).abs() <= tolerance
}

fn epg_close(epg1: &EpgState, epg2: &EpgState) {
    let tol = 1e-9;
    assert!(epg1
        .f_p
        .iter()
        .zip(epg2.f_p.iter())
        .all(|(p1, p2)| complex_close_l1(*p1, *p2, tol)));
    assert!(epg1
        .f_n
        .iter()
        .zip(epg2.f_n.iter())
        .all(|(p1, p2)| complex_close_l1(*p1, *p2, tol)));
    assert!(epg1
        .z
        .iter()
        .zip(epg2.z.iter())
        .all(|(p1, p2)| complex_close_l1(*p1, *p2, tol)));
}

#[test]
fn test_180_rotation() {
    let mut epg = EpgState::new(1);

    let r2 = gen_rotation_matrix(PI.to_bits(), 0.0f64.to_bits());

    rf_rotation(&mut epg, &r2);
    println!("{:?}", epg);

    let t1 = 1.0_f64;
    let t2 = 0.05_f64;
    let dt = 1e-3;

    let et1d = c((-dt / t1).exp(), 0.0);
    let et2d = c((-dt / t2).exp(), 0.0);

    relaxation(&mut epg, et1d, et2d);
}

#[test]
fn test_shift_symmetric() {
    let mut epg = EpgState::new(3);
    let mut epg2 = EpgState::new(3);

    let r2 = gen_rotation_matrix((PI / 4.0).to_bits(), 0.0f64.to_bits());

    rf_rotation(&mut epg, &r2);
    rf_rotation(&mut epg2, &r2);

    gradient_shift(&mut epg, 2);
    println!("{:?}", epg);
    gradient_shift(&mut epg, -2);
    println!("{:?}", epg);

    assert_eq!(&epg, &epg2);
}

#[test]
fn test_shift_conjs() {
    let mut epg = EpgState::new(3);
    let mut epg2 = EpgState::new(3);

    let r2 = gen_rotation_matrix((PI / 4.0).to_bits(), 0.0f64.to_bits());

    rf_rotation(&mut epg, &r2);
    rf_rotation(&mut epg2, &r2);

    gradient_shift(&mut epg, 1);
    println!("{:?}", epg);
    gradient_shift(&mut epg, -1);
    println!("{:?}", epg);

    assert_eq!(&epg, &epg2);
}

#[test]
fn test_flipback() {
    let mut epg = EpgState::new(3);
    let epg2 = EpgState::new(3);

    let r2 = gen_rotation_matrix((PI / 4.0).to_bits(), 0.0f64.to_bits());
    let rm2 = gen_rotation_matrix((-PI / 4.0).to_bits(), 0.0f64.to_bits());

    rf_rotation(&mut epg, &r2);
    rf_rotation(&mut epg, &rm2);

    println!("{:?}", epg);
    println!("{:?}", epg2);

    epg_close(&epg, &epg2);
}

#[test]
fn test_t2decay() {
    let mut epg = EpgState::new(3);

    epg.excite();

    // effectively infinite T1
    let t1 = 1e9_f64;
    let t2 = 0.10_f64;

    let dt = 0.2_f64;

    let et1d = c((-dt / t1).exp(), 0.0);
    let et2d = c((-dt / t2).exp(), 0.0);

    epg.delay(et1d, et2d);

    let signal = epg.read();

    let expected = et2d;
    println!("expected = {:?}", expected);
    println!("signal = {:?}", signal);
    assert!(complex_close_l1(expected, signal, 1e-7));
}

#[test]
fn test_conjugate_states() {
    // After a rotation from equilibrium, F_minus[k] must be the
    // conjugate of F_plus[k] at every order.
    let mut epg = EpgState::new(16);

    let ex_45_30 = gen_rotation_matrix((PI / 4.0).to_bits(), (PI / 6.0).to_bits());

    epg.rotate(&ex_45_30);

    let test_f_conj = epg
        .f_n
        .iter()
        .zip(epg.f_p.iter())
        .all(|(&a, &b)| complex_close_l1(a, conj(b), 1e-7));

    assert!(test_f_conj);
}

#[test]
fn test_gen_matrix_1() {
    let t_y_90 = gen_rotation_matrix((PI / 2.0).to_bits(), (PI / 2.0).to_bits());

    let expected = [
        [c(0.5, 0.0), c(-0.5, 0.0), c(1.0, 0.0)],
        [c(-0.5, 0.0), c(0.5, 0.0), c(1.0, 0.0)],
        [c(-0.5, 0.0), c(-0.5, 0.0), c(0.0, 0.0)],
    ];
    let got = [
        [t_y_90.r00, t_y_90.r01, t_y_90.r02],
        [t_y_90.r10, t_y_90.r11, t_y_90.r12],
        [t_y_90.r20, t_y_90.r21, t_y_90.r22],
    ];

    for i in 0..3 {
        for j in 0..3 {
            let d_re = re_of(got[i][j]) - re_of(expected[i][j]);
            let d_im = im_of(got[i][j]) - im_of(expected[i][j]);
            assert!(d_re.hypot(d_im) <= 1e-8);
        }
    }
}

#[test]
fn vec_test_180_rotation() {
    let mut epg = EpgState::new(1);

    let r2 = gen_rotation_matrix(PI.to_bits(), 0.0f64.to_bits());

    rf_rotation(&mut epg, &r2);
    println!("{:?}", epg);

    let dt = 100e-3;
    let et1d = c((-dt / 1.0f64).exp(), 0.0);
    let et2d = c((-dt / 0.1f64).exp(), 0.0);
    relaxation(&mut epg, et1d, et2d);
}

#[test]
fn vec_test_shift_symmetric() {
    let mut epg = EpgState::new(3);
    let mut epg2 = EpgState::new(3);

    let r2 = gen_rotation_matrix((PI / 4.0).to_bits(), 0.0f64.to_bits());

    rf_rotation(&mut epg, &r2);
    rf_rotation(&mut epg2, &r2);

    gradient_shift(&mut epg, 2);
    println!("{:?}", epg);
    gradient_shift(&mut epg, -2);
    println!("{:?}", epg);

    assert_eq!(&epg, &epg2);
}

#[test]
fn vec_test_shift_conjs() {
    let mut epg = EpgState::new(3);
    let mut epg2 = EpgState::new(3);

    let r2 = gen_rotation_matrix((PI / 4.0).to_bits(), 0.0f64.to_bits());

    rf_rotation(&mut epg, &r2);
    rf_rotation(&mut epg2, &r2);

    gradient_shift(&mut epg, 1);
    println!("{:?}", epg);
    gradient_shift(&mut epg, -1);
    println!("{:?}", epg);

    assert_eq!(&epg, &epg2);
}

#[test]
fn vec_test_flipback() {
    let mut epg = EpgState::new(3);
    let epg2 = EpgState::new(3);

    let r2 = gen_rotation_matrix((PI / 4.0).to_bits(), 0.0f64.to_bits());
    let rm2 = gen_rotation_matrix((-PI / 4.0).to_bits(), 0.0f64.to_bits());

    rf_rotation(&mut epg, &r2);
    rf_rotation(&mut epg, &rm2);

    assert_eq!(&epg, &epg2);
}

#[test]
fn test_shift_total_on_single_order_ladder() {
    // The shift is total for any capacity, including one: the transverse
    // content is truncated away and the order-zero pairing is rebuilt.
    let mut epg = EpgState::new(1);
    epg.excite();
    epg.spoil(1);
    assert_eq!(norm(epg.f_p[0]), 0.0);
    assert_eq!(epg.f_n[0], conj(epg.f_p[0]));
    epg.spoil(-1);
    assert_eq!(norm(epg.f_p[0]), 0.0);
}

#[test]
fn test_shift_round_trip_deep_ladder() {
    // Shift invertibility on a ladder with several populated orders:
    // three twists out and back restore the state bit for bit, the top
    // three orders being empty.
    let r = gen_rotation_matrix((PI / 3.0).to_bits(), 0.0f64.to_bits());
    let mut epg = EpgState::new(8);
    rf_rotation(&mut epg, &r);
    gradient_shift(&mut epg, 1);
    rf_rotation(&mut epg, &r);
    gradient_shift(&mut epg, 1);

    let mut epg2 = EpgState::new(8);
    rf_rotation(&mut epg2, &r);
    gradient_shift(&mut epg2, 1);
    rf_rotation(&mut epg2, &r);
    gradient_shift(&mut epg2, 1);

    gradient_shift(&mut epg, 3);
    gradient_shift(&mut epg, -3);
    assert_eq!(&epg, &epg2);
}

#[test]
fn test_conjugation_involutive() {
    let x = Cpx::new(1.5f64.to_bits(), (-2.5f64).to_bits());
    assert_eq!(re_of(x.conj()), 1.5);
    assert_eq!(im_of(x.conj()), 2.5);
    assert_eq!(x.conj().conj(), x);
}

#[test]
fn test_default_state() {
    let epg: EpgState = Default::default();
    assert_eq!(&epg, &EpgState::new(3));
    assert_eq!(epg.length, 3);
    assert_eq!(re_of(epg.z[0]), 1.0);
    assert_eq!(norm(epg.f_p[0]), 0.0);
}

#[test]
fn test_magnetization_reconstruction() {
    // At equilibrium all magnetization is longitudinal; after the
    // excitation it is all transverse.
    let epg = EpgState::new(3);
    assert!((re_of(to_mz(&epg)) - 1.0).abs() <= 1e-12);
    assert!(norm(to_mxy(&epg)) <= 1e-12);

    let mut excited = EpgState::new(3);
    excited.excite();
    let mxy = to_mxy(&excited);
    assert!((re_of(mxy) - 1.0).abs() <= 1e-7);
    assert!(im_of(mxy).abs() <= 1e-7);
    assert!(norm(to_mz(&excited)) <= 1e-7);
}

#[test]
fn test_relaxation_long_interval_limit() {
    // As the interval grows without bound both decay factors reach zero:
    // every transverse coefficient dies and Z recovers to equilibrium.
    let mut epg = EpgState::new(4);
    epg.excite();
    let et = c((-0.01f64 / 0.5).exp(), 0.0);
    epg.grelax(et, et, 1);

    let dt = 1e12_f64;
    let e1 = c((-dt / 0.5).exp(), 0.0);
    let e2 = c((-dt / 0.05).exp(), 0.0);
    assert_eq!(re_of(e1), 0.0);
    epg.delay(e1, e2);

    for k in 0..4 {
        assert!(norm(epg.f_p[k]) <= 1e-12);
        assert!(norm(epg.f_n[k]) <= 1e-12);
        if k == 0 {
            assert!((re_of(epg.z[0]) - 1.0).abs() <= 1e-12);
            assert!(im_of(epg.z[0]).abs() <= 1e-12);
        } else {
            assert!(norm(epg.z[k]) <= 1e-12);
        }
    }
}

#[test]
fn test_t1_recovery() {
    // After the excitation empties the longitudinal pool, one relaxation
    // interval regrows Z[0] to 1 - E1, plus a vanishing E1-scaled rest of
    // the old value.
    let mut epg = EpgState::new(1);
    epg.excite();
    assert!(norm(epg.z[0]) <= 1e-15);

    let e1 = (-1.0f64).exp();
    epg.delay(c(e1, 0.0), c(0.5, 0.0));

    assert!((re_of(epg.z[0]) - (1.0 - e1)).abs() <= 1e-12);
    assert!(im_of(epg.z[0]).abs() <= 1e-12);
}

#[test]
fn test_rotation_round_trip_any_phase() {
    // A rotation followed by its inverse restores the state within
    // floating-point tolerance, also away from the axes.
    let r = gen_rotation_matrix(0.7f64.to_bits(), 0.3f64.to_bits());
    let rinv = gen_rotation_matrix((-0.7f64).to_bits(), 0.3f64.to_bits());

    let mut epg = EpgState::new(3);
    epg.excite();
    let reference = epg.read();
    epg.rotate(&r);
    epg.rotate(&rinv);

    let back = epg.read();
    assert!((re_of(back) - re_of(reference)).abs() <= 1e-7);
    assert!((im_of(back) - im_of(reference)).abs() <= 1e-7);
    for k in 0..3 {
        assert!(norm(epg.f_n[k]) - norm(conj(epg.f_p[k])) <= 1e-7);
    }
}

#[test]
fn test_180_refocusing_inverts_transverse() {
    // A π pulse about x sign-inverts the transverse coefficient of a
    // state excited with a phase-zero pulse.
    let mut epg = EpgState::new(1);
    let excite_x = gen_rotation_matrix((PI / 2.0).to_bits(), 0.0f64.to_bits());
    epg.rotate(&excite_x);
    let before = epg.read();
    assert!((im_of(before) + 1.0).abs() <= 1e-7);

    let refocus = gen_rotation_matrix(PI.to_bits(), 0.0f64.to_bits());
    epg.rotate(&refocus);
    let after = epg.read();

    assert!((re_of(after) + re_of(before)).abs() <= 1e-7);
    assert!((im_of(after) + im_of(before)).abs() <= 1e-7);
    assert!((im_of(after) - 1.0).abs() <= 1e-7);
}

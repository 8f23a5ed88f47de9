//! The EPG state: a finite ladder of coherence-order coefficients.
//!
//! The ladder holds, for every order `k` below its capacity, the
//! transverse coefficients `F_plus[k]` and `F_minus[k]` and the
//! longitudinal coefficient `Z[k]`. A fresh state is at thermal
//! equilibrium: `Z[0] = 1`, everything else zero. The RF rotation and the
//! relaxation operator act order by order; the gradient shift, the most
//! intricate operator, lives in [`crate::shift`].
//!
//! Every operator's contract states the new ladder exactly, as a
//! spec-level image of the old one under the named scalar operations.

use vstd::prelude::*;

use crate::complex::{
    add_of, cpx_one, cpx_zero, cx_add, cx_mul, cx_sub, mul_of, sub_of, Cpx,
};
use crate::rotation::{
    eiphi, gen_rotation_matrix, spec_eiphi, spec_gen_rotation_matrix, RotMatrix,
};
use crate::scalar::{r_mul, r_of_u32, real_of_u32, rmul_of, HALF_PI_BITS, TAU_BITS};

verus! {

/// The mathematical image of an EPG state: three equal-length sequences
/// of complex coefficients, one per coherence order.
#[verifier::ext_equal]
pub struct EpgView {
    pub f_p: Seq<Cpx>,
    pub f_n: Seq<Cpx>,
    pub z: Seq<Cpx>,
}

impl EpgView {
    /// The capacity `K` of the ladder.
    pub open spec fn len(self) -> nat {
        self.f_p.len()
    }

    /// Well-formedness: the three ladders have the same, positive length.
    pub open spec fn wf(self) -> bool {
        &&& self.f_n.len() == self.f_p.len()
        &&& self.z.len() == self.f_p.len()
        &&& self.f_p.len() >= 1
    }
}

/// The ladder of a freshly constructed state: full longitudinal
/// magnetization at order zero, nothing anywhere else.
pub open spec fn spec_initial(k: nat) -> EpgView {
    EpgView {
        f_p: Seq::new(k, |i: int| cpx_zero()),
        f_n: Seq::new(k, |i: int| cpx_zero()),
        z: Seq::new(k, |i: int| if i == 0 { cpx_one() } else { cpx_zero() }),
    }
}

/// Row `0` of the matrix-vector product: the new `F_plus` coefficient of
/// one order.
pub open spec fn spec_rot_f_p(m: RotMatrix, f: Cpx, g: Cpx, zz: Cpx) -> Cpx {
    add_of(add_of(mul_of(m.r00, f), mul_of(m.r01, g)), mul_of(m.r02, zz))
}

/// Row `1` of the matrix-vector product: the new `F_minus` coefficient of
/// one order.
pub open spec fn spec_rot_f_n(m: RotMatrix, f: Cpx, g: Cpx, zz: Cpx) -> Cpx {
    add_of(add_of(mul_of(m.r10, f), mul_of(m.r11, g)), mul_of(m.r12, zz))
}

/// Row `2` of the matrix-vector product: the new `Z` coefficient of one
/// order.
pub open spec fn spec_rot_z(m: RotMatrix, f: Cpx, g: Cpx, zz: Cpx) -> Cpx {
    add_of(add_of(mul_of(m.r20, f), mul_of(m.r21, g)), mul_of(m.r22, zz))
}

/// The RF rotation: every order's `(F_plus, F_minus, Z)` triple is
/// replaced by the matrix-vector product `m · (F_plus, F_minus, Z)`.
/// Orders do not couple.
pub open spec fn spec_rotate(v: EpgView, m: RotMatrix) -> EpgView {
    EpgView {
        f_p: Seq::new(v.f_p.len(), |i: int| spec_rot_f_p(m, v.f_p[i], v.f_n[i], v.z[i])),
        f_n: Seq::new(v.f_p.len(), |i: int| spec_rot_f_n(m, v.f_p[i], v.f_n[i], v.z[i])),
        z: Seq::new(v.f_p.len(), |i: int| spec_rot_z(m, v.f_p[i], v.f_n[i], v.z[i])),
    }
}

/// Relaxation over one interval with decay factors `e1 = exp(-dt/T1)` and
/// `e2 = exp(-dt/T2)`: both transverse ladders decay by `e2`; `Z[0]`
/// decays by `e1` and regrows toward the equilibrium value one; the
/// higher longitudinal orders decay by `e1` without regrowth.
pub open spec fn spec_relax(v: EpgView, e1: Cpx, e2: Cpx) -> EpgView {
    EpgView {
        f_p: Seq::new(v.f_p.len(), |i: int| mul_of(v.f_p[i], e2)),
        f_n: Seq::new(v.f_n.len(), |i: int| mul_of(v.f_n[i], e2)),
        z: Seq::new(
            v.z.len(),
            |i: int|
                if i == 0 {
                    add_of(sub_of(cpx_one(), e1), mul_of(v.z[i], e1))
                } else {
                    mul_of(v.z[i], e1)
                },
        ),
    }
}

/// The phase factor `e^{i·2π·k}` that weights order `k` in the
/// magnetization reconstructions.
pub open spec fn spec_order_phase(k: u32) -> Cpx {
    spec_eiphi(rmul_of(TAU_BITS, real_of_u32(k)))
}

/// The running sum `(((0 + t_0) + t_1) + …) + t_{n-1}` of the first `n`
/// weighted terms `t_i = xs[i + skip] · e^{i·2π·i}`.
pub open spec fn spec_phase_sum(xs: Seq<Cpx>, skip: int, n: int) -> Cpx
    decreases n,
{
    if n <= 0 {
        cpx_zero()
    } else {
        add_of(
            spec_phase_sum(xs, skip, n - 1),
            mul_of(xs[skip + n - 1], spec_order_phase((n - 1) as u32)),
        )
    }
}

/// Net transverse magnetization: the phase-weighted sum over `F_plus`,
/// plus the phase-weighted sum over `F_minus` with order zero skipped
/// (its content is the conjugate image of `F_plus[0]`).
pub open spec fn spec_to_mxy(v: EpgView) -> Cpx {
    add_of(
        spec_phase_sum(v.f_p, 0, v.f_p.len() as int),
        spec_phase_sum(v.f_n, 1, v.f_n.len() - 1),
    )
}

/// Net longitudinal magnetization: twice the phase-weighted sum over the
/// `Z` orders above zero — each stored order stands for an un-stored
/// conjugate partner — plus `Z[0]`. The doubling is written as a sum with
/// itself, which is the same double in IEEE-754 arithmetic.
pub open spec fn spec_to_mz(v: EpgView) -> Cpx {
    let s = spec_phase_sum(v.z, 1, v.z.len() - 1);
    add_of(add_of(s, s), v.z[0])
}

/// The EPG state: the coherence ladder up to a fixed maximum order
/// `length`, mutated in place by the operators.
#[derive(Debug)]
pub struct EpgState {
    /// The capacity `K`: the number of stored coherence orders.
    pub length: usize,
    /// Transverse coefficients at orders `+k`.
    pub f_p: Vec<Cpx>,
    /// Transverse coefficients at orders `-k`, stored at index `k`.
    pub f_n: Vec<Cpx>,
    /// Longitudinal coefficients at orders `k`.
    pub z: Vec<Cpx>,
}

impl View for EpgState {
    type V = EpgView;

    open spec fn view(&self) -> EpgView {
        EpgView { f_p: self.f_p@, f_n: self.f_n@, z: self.z@ }
    }
}

impl EpgState {
    /// Well-formedness: the ladders share the stated positive length.
    pub open spec fn wf(self) -> bool {
        &&& self@.wf()
        &&& self.length == self@.len()
    }

    /// Builds a state of capacity `n_states` at thermal equilibrium:
    /// `Z[0] = 1`, every other coefficient zero. A zero capacity is a
    /// contract violation, rejected here at construction.
    pub fn new(n_states: usize) -> (r: EpgState)
        requires
            n_states >= 1,
        ensures
            r.wf(),
            r.length == n_states,
            r@ == spec_initial(n_states as nat),
    {
        let mut f_p: Vec<Cpx> = Vec::with_capacity(n_states);
        let mut f_n: Vec<Cpx> = Vec::with_capacity(n_states);
        let mut z: Vec<Cpx> = Vec::with_capacity(n_states);

        f_p.push(Cpx::zero());
        f_n.push(Cpx::zero());
        z.push(Cpx::one());

        let mut ix: usize = 1;
        while ix < n_states
            invariant
                1 <= ix <= n_states,
                f_p@ =~= spec_initial(ix as nat).f_p,
                f_n@ =~= spec_initial(ix as nat).f_n,
                z@ =~= spec_initial(ix as nat).z,
            decreases n_states - ix,
        {
            f_p.push(Cpx::zero());
            f_n.push(Cpx::zero());
            z.push(Cpx::zero());
            ix += 1;
        }

        let r = EpgState { length: n_states, f_p, f_n, z };
        assert(r@ =~= spec_initial(n_states as nat));
        r
    }

    /// The detectable signal: the fully rephased transverse coefficient
    /// `F_plus[0]`.
    pub fn read(&self) -> (r: Cpx)
        requires
            self.wf(),
        ensures
            r == self@.f_p[0],
    {
        self.f_p[0]
    }

    /// Applies the rotation matrix `rmat` to every coherence order.
    pub fn rotate(&mut self, rmat: &RotMatrix)
        requires
            old(self).wf(),
        ensures
            final(self).wf(),
            final(self).length == old(self).length,
            final(self)@ == spec_rotate(old(self)@, *rmat),
    {
        rf_rotation(self, rmat);
    }

    /// The canonical excitation: a 90° pulse about the y axis
    /// (`alpha = π/2`, `phi = π/2`), turning a fully relaxed state into a
    /// pure transverse state.
    pub fn excite(&mut self)
        requires
            old(self).wf(),
        ensures
            final(self).wf(),
            final(self).length == old(self).length,
            final(self)@ == spec_rotate(
                old(self)@,
                spec_gen_rotation_matrix(HALF_PI_BITS, HALF_PI_BITS),
            ),
    {
        let rot = gen_rotation_matrix(HALF_PI_BITS, HALF_PI_BITS);
        self.rotate(&rot);
    }

    /// Relaxation over one interval: see [`spec_relax`].
    pub fn delay(&mut self, et1d: Cpx, et2d: Cpx)
        requires
            old(self).wf(),
        ensures
            final(self).wf(),
            final(self).length == old(self).length,
            final(self)@ == spec_relax(old(self)@, et1d, et2d),
    {
        relaxation(self, et1d, et2d);
    }
}

/// Applies the rotation matrix pointwise across the coherence ladder:
/// every order's triple is replaced by the matrix-vector product, with no
/// coupling between orders.
pub fn rf_rotation(epg: &mut EpgState, rmat: &RotMatrix)
    requires
        old(epg).wf(),
    ensures
        final(epg).wf(),
        final(epg).length == old(epg).length,
        final(epg)@ == spec_rotate(old(epg)@, *rmat),
{
    let ghost orig = epg@;
    let mut ix: usize = 0;
    while ix < epg.length
        invariant
            epg.wf(),
            orig.wf(),
            epg.length == orig.len(),
            ix <= epg.length,
            forall|j: int|
                0 <= j < ix ==> {
                    &&& epg.f_p@[j] == spec_rot_f_p(*rmat, orig.f_p[j], orig.f_n[j], orig.z[j])
                    &&& epg.f_n@[j] == spec_rot_f_n(*rmat, orig.f_p[j], orig.f_n[j], orig.z[j])
                    &&& epg.z@[j] == spec_rot_z(*rmat, orig.f_p[j], orig.f_n[j], orig.z[j])
                },
            forall|j: int|
                ix <= j < epg.length ==> {
                    &&& epg.f_p@[j] == orig.f_p[j]
                    &&& epg.f_n@[j] == orig.f_n[j]
                    &&& epg.z@[j] == orig.z[j]
                },
        decreases epg.length - ix,
    {
        let f = epg.f_p[ix];
        let g = epg.f_n[ix];
        let zz = epg.z[ix];
        epg.f_p[ix] = cx_add(cx_add(cx_mul(rmat.r00, f), cx_mul(rmat.r01, g)), cx_mul(rmat.r02, zz));
        epg.f_n[ix] = cx_add(cx_add(cx_mul(rmat.r10, f), cx_mul(rmat.r11, g)), cx_mul(rmat.r12, zz));
        epg.z[ix] = cx_add(cx_add(cx_mul(rmat.r20, f), cx_mul(rmat.r21, g)), cx_mul(rmat.r22, zz));
        ix += 1;
    }
    assert(epg@ =~= spec_rotate(orig, *rmat));
}

/// Applies exponential decay and `T1` regrowth to the ladder: both
/// transverse ladders scale by `et2d`; `Z[0]` becomes
/// `(1 - et1d) + Z[0]·et1d`; the higher `Z` orders scale by `et1d`.
pub fn relaxation(epg: &mut EpgState, et1d: Cpx, et2d: Cpx)
    requires
        old(epg).wf(),
    ensures
        final(epg).wf(),
        final(epg).length == old(epg).length,
        final(epg)@ == spec_relax(old(epg)@, et1d, et2d),
{
    let ghost orig = epg@;
    let mut ix: usize = 0;
    while ix < epg.length
        invariant
            epg.wf(),
            orig.wf(),
            epg.length == orig.len(),
            ix <= epg.length,
            epg.f_p@ == orig.f_p,
            epg.z@ == orig.z,
            forall|j: int| 0 <= j < ix ==> epg.f_n@[j] == mul_of(orig.f_n[j], et2d),
            forall|j: int| ix <= j < epg.length ==> epg.f_n@[j] == orig.f_n[j],
        decreases epg.length - ix,
    {
        let x = epg.f_n[ix];
        epg.f_n[ix] = cx_mul(x, et2d);
        ix += 1;
    }

    let mut ix: usize = 0;
    while ix < epg.length
        invariant
            epg.wf(),
            orig.wf(),
            epg.length == orig.len(),
            ix <= epg.length,
            forall|j: int| 0 <= j < epg.length ==> epg.f_n@[j] == mul_of(orig.f_n[j], et2d),
            epg.z@ == orig.z,
            forall|j: int| 0 <= j < ix ==> epg.f_p@[j] == mul_of(orig.f_p[j], et2d),
            forall|j: int| ix <= j < epg.length ==> epg.f_p@[j] == orig.f_p[j],
        decreases epg.length - ix,
    {
        let x = epg.f_p[ix];
        epg.f_p[ix] = cx_mul(x, et2d);
        ix += 1;
    }

    let mut ix: usize = 0;
    while ix < epg.length
        invariant
            epg.wf(),
            orig.wf(),
            epg.length == orig.len(),
            ix <= epg.length,
            forall|j: int| 0 <= j < epg.length ==> epg.f_n@[j] == mul_of(orig.f_n[j], et2d),
            forall|j: int| 0 <= j < epg.length ==> epg.f_p@[j] == mul_of(orig.f_p[j], et2d),
            forall|j: int| 0 <= j < ix ==> epg.z@[j] == spec_relax(orig, et1d, et2d).z[j],
            forall|j: int| ix <= j < epg.length ==> epg.z@[j] == orig.z[j],
        decreases epg.length - ix,
    {
        let zz = epg.z[ix];
        let v = if ix == 0 {
            cx_add(cx_sub(Cpx::one(), et1d), cx_mul(zz, et1d))
        } else {
            cx_mul(zz, et1d)
        };
        epg.z[ix] = v;
        ix += 1;
    }
    assert(epg@ =~= spec_relax(orig, et1d, et2d));
}

/// Reconstructs net transverse magnetization: the discrete sum of both
/// transverse ladders under the order phase factors, the `F_minus` ladder
/// entering from order one up.
pub fn to_mxy(epg: &EpgState) -> (r: Cpx)
    requires
        epg.wf(),
        epg.length <= u32::MAX as usize,
    ensures
        r == spec_to_mxy(epg@),
{
    let mut pos_sum = Cpx::zero();
    let mut ix: usize = 0;
    while ix < epg.length
        invariant
            epg.wf(),
            epg.length <= u32::MAX as usize,
            ix <= epg.length,
            pos_sum == spec_phase_sum(epg.f_p@, 0, ix as int),
        decreases epg.length - ix,
    {
        let factor = eiphi(r_mul(TAU_BITS, r_of_u32(ix as u32)));
        pos_sum = cx_add(pos_sum, cx_mul(epg.f_p[ix], factor));
        ix += 1;
    }

    let mut neg_sum = Cpx::zero();
    let mut ix: usize = 1;
    while ix < epg.length
        invariant
            epg.wf(),
            epg.length <= u32::MAX as usize,
            1 <= ix <= epg.length,
            neg_sum == spec_phase_sum(epg.f_n@, 1, ix - 1),
        decreases epg.length - ix,
    {
        let factor = eiphi(r_mul(TAU_BITS, r_of_u32((ix - 1) as u32)));
        neg_sum = cx_add(neg_sum, cx_mul(epg.f_n[ix], factor));
        ix += 1;
    }

    cx_add(pos_sum, neg_sum)
}

/// Reconstructs net longitudinal magnetization: `Z[0]` plus twice the
/// phase-weighted sum of the higher `Z` orders, the factor two standing
/// for the un-stored conjugate partner of each of them.
pub fn to_mz(epg: &EpgState) -> (r: Cpx)
    requires
        epg.wf(),
        epg.length <= u32::MAX as usize,
    ensures
        r == spec_to_mz(epg@),
{
    let mut mz = Cpx::zero();
    let mut ix: usize = 1;
    while ix < epg.length
        invariant
            epg.wf(),
            epg.length <= u32::MAX as usize,
            1 <= ix <= epg.length,
            mz == spec_phase_sum(epg.z@, 1, ix - 1),
        decreases epg.length - ix,
    {
        let factor = eiphi(r_mul(TAU_BITS, r_of_u32((ix - 1) as u32)));
        mz = cx_add(mz, cx_mul(epg.z[ix], factor));
        ix += 1;
    }

    // Doubling a float by adding it to itself gives the same bits as
    // multiplying it by two.
    cx_add(cx_add(mz, mz), epg.z[0])
}

impl Default for EpgState {
    /// A three-order ladder at thermal equilibrium.
    fn default() -> (r: EpgState)
        ensures
            r.wf(),
            r.length == 3,
            r@ == spec_initial(3),
    {
        EpgState::new(3)
    }
}

impl PartialEq for EpgState {
    /// Bit-for-bit equality of the two ladders and their capacity.
    fn eq(&self, other: &EpgState) -> (r: bool) {
        if self.length != other.length {
            return false;
        }
        if self.f_p.len() != other.f_p.len()
            || self.f_n.len() != other.f_n.len()
            || self.z.len() != other.z.len()
        {
            return false;
        }
        let mut ix: usize = 0;
        while ix < self.f_p.len()
            invariant
                self.f_p@.len() == other.f_p@.len(),
                ix <= self.f_p@.len(),
                forall|j: int| 0 <= j < ix ==> self.f_p@[j] == other.f_p@[j],
            decreases self.f_p@.len() - ix,
        {
            if self.f_p[ix] != other.f_p[ix] {
                return false;
            }
            ix += 1;
        }
        let mut ix: usize = 0;
        while ix < self.f_n.len()
            invariant
                self.f_n@.len() == other.f_n@.len(),
                ix <= self.f_n@.len(),
                forall|j: int| 0 <= j < ix ==> self.f_n@[j] == other.f_n@[j],
            decreases self.f_n@.len() - ix,
        {
            if self.f_n[ix] != other.f_n[ix] {
                return false;
            }
            ix += 1;
        }
        let mut ix: usize = 0;
        while ix < self.z.len()
            invariant
                self.z@.len() == other.z@.len(),
                ix <= self.z@.len(),
                forall|j: int| 0 <= j < ix ==> self.z@[j] == other.z@[j],
            decreases self.z@.len() - ix,
        {
            if self.z[ix] != other.z[ix] {
                return false;
            }
            ix += 1;
        }
        proof {
            assert(self.f_p@ =~= other.f_p@);
            assert(self.f_n@ =~= other.f_n@);
            assert(self.z@ =~= other.z@);
        }
        true
    }
}

impl vstd::std_specs::cmp::PartialEqSpecImpl for EpgState {
    open spec fn obeys_eq_spec() -> bool {
        true
    }

    open spec fn eq_spec(&self, other: &EpgState) -> bool {
        self.length == other.length && self@ == other@
    }
}

} // verus!

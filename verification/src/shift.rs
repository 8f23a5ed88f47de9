//! The gradient-induced shift of the coherence ladder.
//!
//! A gradient twists the ensemble by an integer number of unit dephasing
//! steps. One positive twist advances every transverse order by one:
//! `F_plus` moves up, `F_minus` moves down, and the coefficient that
//! crosses order zero re-enters the `F_plus` ladder, with the redundant
//! `F_minus[0]` slot rebuilt as the conjugate of the new `F_plus[0]` so
//! the order-zero symmetry holds exactly after the shift. A negative
//! twist applies the mirror mapping. Longitudinal orders do not move.
//! Coefficients pushed beyond the top of the ladder are discarded — the
//! deliberate truncation of the model — and the slot vacated at the top
//! of the receiving ladder is zero-filled.
//!
//! A shift by `n` is the single twist applied `|n|` times; `n = 0` is a
//! no-op.

use vstd::prelude::*;

use crate::complex::{cpx_zero, spec_conj, Cpx};
use crate::state::{relaxation, spec_relax, EpgState, EpgView};

verus! {

/// One unit twist in the positive direction.
pub open spec fn spec_twist_up(v: EpgView) -> EpgView {
    let k = v.f_p.len() as int;
    let head = if k > 1 {
        v.f_n[1]
    } else {
        cpx_zero()
    };
    EpgView {
        f_p: Seq::new(
            k as nat,
            |i: int|
                if i == 0 {
                    head
                } else {
                    v.f_p[i - 1]
                },
        ),
        f_n: Seq::new(
            k as nat,
            |i: int|
                if i == 0 {
                    spec_conj(head)
                } else if i + 1 < k {
                    v.f_n[i + 1]
                } else {
                    cpx_zero()
                },
        ),
        z: v.z,
    }
}

/// One unit twist in the negative direction.
pub open spec fn spec_twist_dn(v: EpgView) -> EpgView {
    let k = v.f_p.len() as int;
    let f0 = v.f_p[0];
    let f1 = if k > 1 {
        v.f_p[1]
    } else {
        cpx_zero()
    };
    EpgView {
        f_p: Seq::new(
            k as nat,
            |i: int|
                if i + 1 < k {
                    v.f_p[i + 1]
                } else {
                    cpx_zero()
                },
        ),
        f_n: Seq::new(
            k as nat,
            |i: int|
                if i == 0 {
                    spec_conj(f1)
                } else if i == 1 {
                    f0
                } else {
                    v.f_n[i - 1]
                },
        ),
        z: v.z,
    }
}

/// The shift by `n` twists: the single twist iterated `|n|` times, in the
/// direction of the sign of `n`.
pub open spec fn spec_shift(v: EpgView, n: int) -> EpgView
    decreases
            (if n >= 0 {
                n
            } else {
                -n
            }),
{
    if n == 0 {
        v
    } else if n > 0 {
        spec_shift(spec_twist_up(v), n - 1)
    } else {
        spec_shift(spec_twist_dn(v), n + 1)
    }
}

/// The order-zero consistency relation: the stored `F_minus[0]` slot is
/// the conjugate image of `F_plus[0]` — both stand for the same fully
/// rephased transverse coefficient.
pub open spec fn zero_order_symmetric(v: EpgView) -> bool {
    v.f_n[0] == spec_conj(v.f_p[0])
}

/// The top `m` entries of the sequence are zero.
pub open spec fn suffix_zero(s: Seq<Cpx>, m: int) -> bool {
    forall|i: int| s.len() - m <= i < s.len() ==> s[i] == cpx_zero()
}

/// A shift never changes the capacity of the ladder and never moves a
/// longitudinal coefficient.
pub proof fn lemma_shift_wf(v: EpgView, n: int)
    requires
        v.wf(),
    ensures
        spec_shift(v, n).wf(),
        spec_shift(v, n).len() == v.len(),
        spec_shift(v, n).z == v.z,
    decreases
            (if n >= 0 {
                n
            } else {
                -n
            }),
{
    if n > 0 {
        lemma_shift_wf(spec_twist_up(v), n - 1);
    } else if n < 0 {
        lemma_shift_wf(spec_twist_dn(v), n + 1);
    }
}

/// Every shift preserves the order-zero conjugate symmetry exactly: a
/// twist in either direction rebuilds `F_minus[0]` as the conjugate of
/// the new `F_plus[0]`, and a zero shift changes nothing.
pub proof fn lemma_shift_preserves_zero_order_symmetry(v: EpgView, n: int)
    requires
        v.wf(),
        zero_order_symmetric(v),
    ensures
        zero_order_symmetric(spec_shift(v, n)),
    decreases
            (if n >= 0 {
                n
            } else {
                -n
            }),
{
    if n > 0 {
        lemma_shift_preserves_zero_order_symmetry(spec_twist_up(v), n - 1);
    } else if n < 0 {
        lemma_shift_preserves_zero_order_symmetry(spec_twist_dn(v), n + 1);
    }
}

/// Every twist establishes the order-zero conjugate symmetry outright,
/// whatever held before: the boundary fix-up writes `F_minus[0]` as the
/// conjugate of the new `F_plus[0]`.
pub proof fn lemma_shift_establishes_zero_order_symmetry(v: EpgView, n: int)
    requires
        v.wf(),
        n != 0,
    ensures
        zero_order_symmetric(spec_shift(v, n)),
{
    if n > 0 {
        lemma_shift_up_unfold_last(v, n);
        lemma_shift_wf(v, n - 1);
    } else {
        lemma_shift_dn_unfold_last(v, n);
        lemma_shift_wf(v, n + 1);
    }
}

/// A negative twist undoes a positive twist exactly, provided the top
/// `F_plus` slot held nothing (so the positive twist truncated nothing)
/// and the order-zero symmetry held (so the rebuilt `F_minus[0]` slot is
/// restored to its old content).
proof fn lemma_twist_cancel_up(v: EpgView)
    requires
        v.wf(),
        zero_order_symmetric(v),
        v.f_p[v.len() - 1] == cpx_zero(),
    ensures
        spec_twist_dn(spec_twist_up(v)) == v,
{
    let w = spec_twist_dn(spec_twist_up(v));
    assert(w.f_p =~= v.f_p);
    assert(w.f_n =~= v.f_n);
    assert(w =~= v);
}

/// A positive twist undoes a negative twist exactly, provided the top
/// `F_minus` slot held nothing and the order-zero symmetry held.
proof fn lemma_twist_cancel_dn(v: EpgView)
    requires
        v.wf(),
        v.len() >= 2,
        zero_order_symmetric(v),
        v.f_n[v.len() - 1] == cpx_zero(),
    ensures
        spec_twist_up(spec_twist_dn(v)) == v,
{
    let w = spec_twist_up(spec_twist_dn(v));
    assert(w.f_p =~= v.f_p);
    assert(w.f_n =~= v.f_n);
    assert(w =~= v);
}

/// Peels the last twist off a positive shift: `n` twists up are `n - 1`
/// twists up followed by one more.
proof fn lemma_shift_up_unfold_last(v: EpgView, n: int)
    requires
        n > 0,
    ensures
        spec_shift(v, n) == spec_twist_up(spec_shift(v, n - 1)),
    decreases n,
{
    assert(spec_shift(v, n) == spec_shift(spec_twist_up(v), n - 1));
    if n == 1 {
        assert(spec_shift(spec_twist_up(v), 0) == spec_twist_up(v));
        assert(spec_shift(v, 0) == v);
    } else {
        lemma_shift_up_unfold_last(spec_twist_up(v), n - 1);
        assert(spec_shift(v, n - 1) == spec_shift(spec_twist_up(v), n - 2));
    }
}

/// Peels the last twist off a negative shift.
proof fn lemma_shift_dn_unfold_last(v: EpgView, n: int)
    requires
        n < 0,
    ensures
        spec_shift(v, n) == spec_twist_dn(spec_shift(v, n + 1)),
    decreases -n,
{
    assert(spec_shift(v, n) == spec_shift(spec_twist_dn(v), n + 1));
    if n == -1 {
        assert(spec_shift(spec_twist_dn(v), 0) == spec_twist_dn(v));
        assert(spec_shift(v, 0) == v);
    } else {
        lemma_shift_dn_unfold_last(spec_twist_dn(v), n + 1);
        assert(spec_shift(v, n + 1) == spec_shift(spec_twist_dn(v), n + 2));
    }
}

/// After `j` twists up of a ladder whose top `m` `F_plus` entries are
/// zero, the top `m - j` entries are still zero.
proof fn lemma_shift_up_suffix(v: EpgView, j: int, m: int)
    requires
        v.wf(),
        0 <= j <= m <= v.len(),
        suffix_zero(v.f_p, m),
    ensures
        suffix_zero(spec_shift(v, j).f_p, m - j),
    decreases j,
{
    if j > 0 {
        assert(suffix_zero(spec_twist_up(v).f_p, m - 1));
        lemma_shift_up_suffix(spec_twist_up(v), j - 1, m - 1);
    }
}

/// After `j` twists down of a ladder whose top `m` `F_minus` entries are
/// zero, with `m` below the capacity, the top `m - j` entries are still
/// zero.
proof fn lemma_shift_dn_suffix(v: EpgView, j: int, m: int)
    requires
        v.wf(),
        0 <= j <= m <= v.len() - 1,
        suffix_zero(v.f_n, m),
    ensures
        suffix_zero(spec_shift(v, -j).f_n, m - j),
    decreases j,
{
    if j > 0 {
        assert(suffix_zero(spec_twist_dn(v).f_n, m - 1));
        lemma_shift_dn_suffix(spec_twist_dn(v), j - 1, m - 1);
    }
}

/// The closed-form index remap of a positive shift, verified against the
/// iterated single twist: after `n` twists up, `F_plus` holds the old
/// `F_plus` moved up `n` orders, with the old `F_minus[1..=n]` folded in
/// below, reversed; `F_minus` holds the old `F_minus` moved down `n`
/// orders, zero-filled at the top, its order-zero slot rebuilt as the
/// conjugate of the new `F_plus[0]`; `Z` does not move.
pub proof fn lemma_shift_up_closed_form(v: EpgView, n: int)
    requires
        v.wf(),
        0 <= n < v.len(),
    ensures
        spec_shift(v, n).z == v.z,
        forall|i: int| 0 <= i < n ==> spec_shift(v, n).f_p[i] == v.f_n[n - i],
        forall|i: int| n <= i < v.len() ==> spec_shift(v, n).f_p[i] == v.f_p[i - n],
        n >= 1 ==> spec_shift(v, n).f_n[0] == spec_conj(v.f_n[n]),
        forall|i: int| 1 <= i < v.len() - n ==> spec_shift(v, n).f_n[i] == v.f_n[i + n],
        forall|i: int|
            v.len() - n <= i < v.len() && 1 <= i ==> spec_shift(v, n).f_n[i] == cpx_zero(),
    decreases n,
{
    if n > 0 {
        lemma_shift_up_unfold_last(v, n);
        lemma_shift_up_closed_form(v, n - 1);
        lemma_shift_wf(v, n - 1);
    }
}

/// The closed-form index remap of a negative shift, verified against the
/// iterated single twist: after `n` twists down, `F_plus` holds the old
/// `F_plus` moved down `n` orders, zero-filled at the top; `F_minus`
/// holds the old `F_minus` moved up `n` orders, with the old
/// `F_plus[0..n]` folded in below, reversed, and its order-zero slot
/// rebuilt as the conjugate of the new `F_plus[0]`; `Z` does not move.
pub proof fn lemma_shift_dn_closed_form(v: EpgView, n: int)
    requires
        v.wf(),
        0 <= n < v.len(),
    ensures
        spec_shift(v, -n).z == v.z,
        forall|i: int| 0 <= i < v.len() - n ==> #[trigger] spec_shift(v, -n).f_p[i] == v.f_p[i + n],
        forall|i: int|
            v.len() - n <= i < v.len() ==> #[trigger] spec_shift(v, -n).f_p[i] == cpx_zero(),
        n >= 1 ==> spec_shift(v, -n).f_n[0] == spec_conj(v.f_p[n]),
        forall|i: int| 1 <= i <= n ==> #[trigger] spec_shift(v, -n).f_n[i] == v.f_p[n - i],
        forall|i: int| n < i < v.len() ==> #[trigger] spec_shift(v, -n).f_n[i] == v.f_n[i - n],
    decreases n,
{
    if n > 0 {
        lemma_shift_dn_unfold_last(v, -n);
        lemma_shift_dn_closed_form(v, n - 1);
        lemma_shift_wf(v, -(n - 1));
    }
}

/// Shift invertibility: a shift by `n` followed by a shift by `-n`
/// restores the ladder exactly, bit for bit, whenever nothing was
/// truncated — the ladder the shift pushes upward holds only zeros in the
/// `|n|` slots that fall off its top — and the order-zero conjugate
/// symmetry held at the start.
pub proof fn lemma_shift_round_trip(v: EpgView, n: int)
    requires
        v.wf(),
        zero_order_symmetric(v),
        n >= 0 ==> n <= v.len() && suffix_zero(v.f_p, n),
        n < 0 ==> -n < v.len() && suffix_zero(v.f_n, -n),
    ensures
        spec_shift(spec_shift(v, n), -n) == v,
    decreases
            (if n >= 0 {
                n
            } else {
                -n
            }),
{
    if n > 0 {
        let w = spec_shift(v, n - 1);
        lemma_shift_up_unfold_last(v, n);
        lemma_shift_wf(v, n - 1);
        lemma_shift_preserves_zero_order_symmetry(v, n - 1);
        lemma_shift_up_suffix(v, n - 1, n);
        lemma_twist_cancel_up(w);
        lemma_shift_round_trip(v, n - 1);
    } else if n < 0 {
        let w = spec_shift(v, n + 1);
        lemma_shift_dn_unfold_last(v, n);
        lemma_shift_wf(v, n + 1);
        lemma_shift_preserves_zero_order_symmetry(v, n + 1);
        lemma_shift_dn_suffix(v, -n - 1, -n);
        lemma_twist_cancel_dn(w);
        lemma_shift_round_trip(v, n + 1);
    }
}

/// One positive twist, in place.
fn twist_up(epg: &mut EpgState)
    requires
        old(epg).wf(),
    ensures
        final(epg).wf(),
        final(epg).length == old(epg).length,
        final(epg)@ == spec_twist_up(old(epg)@),
{
    let ghost orig = epg@;
    let k = epg.length;
    let head = if k > 1 {
        epg.f_n[1]
    } else {
        Cpx::zero()
    };

    let mut i: usize = k - 1;
    while i >= 1
        invariant
            epg.wf(),
            orig.wf(),
            epg.length == k,
            k == orig.len(),
            i <= k - 1,
            forall|j: int| 0 <= j <= i ==> epg.f_p@[j] == orig.f_p[j],
            forall|j: int| i < j < k ==> epg.f_p@[j] == orig.f_p[j - 1],
            epg.f_n@ == orig.f_n,
            epg.z@ == orig.z,
        decreases i,
    {
        let t = epg.f_p[i - 1];
        epg.f_p[i] = t;
        i -= 1;
    }
    epg.f_p[0] = head;

    let mut i: usize = 1;
    while i + 1 < k
        invariant
            epg.wf(),
            orig.wf(),
            epg.length == k,
            k == orig.len(),
            1 <= i,
            i < k || i == 1,
            forall|j: int| 1 <= j < i ==> epg.f_n@[j] == orig.f_n[j + 1],
            forall|j: int| i <= j < k ==> epg.f_n@[j] == orig.f_n[j],
            epg.f_n@[0] == orig.f_n[0],
            epg.f_p@ == spec_twist_up(orig).f_p,
            epg.z@ == orig.z,
        decreases k - i,
    {
        let t = epg.f_n[i + 1];
        epg.f_n[i] = t;
        i += 1;
    }
    epg.f_n[k - 1] = Cpx::zero();
    epg.f_n[0] = head.conj();

    assert(epg@.f_p =~= spec_twist_up(orig).f_p);
    assert(epg@.f_n =~= spec_twist_up(orig).f_n);
    assert(epg@ =~= spec_twist_up(orig));
}

/// One negative twist, in place.
fn twist_dn(epg: &mut EpgState)
    requires
        old(epg).wf(),
    ensures
        final(epg).wf(),
        final(epg).length == old(epg).length,
        final(epg)@ == spec_twist_dn(old(epg)@),
{
    let ghost orig = epg@;
    let k = epg.length;
    let f0 = epg.f_p[0];
    let f1 = if k > 1 {
        epg.f_p[1]
    } else {
        Cpx::zero()
    };

    let mut i: usize = 0;
    while i + 1 < k
        invariant
            epg.wf(),
            orig.wf(),
            epg.length == k,
            k == orig.len(),
            i < k,
            forall|j: int| 0 <= j < i ==> epg.f_p@[j] == orig.f_p[j + 1],
            forall|j: int| i <= j < k ==> epg.f_p@[j] == orig.f_p[j],
            epg.f_n@ == orig.f_n,
            epg.z@ == orig.z,
        decreases k - i,
    {
        let t = epg.f_p[i + 1];
        epg.f_p[i] = t;
        i += 1;
    }
    epg.f_p[k - 1] = Cpx::zero();

    let mut i: usize = k - 1;
    while i >= 2
        invariant
            epg.wf(),
            orig.wf(),
            epg.length == k,
            k == orig.len(),
            i <= k - 1 || i == 0,
            forall|j: int| 0 <= j <= i ==> epg.f_n@[j] == orig.f_n[j],
            forall|j: int| i < j < k ==> epg.f_n@[j] == orig.f_n[j - 1],
            epg.f_p@ == spec_twist_dn(orig).f_p,
            epg.z@ == orig.z,
        decreases i,
    {
        let t = epg.f_n[i - 1];
        epg.f_n[i] = t;
        i -= 1;
    }
    if k > 1 {
        epg.f_n[1] = f0;
    }
    epg.f_n[0] = f1.conj();

    assert(epg@.f_p =~= spec_twist_dn(orig).f_p);
    assert(epg@.f_n =~= spec_twist_dn(orig).f_n);
    assert(epg@ =~= spec_twist_dn(orig));
}

/// Shifts the coherence ladder by `ntwists` unit dephasing steps, the
/// single twist applied `|ntwists|` times; `ntwists = 0` leaves the state
/// untouched. Longitudinal orders never move; coefficients shifted beyond
/// the top of the ladder are discarded.
pub fn gradient_shift(epg: &mut EpgState, ntwists: i64)
    requires
        old(epg).wf(),
    ensures
        final(epg).wf(),
        final(epg).length == old(epg).length,
        final(epg)@ == spec_shift(old(epg)@, ntwists as int),
    decreases
            (if ntwists >= 0 {
                ntwists as int
            } else {
                -(ntwists as int)
            }),
{
    if ntwists == 0 {
        return ;
    }
    if ntwists > 0 {
        twist_up(epg);
        gradient_shift(epg, ntwists - 1);
    } else {
        twist_dn(epg);
        gradient_shift(epg, ntwists + 1);
    }
}

impl EpgState {
    /// A spoiler gradient: a bare shift by `ntwists` twists.
    pub fn spoil(&mut self, ntwists: i64)
        requires
            old(self).wf(),
        ensures
            final(self).wf(),
            final(self).length == old(self).length,
            final(self)@ == spec_shift(old(self)@, ntwists as int),
    {
        gradient_shift(self, ntwists);
    }

    /// One repetition period of gradient and relaxation: the shift by
    /// `ntwists`, then relaxation with the decay factors `et1d`, `et2d`.
    pub fn grelax(&mut self, et1d: Cpx, et2d: Cpx, ntwists: i64)
        requires
            old(self).wf(),
        ensures
            final(self).wf(),
            final(self).length == old(self).length,
            final(self)@ == spec_relax(spec_shift(old(self)@, ntwists as int), et1d, et2d),
    {
        gradient_shift(self, ntwists);
        relaxation(self, et1d, et2d);
    }
}

} // verus!

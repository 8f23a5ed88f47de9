//! Tissue classification and relaxation properties.

use vstd::prelude::*;

verus! {

/// A tissue whose relaxation properties the library tabulates.
#[derive(Clone, Copy, PartialEq, Eq, Structural, Debug)]
pub enum Tissue {
    WhiteMatter,
    GreyMatter,
    Caudate,
    CerebroSpinalFluid,
    Thalamus,
    Blood,
}

/// Relaxation properties of a tissue. The proton density and the time
/// constants are bit patterns of IEEE-754 single-precision floats, in
/// seconds where they are times.
#[derive(Clone, Copy, Debug)]
pub struct TissueProperties {
    /// Short name of the tissue.
    pub name: &'static str,
    /// Proton density, relative to water.
    pub pd: u32,
    /// Longitudinal relaxation constant `T1`.
    pub t1: u32,
    /// Transverse relaxation constant `T2`.
    pub t2: u32,
    /// Effective transverse relaxation constant `T2*`.
    pub t2s: u32,
}

} // verus!

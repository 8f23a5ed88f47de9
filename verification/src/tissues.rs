//! A lookup table of relaxation properties for common tissues at half a
//! tesla: proton density, `T1`, `T2` and `T2*`, each as the bit pattern
//! of a single-precision float.

use vstd::prelude::*;

use crate::types::{Tissue, TissueProperties};

verus! {

/// Returns the tabulated relaxation properties of `tissue`. The ensures
/// clauses pin the name and every numeric field; the bit patterns encode
/// the values named in the adjacent comments.
pub fn get_tissue(tissue: Tissue) -> (r: TissueProperties)
    ensures
        tissue == Tissue::WhiteMatter ==> r.name@ == "wm"@ && r.pd == 0x3F30_A3D7u32  // 0.69
         && r.t1 == 0x3F01_47AEu32  // 0.505
         && r.t2 == 0x3DB6_45A2u32  // 0.089
         && r.t2s == 0x3D8F_5C29u32,  // 0.07
        tissue == Tissue::GreyMatter ==> r.name@ == "gm"@ && r.pd == 0x3F51_EB85u32  // 0.82
         && r.t1 == 0x3F46_6666u32  // 0.775
         && r.t2 == 0x3DE1_47AEu32  // 0.110
         && r.t2s == 0x3DB8_51ECu32,  // 0.09
        tissue == Tissue::Caudate ==> r.name@ == "caudate"@ && r.pd == 0x3F51_EB85u32  // 0.82
         && r.t1 == 0x3F01_47AEu32  // 0.505
         && r.t2 == 0x3DB6_45A2u32  // 0.089
         && r.t2s == 0x3DB8_51ECu32,  // 0.09
        tissue == Tissue::Thalamus ==> r.name@ == "thalamus"@ && r.pd == 0x3F51_EB85u32  // 0.82
         && r.t1 == 0x3F3A_E148u32  // 0.730
         && r.t2 == 0x3DCC_CCCDu32  // 0.1
         && r.t2s == 0x3DB8_51ECu32,  // 0.09
        tissue == Tissue::CerebroSpinalFluid ==> r.name@ == "csf"@ && r.pd == 0x3F80_0000u32  // 1.0
         && r.t1 == 0x4080_0000u32  // 4.0
         && r.t2 == 0x4000_0000u32  // 2.0
         && r.t2s == 0x3E4C_CCCDu32,  // 0.2
        tissue == Tissue::Blood ==> r.name@ == "blood"@ && r.pd == 0x3F80_0000u32  // 1.0
         && r.t1 == 0x3F8F_5C29u32  // 1.12
         && r.t2 == 0x3E85_1EB8u32  // 0.26
         && r.t2s == 0x3CF5_C28Fu32,  // 0.03
{
    match tissue {
        Tissue::WhiteMatter => TissueProperties {
            name: "wm",
            pd: 0x3F30_A3D7,
            t1: 0x3F01_47AE,
            t2: 0x3DB6_45A2,
            t2s: 0x3D8F_5C29,
        },
        Tissue::GreyMatter => TissueProperties {
            name: "gm",
            pd: 0x3F51_EB85,
            t1: 0x3F46_6666,
            t2: 0x3DE1_47AE,
            t2s: 0x3DB8_51EC,
        },
        Tissue::Caudate => TissueProperties {
            name: "caudate",
            pd: 0x3F51_EB85,
            t1: 0x3F01_47AE,
            t2: 0x3DB6_45A2,
            t2s: 0x3DB8_51EC,
        },
        Tissue::Thalamus => TissueProperties {
            name: "thalamus",
            pd: 0x3F51_EB85,
            t1: 0x3F3A_E148,
            t2: 0x3DCC_CCCD,
            t2s: 0x3DB8_51EC,
        },
        Tissue::CerebroSpinalFluid => TissueProperties {
            name: "csf",
            pd: 0x3F80_0000,
            t1: 0x4080_0000,
            t2: 0x4000_0000,
            t2s: 0x3E4C_CCCD,
        },
        Tissue::Blood => TissueProperties {
            name: "blood",
            pd: 0x3F80_0000,
            t1: 0x3F8F_5C29,
            t2: 0x3E85_1EB8,
            t2s: 0x3CF5_C28F,
        },
    }
}

} // verus!

//! Chroma fix stage parameters: chroma bleeding, dot crawl, and
//! residual combing fixes.

use vstd::prelude::*;
use crate::numfmt::Decimal;

verus! {

/// Chroma fix preset options.
#[derive(Clone, Copy, PartialEq, Eq, Structural, Debug)]
pub enum ChromaFixPreset {
    Off,
    VhsCleanup,
    BroadcastFix,
    AnalogRepair,
    Custom,
}

/// Parameters for the chroma fix stage.
#[derive(Clone, Copy, Debug)]
pub struct ChromaFixParameters {
    /// Whether this stage is enabled.
    pub enabled: bool,
    /// Preset level for simple mode.
    pub preset: ChromaFixPreset,
    /// Whether to apply the chroma bleeding fix.
    pub apply_chroma_bleeding_fix: bool,
    /// Chroma X offset correction.
    pub chroma_bleed_cx: i32,
    /// Chroma Y offset correction.
    pub chroma_bleed_cy: i32,
    /// Chroma blur strength.
    pub chroma_bleed_c_blur: Decimal,
    /// Fix strength.
    pub chroma_bleed_strength: Decimal,
    /// Whether to apply the dot crawl fix.
    pub apply_de_crawl: bool,
    /// Luma threshold for the crawl fix.
    pub de_crawl_y_thresh: i32,
    /// Chroma threshold for the crawl fix.
    pub de_crawl_c_thresh: i32,
    /// Maximum difference allowed by the crawl fix.
    pub de_crawl_max_diff: i32,
    /// Whether to apply the residual combing fix.
    pub apply_vinverse: bool,
    /// Spatial strength of the combing fix.
    pub vinverse_sstr: Decimal,
    /// Amount parameter of the combing fix.
    pub vinverse_amnt: i32,
    /// Scale parameter of the combing fix.
    pub vinverse_scl: i32,
}

/// What the default parameter set holds: disabled, with the documented
/// per-field defaults.
pub open spec fn chroma_fix_default(r: ChromaFixParameters) -> bool {
    &&& r.enabled == false
    &&& r.preset == ChromaFixPreset::Off
    &&& r.apply_chroma_bleeding_fix == false
    &&& r.chroma_bleed_cx == 4
    &&& r.chroma_bleed_cy == 4
    &&& r.chroma_bleed_c_blur.scaled == 7000
    &&& r.chroma_bleed_strength.scaled == 10000
    &&& r.apply_de_crawl == false
    &&& r.de_crawl_y_thresh == 10
    &&& r.de_crawl_c_thresh == 10
    &&& r.de_crawl_max_diff == 50
    &&& r.apply_vinverse == false
    &&& r.vinverse_sstr.scaled == 27000
    &&& r.vinverse_amnt == 255
    &&& r.vinverse_scl == 12
}

impl Default for ChromaFixParameters {
    /// A disabled chroma fix stage with the documented defaults.
    fn default() -> (r: Self)
        ensures
            chroma_fix_default(r),
    {
        ChromaFixParameters {
            enabled: false,
            preset: ChromaFixPreset::Off,
            apply_chroma_bleeding_fix: false,
            chroma_bleed_cx: 4,
            chroma_bleed_cy: 4,
            chroma_bleed_c_blur: Decimal { scaled: 7000 },
            chroma_bleed_strength: Decimal { scaled: 10000 },
            apply_de_crawl: false,
            de_crawl_y_thresh: 10,
            de_crawl_c_thresh: 10,
            de_crawl_max_diff: 50,
            apply_vinverse: false,
            vinverse_sstr: Decimal { scaled: 27000 },
            vinverse_amnt: 255,
            vinverse_scl: 12,
        }
    }
}

} // verus!

//! Deband stage parameters: removal of banding artifacts in smooth
//! gradients.

use vstd::prelude::*;

verus! {

/// Parameters for the debanding stage.
#[derive(Clone, Copy, Debug)]
pub struct DebandParameters {
    /// Whether this stage is enabled.
    pub enabled: bool,
    /// Banding detection range.
    pub range: i32,
    /// Luma debanding strength.
    pub y: i32,
    /// Chroma blue debanding strength.
    pub cb: i32,
    /// Chroma red debanding strength.
    pub cr: i32,
    /// Luma dither grain amount.
    pub grain_y: i32,
    /// Chroma dither grain amount.
    pub grain_c: i32,
    /// Whether the grain changes per frame.
    pub dynamic_grain: bool,
    /// Output bit depth.
    pub output_depth: i32,
}

/// What the default parameter set holds: disabled, with the documented
/// per-field defaults.
pub open spec fn deband_default(r: DebandParameters) -> bool {
    &&& r.enabled == false
    &&& r.range == 15
    &&& r.y == 32
    &&& r.cb == 32
    &&& r.cr == 32
    &&& r.grain_y == 24
    &&& r.grain_c == 24
    &&& r.dynamic_grain == true
    &&& r.output_depth == 16
}

impl Default for DebandParameters {
    /// A disabled debanding stage with the documented defaults.
    fn default() -> (r: Self)
        ensures
            deband_default(r),
    {
        DebandParameters {
            enabled: false,
            range: 15,
            y: 32,
            cb: 32,
            cr: 32,
            grain_y: 24,
            grain_c: 24,
            dynamic_grain: true,
            output_depth: 16,
        }
    }
}

} // verus!

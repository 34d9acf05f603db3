//! Color correction stage parameters: tweak and levels adjustments.

use vstd::prelude::*;
use crate::numfmt::Decimal;

verus! {

/// Color correction preset options.
#[derive(Clone, Copy, PartialEq, Eq, Structural, Debug)]
pub enum ColorCorrectionPreset {
    Off,
    BroadcastSafe,
    EnhanceColors,
    Desaturate,
    Custom,
}

/// Parameters for the color correction stage.
#[derive(Clone, Copy, Debug)]
pub struct ColorCorrectionParameters {
    /// Whether this stage is enabled.
    pub enabled: bool,
    /// Preset level for simple mode.
    pub preset: ColorCorrectionPreset,
    /// Brightness adjustment.
    pub brightness: Decimal,
    /// Contrast adjustment, one meaning no change.
    pub contrast: Decimal,
    /// Hue rotation in degrees.
    pub hue: Decimal,
    /// Saturation adjustment, one meaning no change.
    pub saturation: Decimal,
    /// Whether output clamps to TV range.
    pub coring: bool,
    /// Whether the levels adjustment applies.
    pub apply_levels: bool,
    /// Input black level.
    pub input_low: i32,
    /// Input white level.
    pub input_high: i32,
    /// Output black level.
    pub output_low: i32,
    /// Output white level.
    pub output_high: i32,
    /// Gamma adjustment, one meaning no change.
    pub gamma: Decimal,
}

/// What the default parameter set holds: disabled, with the documented
/// per-field defaults.
pub open spec fn color_correction_default(r: ColorCorrectionParameters) -> bool {
    &&& r.enabled == false
    &&& r.preset == ColorCorrectionPreset::Off
    &&& r.brightness.scaled == 0
    &&& r.contrast.scaled == 10000
    &&& r.hue.scaled == 0
    &&& r.saturation.scaled == 10000
    &&& r.coring == false
    &&& r.apply_levels == false
    &&& r.input_low == 0
    &&& r.input_high == 255
    &&& r.output_low == 0
    &&& r.output_high == 255
    &&& r.gamma.scaled == 10000
}

impl Default for ColorCorrectionParameters {
    /// A disabled color correction stage with the documented defaults.
    fn default() -> (r: Self)
        ensures
            color_correction_default(r),
    {
        ColorCorrectionParameters {
            enabled: false,
            preset: ColorCorrectionPreset::Off,
            brightness: Decimal { scaled: 0 },
            contrast: Decimal { scaled: 10000 },
            hue: Decimal { scaled: 0 },
            saturation: Decimal { scaled: 10000 },
            coring: false,
            apply_levels: false,
            input_low: 0,
            input_high: 255,
            output_low: 0,
            output_high: 255,
            gamma: Decimal { scaled: 10000 },
        }
    }
}

} // verus!

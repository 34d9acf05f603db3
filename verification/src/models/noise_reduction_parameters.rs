//! Noise reduction stage parameters, with a choice among competing
//! algorithms.

use vstd::prelude::*;
use vstd::string::StringSliceAdditionalSpecFns;
use vstd::string::StrSliceExecFns;
use crate::numfmt::Decimal;
use crate::text::clone_bytes;

verus! {

/// Noise reduction method options.
#[derive(Clone, Copy, PartialEq, Eq, Structural, Debug)]
pub enum NoiseReductionMethod {
    SmDegrain,
    McTemporalDenoise,
    QtgmcBuiltin,
}

/// Noise reduction preset levels.
#[derive(Clone, Copy, PartialEq, Eq, Structural, Debug)]
pub enum NoiseReductionPreset {
    Off,
    Light,
    Moderate,
    Heavy,
    Custom,
}

/// Parameters for the noise reduction stage.
#[derive(Debug)]
pub struct NoiseReductionParameters {
    /// Whether this stage is enabled.
    pub enabled: bool,
    /// Preset level for simple mode.
    pub preset: NoiseReductionPreset,
    /// Which noise reduction method runs.
    pub method: NoiseReductionMethod,
    /// Temporal radius of the motion-compensated degrainer.
    pub sm_degrain_tr: i32,
    /// Luma error threshold of the degrainer.
    pub sm_degrain_th_sad: i32,
    /// Chroma error threshold of the degrainer.
    pub sm_degrain_th_sadc: i32,
    /// Whether motion vectors are refined.
    pub sm_degrain_refine: bool,
    /// Prefilter mode of the degrainer.
    pub sm_degrain_prefilter: i32,
    /// Strength of the temporal denoiser.
    pub mc_temporal_sigma: Decimal,
    /// Temporal radius of the temporal denoiser.
    pub mc_temporal_radius: i32,
    /// Profile of the temporal denoiser.
    pub mc_temporal_profile: Vec<u8>,
    /// Built-in easy-denoise strength.
    pub qtgmc_ez_denoise: Decimal,
    /// Built-in grain retention amount.
    pub qtgmc_ez_keep_grain: Decimal,
}

/// Equivalence of two parameter sets, field by field, byte fields by
/// contents.
pub open spec fn noise_reduction_eqv(a: NoiseReductionParameters, b: NoiseReductionParameters) -> bool {
    &&& a.enabled == b.enabled
    &&& a.preset == b.preset
    &&& a.method == b.method
    &&& a.sm_degrain_tr == b.sm_degrain_tr
    &&& a.sm_degrain_th_sad == b.sm_degrain_th_sad
    &&& a.sm_degrain_th_sadc == b.sm_degrain_th_sadc
    &&& a.sm_degrain_refine == b.sm_degrain_refine
    &&& a.sm_degrain_prefilter == b.sm_degrain_prefilter
    &&& a.mc_temporal_sigma == b.mc_temporal_sigma
    &&& a.mc_temporal_radius == b.mc_temporal_radius
    &&& a.mc_temporal_profile@ == b.mc_temporal_profile@
    &&& a.qtgmc_ez_denoise == b.qtgmc_ez_denoise
    &&& a.qtgmc_ez_keep_grain == b.qtgmc_ez_keep_grain
}

impl Clone for NoiseReductionParameters {
    /// An equivalent copy.
    fn clone(&self) -> (r: Self)
        ensures
            noise_reduction_eqv(r, *self),
    {
        NoiseReductionParameters {
            enabled: self.enabled,
            preset: self.preset,
            method: self.method,
            sm_degrain_tr: self.sm_degrain_tr,
            sm_degrain_th_sad: self.sm_degrain_th_sad,
            sm_degrain_th_sadc: self.sm_degrain_th_sadc,
            sm_degrain_refine: self.sm_degrain_refine,
            sm_degrain_prefilter: self.sm_degrain_prefilter,
            mc_temporal_sigma: self.mc_temporal_sigma,
            mc_temporal_radius: self.mc_temporal_radius,
            mc_temporal_profile: clone_bytes(&self.mc_temporal_profile),
            qtgmc_ez_denoise: self.qtgmc_ez_denoise,
            qtgmc_ez_keep_grain: self.qtgmc_ez_keep_grain,
        }
    }
}

/// What the default parameter set holds: disabled, with the documented
/// per-field defaults.
pub open spec fn noise_reduction_default(r: NoiseReductionParameters) -> bool {
    &&& r.enabled == false
    &&& r.preset == NoiseReductionPreset::Off
    &&& r.method == NoiseReductionMethod::SmDegrain
    &&& r.sm_degrain_tr == 2
    &&& r.sm_degrain_th_sad == 300
    &&& r.sm_degrain_th_sadc == 150
    &&& r.sm_degrain_refine == true
    &&& r.sm_degrain_prefilter == 2
    &&& r.mc_temporal_sigma.scaled == 40000
    &&& r.mc_temporal_radius == 2
    &&& r.mc_temporal_profile@ == "fast".spec_bytes()
    &&& r.qtgmc_ez_denoise.scaled == 0
    &&& r.qtgmc_ez_keep_grain.scaled == 0
}

impl Default for NoiseReductionParameters {
    /// A disabled noise reduction stage with the documented defaults.
    fn default() -> (r: Self)
        ensures
            noise_reduction_default(r),
    {
        NoiseReductionParameters {
            enabled: false,
            preset: NoiseReductionPreset::Off,
            method: NoiseReductionMethod::SmDegrain,
            sm_degrain_tr: 2,
            sm_degrain_th_sad: 300,
            sm_degrain_th_sadc: 150,
            sm_degrain_refine: true,
            sm_degrain_prefilter: 2,
            mc_temporal_sigma: Decimal { scaled: 40000 },
            mc_temporal_radius: 2,
            mc_temporal_profile: "fast".as_bytes_vec(),
            qtgmc_ez_denoise: Decimal { scaled: 0 },
            qtgmc_ez_keep_grain: Decimal { scaled: 0 },
        }
    }
}

} // verus!

//! The ordered aggregate of all restoration stages. The stage order is
//! fixed: crop pre-pass, deinterlace, noise reduction, dehalo, deblock,
//! deband, sharpen, chroma fixes, color correction, resize post-pass.

use vstd::prelude::*;
use super::chroma_fix_parameters::{chroma_fix_default, ChromaFixParameters};
use super::color_correction_parameters::{color_correction_default, ColorCorrectionParameters};
use super::crop_resize_parameters::{crop_resize_default, CropResizeParameters};
use super::deband_parameters::{deband_default, DebandParameters};
use super::deblock_parameters::{deblock_default, DeblockParameters};
use super::dehalo_parameters::{dehalo_default, DehaloParameters};
use super::noise_reduction_parameters::{
    noise_reduction_default, noise_reduction_eqv, NoiseReductionParameters,
};
use super::qtgmc_parameters::{qtgmc_default, qtgmc_eqv, QTGMCParameters};
use super::sharpen_parameters::{sharpen_default, SharpenParameters};

verus! {

/// The kind of a restoration pass.
#[derive(Clone, Copy, PartialEq, Eq, Structural, Debug)]
pub enum PassType {
    Deinterlace,
    NoiseReduction,
    ColorCorrection,
    ChromaFixes,
    CropResize,
}

impl PassType {
    pub open spec fn spec_display_name(self) -> Seq<char> {
        match self {
            PassType::Deinterlace => "Deinterlace"@,
            PassType::NoiseReduction => "Noise Reduction"@,
            PassType::ColorCorrection => "Color Correction"@,
            PassType::ChromaFixes => "Chroma Fixes"@,
            PassType::CropResize => "Crop / Resize"@,
        }
    }

    /// Human-readable name of the pass.
    pub fn display_name(&self) -> (r: &'static str)
        ensures
            r@ == self.spec_display_name(),
    {
        match self {
            PassType::Deinterlace => "Deinterlace",
            PassType::NoiseReduction => "Noise Reduction",
            PassType::ColorCorrection => "Color Correction",
            PassType::ChromaFixes => "Chroma Fixes",
            PassType::CropResize => "Crop / Resize",
        }
    }

    pub open spec fn spec_description(self) -> Seq<char> {
        match self {
            PassType::Deinterlace => "Remove interlacing artifacts using QTGMC"@,
            PassType::NoiseReduction => "Reduce video noise and grain"@,
            PassType::ColorCorrection => "Adjust brightness, contrast, and colors"@,
            PassType::ChromaFixes => "Fix chroma bleeding and crawl artifacts"@,
            PassType::CropResize => "Crop borders and resize output"@,
        }
    }

    /// Human-readable description of the pass.
    pub fn description(&self) -> (r: &'static str)
        ensures
            r@ == self.spec_description(),
    {
        match self {
            PassType::Deinterlace => "Remove interlacing artifacts using QTGMC",
            PassType::NoiseReduction => "Reduce video noise and grain",
            PassType::ColorCorrection => "Adjust brightness, contrast, and colors",
            PassType::ChromaFixes => "Fix chroma bleeding and crawl artifacts",
            PassType::CropResize => "Crop borders and resize output",
        }
    }
}

/// All restoration stage parameters of one pipeline.
#[derive(Debug)]
pub struct RestorationPipeline {
    /// Deinterlacing stage parameters.
    pub deinterlace: QTGMCParameters,
    /// Noise reduction stage parameters.
    pub noise_reduction: NoiseReductionParameters,
    /// Dehalo stage parameters.
    pub dehalo: DehaloParameters,
    /// Deblock stage parameters.
    pub deblock: DeblockParameters,
    /// Deband stage parameters.
    pub deband: DebandParameters,
    /// Sharpen stage parameters.
    pub sharpen: SharpenParameters,
    /// Chroma fix stage parameters.
    pub chroma_fixes: ChromaFixParameters,
    /// Color correction stage parameters.
    pub color_correction: ColorCorrectionParameters,
    /// Crop and resize stage parameters.
    pub crop_resize: CropResizeParameters,
}

/// Equivalence of two pipelines, stage by stage.
pub open spec fn pipeline_eqv(a: RestorationPipeline, b: RestorationPipeline) -> bool {
    &&& qtgmc_eqv(a.deinterlace, b.deinterlace)
    &&& noise_reduction_eqv(a.noise_reduction, b.noise_reduction)
    &&& a.dehalo == b.dehalo
    &&& a.deblock == b.deblock
    &&& a.deband == b.deband
    &&& a.sharpen == b.sharpen
    &&& a.chroma_fixes == b.chroma_fixes
    &&& a.color_correction == b.color_correction
    &&& a.crop_resize == b.crop_resize
}

impl Clone for RestorationPipeline {
    /// An equivalent copy.
    fn clone(&self) -> (r: Self)
        ensures
            pipeline_eqv(r, *self),
    {
        RestorationPipeline {
            deinterlace: self.deinterlace.clone(),
            noise_reduction: self.noise_reduction.clone(),
            dehalo: self.dehalo,
            deblock: self.deblock,
            deband: self.deband,
            sharpen: self.sharpen,
            chroma_fixes: self.chroma_fixes,
            color_correction: self.color_correction,
            crop_resize: self.crop_resize,
        }
    }
}

impl Default for RestorationPipeline {
    /// The default pipeline: deinterlace at its defaults, every other
    /// stage disabled at its defaults.
    fn default() -> (r: Self)
        ensures
            qtgmc_default(r.deinterlace),
            noise_reduction_default(r.noise_reduction),
            dehalo_default(r.dehalo),
            deblock_default(r.deblock),
            deband_default(r.deband),
            sharpen_default(r.sharpen),
            chroma_fix_default(r.chroma_fixes),
            color_correction_default(r.color_correction),
            crop_resize_default(r.crop_resize),
    {
        RestorationPipeline {
            deinterlace: Default::default(),
            noise_reduction: Default::default(),
            dehalo: Default::default(),
            deblock: Default::default(),
            deband: Default::default(),
            sharpen: Default::default(),
            chroma_fixes: Default::default(),
            color_correction: Default::default(),
            crop_resize: Default::default(),
        }
    }
}

impl RestorationPipeline {
    /// What a pipeline synthesized from single-stage parameters holds:
    /// those deinterlace parameters and every other stage disabled at
    /// its defaults.
    pub open spec fn spec_is_legacy(r: RestorationPipeline, q: QTGMCParameters) -> bool {
        &&& qtgmc_eqv(r.deinterlace, q)
        &&& noise_reduction_default(r.noise_reduction)
        &&& dehalo_default(r.dehalo)
        &&& deblock_default(r.deblock)
        &&& deband_default(r.deband)
        &&& sharpen_default(r.sharpen)
        &&& chroma_fix_default(r.chroma_fixes)
        &&& color_correction_default(r.color_correction)
        &&& crop_resize_default(r.crop_resize)
    }

    /// A pipeline synthesized from single-stage deinterlace parameters,
    /// with every other stage disabled.
    pub fn from_legacy(qtgmc_params: &QTGMCParameters) -> (r: Self)
        ensures
            Self::spec_is_legacy(r, *qtgmc_params),
    {
        RestorationPipeline {
            deinterlace: qtgmc_params.clone(),
            noise_reduction: Default::default(),
            dehalo: Default::default(),
            deblock: Default::default(),
            deband: Default::default(),
            sharpen: Default::default(),
            chroma_fixes: Default::default(),
            color_correction: Default::default(),
            crop_resize: Default::default(),
        }
    }

    /// The enabled passes, in the order they run: a crop pre-pass
    /// first, a resize post-pass last and only when no crop pre-pass
    /// already stands for the stage.
    pub open spec fn spec_enabled_passes(self) -> Seq<PassType> {
        let crop = if self.crop_resize.enabled && self.crop_resize.crop_enabled {
            seq![PassType::CropResize]
        } else {
            Seq::empty()
        };
        let dei = if self.deinterlace.enabled {
            seq![PassType::Deinterlace]
        } else {
            Seq::empty()
        };
        let nr = if self.noise_reduction.enabled {
            seq![PassType::NoiseReduction]
        } else {
            Seq::empty()
        };
        let chroma = if self.chroma_fixes.enabled {
            seq![PassType::ChromaFixes]
        } else {
            Seq::empty()
        };
        let color = if self.color_correction.enabled {
            seq![PassType::ColorCorrection]
        } else {
            Seq::empty()
        };
        let resize = if self.crop_resize.enabled && self.crop_resize.resize_enabled && !(
        self.crop_resize.enabled && self.crop_resize.crop_enabled) {
            seq![PassType::CropResize]
        } else {
            Seq::empty()
        };
        crop + dei + nr + chroma + color + resize
    }

    /// The enabled passes in running order.
    pub fn enabled_passes(&self) -> (r: Vec<PassType>)
        ensures
            r@ == self.spec_enabled_passes(),
    {
        let mut passes: Vec<PassType> = Vec::new();
        let has_crop = self.crop_resize.enabled && self.crop_resize.crop_enabled;
        if has_crop {
            passes.push(PassType::CropResize);
        }
        if self.deinterlace.enabled {
            passes.push(PassType::Deinterlace);
        }
        if self.noise_reduction.enabled {
            passes.push(PassType::NoiseReduction);
        }
        if self.chroma_fixes.enabled {
            passes.push(PassType::ChromaFixes);
        }
        if self.color_correction.enabled {
            passes.push(PassType::ColorCorrection);
        }
        if self.crop_resize.enabled && self.crop_resize.resize_enabled && !has_crop {
            passes.push(PassType::CropResize);
        }
        proof {
            assert(passes@ =~= self.spec_enabled_passes());
        }
        passes
    }

    /// How many stages are enabled, over the five pass kinds.
    pub fn enabled_pass_count(&self) -> (r: usize)
        ensures
            r == (if self.deinterlace.enabled {
                1int
            } else {
                0int
            }) + (if self.noise_reduction.enabled {
                1int
            } else {
                0int
            }) + (if self.color_correction.enabled {
                1int
            } else {
                0int
            }) + (if self.chroma_fixes.enabled {
                1int
            } else {
                0int
            }) + (if self.crop_resize.enabled {
                1int
            } else {
                0int
            }),
    {
        let mut count: usize = 0;
        if self.deinterlace.enabled {
            count = count + 1;
        }
        if self.noise_reduction.enabled {
            count = count + 1;
        }
        if self.color_correction.enabled {
            count = count + 1;
        }
        if self.chroma_fixes.enabled {
            count = count + 1;
        }
        if self.crop_resize.enabled {
            count = count + 1;
        }
        count
    }

    /// Whether the given pass is enabled.
    pub fn is_pass_enabled(&self, pass: PassType) -> (r: bool)
        ensures
            r == match pass {
                PassType::Deinterlace => self.deinterlace.enabled,
                PassType::NoiseReduction => self.noise_reduction.enabled,
                PassType::ColorCorrection => self.color_correction.enabled,
                PassType::ChromaFixes => self.chroma_fixes.enabled,
                PassType::CropResize => self.crop_resize.enabled,
            },
    {
        match pass {
            PassType::Deinterlace => self.deinterlace.enabled,
            PassType::NoiseReduction => self.noise_reduction.enabled,
            PassType::ColorCorrection => self.color_correction.enabled,
            PassType::ChromaFixes => self.chroma_fixes.enabled,
            PassType::CropResize => self.crop_resize.enabled,
        }
    }
}

} // verus!

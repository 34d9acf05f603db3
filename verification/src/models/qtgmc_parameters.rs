//! Deinterlace stage parameters: the full tunable set of the
//! motion-compensated deinterlacer, each with its documented default.

use vstd::prelude::*;
use vstd::string::StringSliceAdditionalSpecFns;
use crate::numfmt::Decimal;
use crate::text::clone_bytes;

verus! {

/// Quality and speed presets of the deinterlacer.
#[derive(Clone, Copy, PartialEq, Eq, Structural, Debug)]
pub enum QTGMCPreset {
    Placebo,
    VerySlow,
    Slower,
    Slow,
    Medium,
    Fast,
    Faster,
    VeryFast,
    SuperFast,
    UltraFast,
    Draft,
}

impl QTGMCPreset {
    pub open spec fn spec_name(self) -> Seq<char> {
        match self {
            QTGMCPreset::Placebo => "Placebo"@,
            QTGMCPreset::VerySlow => "Very Slow"@,
            QTGMCPreset::Slower => "Slower"@,
            QTGMCPreset::Slow => "Slow"@,
            QTGMCPreset::Medium => "Medium"@,
            QTGMCPreset::Fast => "Fast"@,
            QTGMCPreset::Faster => "Faster"@,
            QTGMCPreset::VeryFast => "Very Fast"@,
            QTGMCPreset::SuperFast => "Super Fast"@,
            QTGMCPreset::UltraFast => "Ultra Fast"@,
            QTGMCPreset::Draft => "Draft"@,
        }
    }

    /// The preset's name in the scripting environment.
    pub fn as_str(&self) -> (r: &'static str)
        ensures
            r@ == self.spec_name(),
    {
        match self {
            QTGMCPreset::Placebo => "Placebo",
            QTGMCPreset::VerySlow => "Very Slow",
            QTGMCPreset::Slower => "Slower",
            QTGMCPreset::Slow => "Slow",
            QTGMCPreset::Medium => "Medium",
            QTGMCPreset::Fast => "Fast",
            QTGMCPreset::Faster => "Faster",
            QTGMCPreset::VeryFast => "Very Fast",
            QTGMCPreset::SuperFast => "Super Fast",
            QTGMCPreset::UltraFast => "Ultra Fast",
            QTGMCPreset::Draft => "Draft",
        }
    }

    pub open spec fn spec_name_bytes(self) -> Seq<u8> {
        match self {
            QTGMCPreset::Placebo => "Placebo".spec_bytes(),
            QTGMCPreset::VerySlow => "Very Slow".spec_bytes(),
            QTGMCPreset::Slower => "Slower".spec_bytes(),
            QTGMCPreset::Slow => "Slow".spec_bytes(),
            QTGMCPreset::Medium => "Medium".spec_bytes(),
            QTGMCPreset::Fast => "Fast".spec_bytes(),
            QTGMCPreset::Faster => "Faster".spec_bytes(),
            QTGMCPreset::VeryFast => "Very Fast".spec_bytes(),
            QTGMCPreset::SuperFast => "Super Fast".spec_bytes(),
            QTGMCPreset::UltraFast => "Ultra Fast".spec_bytes(),
            QTGMCPreset::Draft => "Draft".spec_bytes(),
        }
    }

    /// The preset's name as script text.
    pub fn name_bytes(&self) -> (r: Vec<u8>)
        ensures
            r@ == self.spec_name_bytes(),
    {
        match self {
            QTGMCPreset::Placebo => vstd::string::StrSliceExecFns::as_bytes_vec("Placebo"),
            QTGMCPreset::VerySlow => vstd::string::StrSliceExecFns::as_bytes_vec("Very Slow"),
            QTGMCPreset::Slower => vstd::string::StrSliceExecFns::as_bytes_vec("Slower"),
            QTGMCPreset::Slow => vstd::string::StrSliceExecFns::as_bytes_vec("Slow"),
            QTGMCPreset::Medium => vstd::string::StrSliceExecFns::as_bytes_vec("Medium"),
            QTGMCPreset::Fast => vstd::string::StrSliceExecFns::as_bytes_vec("Fast"),
            QTGMCPreset::Faster => vstd::string::StrSliceExecFns::as_bytes_vec("Faster"),
            QTGMCPreset::VeryFast => vstd::string::StrSliceExecFns::as_bytes_vec("Very Fast"),
            QTGMCPreset::SuperFast => vstd::string::StrSliceExecFns::as_bytes_vec("Super Fast"),
            QTGMCPreset::UltraFast => vstd::string::StrSliceExecFns::as_bytes_vec("Ultra Fast"),
            QTGMCPreset::Draft => vstd::string::StrSliceExecFns::as_bytes_vec("Draft"),
        }
    }

    pub open spec fn spec_description(self) -> Seq<char> {
        match self {
            QTGMCPreset::Placebo => "Highest quality, very slow"@,
            QTGMCPreset::VerySlow => "Excellent quality, slow"@,
            QTGMCPreset::Slower => "Very high quality (recommended)"@,
            QTGMCPreset::Slow => "High quality, moderate speed"@,
            QTGMCPreset::Medium => "Good quality, faster"@,
            QTGMCPreset::Fast => "Fair quality, fast"@,
            QTGMCPreset::Faster => "Lower quality, very fast"@,
            QTGMCPreset::VeryFast => "Basic quality, very fast"@,
            QTGMCPreset::SuperFast => "Minimal quality, fastest"@,
            QTGMCPreset::UltraFast => "Lowest quality (uses yadif)"@,
            QTGMCPreset::Draft => "Testing only"@,
        }
    }

    /// Human-readable description of the preset.
    pub fn description(&self) -> (r: &'static str)
        ensures
            r@ == self.spec_description(),
    {
        match self {
            QTGMCPreset::Placebo => "Highest quality, very slow",
            QTGMCPreset::VerySlow => "Excellent quality, slow",
            QTGMCPreset::Slower => "Very high quality (recommended)",
            QTGMCPreset::Slow => "High quality, moderate speed",
            QTGMCPreset::Medium => "Good quality, faster",
            QTGMCPreset::Fast => "Fair quality, fast",
            QTGMCPreset::Faster => "Lower quality, very fast",
            QTGMCPreset::VeryFast => "Basic quality, very fast",
            QTGMCPreset::SuperFast => "Minimal quality, fastest",
            QTGMCPreset::UltraFast => "Lowest quality (uses yadif)",
            QTGMCPreset::Draft => "Testing only",
        }
    }
}

/// Equivalence of two optional byte strings by contents.
pub open spec fn opt_bytes_eqv(a: Option<Vec<u8>>, b: Option<Vec<u8>>) -> bool {
    match (a, b) {
        (Option::Some(x), Option::Some(y)) => x@ == y@,
        (Option::None, Option::None) => true,
        _ => false,
    }
}

/// A copy of an optional byte string with the same contents.
pub fn clone_opt_bytes(v: &Option<Vec<u8>>) -> (r: Option<Vec<u8>>)
    ensures
        opt_bytes_eqv(r, *v),
{
    match v {
        Option::Some(x) => Option::Some(clone_bytes(x)),
        Option::None => Option::None,
    }
}

/// The deinterlacer's parameters. Absent optional values mean the
/// preset's own defaults.
#[derive(Debug)]
pub struct QTGMCParameters {
    /// Whether this stage is enabled.
    pub enabled: bool,
    /// Master quality and speed preset.
    pub preset: QTGMCPreset,
    /// Input type: interlaced, progressive, or progressive with combing.
    pub input_type: i32,
    /// Top field first; absent means auto-detect.
    pub tff: Option<bool>,
    /// Output frame rate divisor: one keeps double rate, two halves it.
    pub fps_divisor: i32,
    /// Temporal radius for pre-filtering.
    pub tr0: Option<i32>,
    /// Temporal radius for motion analysis.
    pub tr1: Option<i32>,
    /// Temporal radius for final smoothing.
    pub tr2: Option<i32>,
    /// Repair mode after the first smoothing.
    pub rep0: Option<i32>,
    /// Repair mode after the second smoothing.
    pub rep1: i32,
    /// Repair mode after the final smoothing.
    pub rep2: Option<i32>,
    /// Whether chroma joins the repair.
    pub rep_chroma: bool,
    /// Edge interpolation mode.
    pub edi_mode: Option<Vec<u8>>,
    /// Predictor neural network size.
    pub nn_size: Option<i32>,
    /// Number of neurons.
    pub nn_neurons: Option<i32>,
    /// Interpolation quality.
    pub edi_qual: i32,
    /// Maximum interpolation search distance.
    pub edi_max_d: Option<i32>,
    /// Chroma interpolation method.
    pub chroma_edi: Vec<u8>,
    /// Motion analysis block size.
    pub block_size: Option<i32>,
    /// Block overlap.
    pub overlap: Option<i32>,
    /// Search algorithm.
    pub search: Option<i32>,
    /// Search parameter.
    pub search_param: Option<i32>,
    /// Sub-pixel search accuracy.
    pub pel_search: Option<i32>,
    /// Whether chroma joins motion analysis.
    pub chroma_motion: Option<bool>,
    /// Whether true-motion estimation runs.
    pub true_motion: bool,
    /// Motion vector cost weighting.
    pub lambda: Option<i32>,
    /// Least-squares adaptive distance.
    pub lsad: Option<i32>,
    /// Penalty for new motion vectors.
    pub p_new: Option<i32>,
    /// Penalty level.
    pub p_level: Option<i32>,
    /// Whether global motion analysis runs.
    pub global_motion: bool,
    /// Transform mode for motion analysis.
    pub dct: i32,
    /// Sub-pixel accuracy.
    pub sub_pel: Option<i32>,
    /// Sub-pixel interpolation method.
    pub sub_pel_interp: i32,
    /// Error threshold for the first temporal smoothing.
    pub th_sad1: i32,
    /// Error threshold for the second temporal smoothing.
    pub th_sad2: i32,
    /// First scene change detection threshold.
    pub th_scd1: i32,
    /// Second scene change detection threshold.
    pub th_scd2: i32,
    /// Output sharpness.
    pub sharpness: Option<Decimal>,
    /// Sharpening mode.
    pub s_mode: Option<i32>,
    /// Sharpness limiting mode.
    pub sl_mode: Option<i32>,
    /// Sharpness limiting radius.
    pub sl_rad: Option<i32>,
    /// Sharpening overshoot.
    pub s_ovs: i32,
    /// Thin line sharpening.
    pub sv_thin: Decimal,
    /// Sharpening back-blend mode.
    pub sbb: Option<i32>,
    /// Search clip preprocessing.
    pub srch_clip_pp: Option<i32>,
    /// Noise processing mode.
    pub noise_process: Option<i32>,
    /// Easy denoise strength.
    pub ez_denoise: Option<Decimal>,
    /// Easy grain retention amount.
    pub ez_keep_grain: Option<Decimal>,
    /// Noise estimation preset.
    pub noise_preset: Vec<u8>,
    /// Denoiser plugin.
    pub denoiser: Option<Vec<u8>>,
    /// Denoiser thread count.
    pub fft_threads: i32,
    /// Whether denoising is motion compensated.
    pub denoise_mc: Option<bool>,
    /// Noise temporal radius.
    pub noise_tr: Option<i32>,
    /// Denoising strength.
    pub sigma: Option<Decimal>,
    /// Whether denoising covers chroma.
    pub chroma_noise: bool,
    /// Noise display amount, for diagnosis.
    pub show_noise: Decimal,
    /// Grain restoration amount.
    pub grain_restore: Option<Decimal>,
    /// Noise restoration amount.
    pub noise_restore: Option<Decimal>,
    /// Noise deinterlacing method.
    pub noise_deint: Option<Vec<u8>>,
    /// Whether noise is stabilized.
    pub stabilize_noise: Option<bool>,
    /// Source matching mode.
    pub source_match: i32,
    /// Interpolation preset for the first matching pass.
    pub match_preset: Option<Vec<u8>>,
    /// Interpolation method for the first matching pass.
    pub match_edi: Option<Vec<u8>>,
    /// Interpolation preset for the second matching pass.
    pub match_preset2: Option<Vec<u8>>,
    /// Interpolation method for the second matching pass.
    pub match_edi2: Option<Vec<u8>>,
    /// Temporal radius for the matching output.
    pub match_tr2: i32,
    /// Source match enhancement.
    pub match_enhance: Decimal,
    /// Lossless mode.
    pub lossless: i32,
    /// Whether borders help edge interpolation.
    pub border: bool,
    /// Whether precise mode runs.
    pub precise: Option<bool>,
    /// Forced minimum temporal radius for motion vectors.
    pub force_tr: i32,
    /// Pre-filter brightening strength.
    pub str: Decimal,
    /// Pre-filter amplitude.
    pub amp: Decimal,
    /// Whether motion analysis runs fast.
    pub fast_ma: bool,
    /// Whether the extended pixel-level search runs.
    pub e_search_p: bool,
    /// Whether motion estimation is refined.
    pub refine_motion: bool,
    /// Whether GPU acceleration runs.
    pub opencl: bool,
    /// GPU device index.
    pub device: Option<i32>,
}

/// Equivalence of two parameter sets, field by field, byte fields by
/// contents.
pub open spec fn qtgmc_eqv(a: QTGMCParameters, b: QTGMCParameters) -> bool {
    &&& a.enabled == b.enabled
    &&& a.preset == b.preset
    &&& a.input_type == b.input_type
    &&& a.tff == b.tff
    &&& a.fps_divisor == b.fps_divisor
    &&& a.tr0 == b.tr0
    &&& a.tr1 == b.tr1
    &&& a.tr2 == b.tr2
    &&& a.rep0 == b.rep0
    &&& a.rep1 == b.rep1
    &&& a.rep2 == b.rep2
    &&& a.rep_chroma == b.rep_chroma
    &&& opt_bytes_eqv(a.edi_mode, b.edi_mode)
    &&& a.nn_size == b.nn_size
    &&& a.nn_neurons == b.nn_neurons
    &&& a.edi_qual == b.edi_qual
    &&& a.edi_max_d == b.edi_max_d
    &&& a.chroma_edi@ == b.chroma_edi@
    &&& a.block_size == b.block_size
    &&& a.overlap == b.overlap
    &&& a.search == b.search
    &&& a.search_param == b.search_param
    &&& a.pel_search == b.pel_search
    &&& a.chroma_motion == b.chroma_motion
    &&& a.true_motion == b.true_motion
    &&& a.lambda == b.lambda
    &&& a.lsad == b.lsad
    &&& a.p_new == b.p_new
    &&& a.p_level == b.p_level
    &&& a.global_motion == b.global_motion
    &&& a.dct == b.dct
    &&& a.sub_pel == b.sub_pel
    &&& a.sub_pel_interp == b.sub_pel_interp
    &&& a.th_sad1 == b.th_sad1
    &&& a.th_sad2 == b.th_sad2
    &&& a.th_scd1 == b.th_scd1
    &&& a.th_scd2 == b.th_scd2
    &&& a.sharpness == b.sharpness
    &&& a.s_mode == b.s_mode
    &&& a.sl_mode == b.sl_mode
    &&& a.sl_rad == b.sl_rad
    &&& a.s_ovs == b.s_ovs
    &&& a.sv_thin == b.sv_thin
    &&& a.sbb == b.sbb
    &&& a.srch_clip_pp == b.srch_clip_pp
    &&& a.noise_process == b.noise_process
    &&& a.ez_denoise == b.ez_denoise
    &&& a.ez_keep_grain == b.ez_keep_grain
    &&& a.noise_preset@ == b.noise_preset@
    &&& opt_bytes_eqv(a.denoiser, b.denoiser)
    &&& a.fft_threads == b.fft_threads
    &&& a.denoise_mc == b.denoise_mc
    &&& a.noise_tr == b.noise_tr
    &&& a.sigma == b.sigma
    &&& a.chroma_noise == b.chroma_noise
    &&& a.show_noise == b.show_noise
    &&& a.grain_restore == b.grain_restore
    &&& a.noise_restore == b.noise_restore
    &&& opt_bytes_eqv(a.noise_deint, b.noise_deint)
    &&& a.stabilize_noise == b.stabilize_noise
    &&& a.source_match == b.source_match
    &&& opt_bytes_eqv(a.match_preset, b.match_preset)
    &&& opt_bytes_eqv(a.match_edi, b.match_edi)
    &&& opt_bytes_eqv(a.match_preset2, b.match_preset2)
    &&& opt_bytes_eqv(a.match_edi2, b.match_edi2)
    &&& a.match_tr2 == b.match_tr2
    &&& a.match_enhance == b.match_enhance
    &&& a.lossless == b.lossless
    &&& a.border == b.border
    &&& a.precise == b.precise
    &&& a.force_tr == b.force_tr
    &&& a.str == b.str
    &&& a.amp == b.amp
    &&& a.fast_ma == b.fast_ma
    &&& a.e_search_p == b.e_search_p
    &&& a.refine_motion == b.refine_motion
    &&& a.opencl == b.opencl
    &&& a.device == b.device
}

impl Clone for QTGMCParameters {
    /// An equivalent copy.
    fn clone(&self) -> (r: Self)
        ensures
            qtgmc_eqv(r, *self),
    {
        QTGMCParameters {
            enabled: self.enabled,
            preset: self.preset,
            input_type: self.input_type,
            tff: self.tff,
            fps_divisor: self.fps_divisor,
            tr0: self.tr0,
            tr1: self.tr1,
            tr2: self.tr2,
            rep0: self.rep0,
            rep1: self.rep1,
            rep2: self.rep2,
            rep_chroma: self.rep_chroma,
            edi_mode: clone_opt_bytes(&self.edi_mode),
            nn_size: self.nn_size,
            nn_neurons: self.nn_neurons,
            edi_qual: self.edi_qual,
            edi_max_d: self.edi_max_d,
            chroma_edi: clone_bytes(&self.chroma_edi),
            block_size: self.block_size,
            overlap: self.overlap,
            search: self.search,
            search_param: self.search_param,
            pel_search: self.pel_search,
            chroma_motion: self.chroma_motion,
            true_motion: self.true_motion,
            lambda: self.lambda,
            lsad: self.lsad,
            p_new: self.p_new,
            p_level: self.p_level,
            global_motion: self.global_motion,
            dct: self.dct,
            sub_pel: self.sub_pel,
            sub_pel_interp: self.sub_pel_interp,
            th_sad1: self.th_sad1,
            th_sad2: self.th_sad2,
            th_scd1: self.th_scd1,
            th_scd2: self.th_scd2,
            sharpness: self.sharpness,
            s_mode: self.s_mode,
            sl_mode: self.sl_mode,
            sl_rad: self.sl_rad,
            s_ovs: self.s_ovs,
            sv_thin: self.sv_thin,
            sbb: self.sbb,
            srch_clip_pp: self.srch_clip_pp,
            noise_process: self.noise_process,
            ez_denoise: self.ez_denoise,
            ez_keep_grain: self.ez_keep_grain,
            noise_preset: clone_bytes(&self.noise_preset),
            denoiser: clone_opt_bytes(&self.denoiser),
            fft_threads: self.fft_threads,
            denoise_mc: self.denoise_mc,
            noise_tr: self.noise_tr,
            sigma: self.sigma,
            chroma_noise: self.chroma_noise,
            show_noise: self.show_noise,
            grain_restore: self.grain_restore,
            noise_restore: self.noise_restore,
            noise_deint: clone_opt_bytes(&self.noise_deint),
            stabilize_noise: self.stabilize_noise,
            source_match: self.source_match,
            match_preset: clone_opt_bytes(&self.match_preset),
            match_edi: clone_opt_bytes(&self.match_edi),
            match_preset2: clone_opt_bytes(&self.match_preset2),
            match_edi2: clone_opt_bytes(&self.match_edi2),
            match_tr2: self.match_tr2,
            match_enhance: self.match_enhance,
            lossless: self.lossless,
            border: self.border,
            precise: self.precise,
            force_tr: self.force_tr,
            str: self.str,
            amp: self.amp,
            fast_ma: self.fast_ma,
            e_search_p: self.e_search_p,
            refine_motion: self.refine_motion,
            opencl: self.opencl,
            device: self.device,
        }
    }
}

/// What the default parameter set holds: enabled, on the recommended
/// preset, with every tunable at its documented default.
pub open spec fn qtgmc_default(r: QTGMCParameters) -> bool {
    &&& r.enabled == true
    &&& r.preset == QTGMCPreset::Slower
    &&& r.input_type == 0
    &&& r.tff == None::<bool>
    &&& r.fps_divisor == 1
    &&& r.tr0 == None::<i32>
    &&& r.tr1 == None::<i32>
    &&& r.tr2 == None::<i32>
    &&& r.rep0 == None::<i32>
    &&& r.rep1 == 0
    &&& r.rep2 == None::<i32>
    &&& r.rep_chroma == true
    &&& r.edi_mode == None::<Vec<u8>>
    &&& r.nn_size == None::<i32>
    &&& r.nn_neurons == None::<i32>
    &&& r.edi_qual == 1
    &&& r.edi_max_d == None::<i32>
    &&& r.chroma_edi@ == Seq::<u8>::empty()
    &&& r.block_size == None::<i32>
    &&& r.overlap == None::<i32>
    &&& r.search == None::<i32>
    &&& r.search_param == None::<i32>
    &&& r.pel_search == None::<i32>
    &&& r.chroma_motion == None::<bool>
    &&& r.true_motion == false
    &&& r.lambda == None::<i32>
    &&& r.lsad == None::<i32>
    &&& r.p_new == None::<i32>
    &&& r.p_level == None::<i32>
    &&& r.global_motion == true
    &&& r.dct == 0
    &&& r.sub_pel == None::<i32>
    &&& r.sub_pel_interp == 2
    &&& r.th_sad1 == 640
    &&& r.th_sad2 == 256
    &&& r.th_scd1 == 180
    &&& r.th_scd2 == 98
    &&& r.sharpness == None::<Decimal>
    &&& r.s_mode == None::<i32>
    &&& r.sl_mode == None::<i32>
    &&& r.sl_rad == None::<i32>
    &&& r.s_ovs == 0
    &&& r.sv_thin.scaled == 0
    &&& r.sbb == None::<i32>
    &&& r.srch_clip_pp == None::<i32>
    &&& r.noise_process == None::<i32>
    &&& r.ez_denoise == None::<Decimal>
    &&& r.ez_keep_grain == None::<Decimal>
    &&& r.noise_preset@ == "Fast".spec_bytes()
    &&& r.denoiser == None::<Vec<u8>>
    &&& r.fft_threads == 1
    &&& r.denoise_mc == None::<bool>
    &&& r.noise_tr == None::<i32>
    &&& r.sigma == None::<Decimal>
    &&& r.chroma_noise == false
    &&& r.show_noise.scaled == 0
    &&& r.grain_restore == None::<Decimal>
    &&& r.noise_restore == None::<Decimal>
    &&& r.noise_deint == None::<Vec<u8>>
    &&& r.stabilize_noise == None::<bool>
    &&& r.source_match == 0
    &&& r.match_preset == None::<Vec<u8>>
    &&& r.match_edi == None::<Vec<u8>>
    &&& r.match_preset2 == None::<Vec<u8>>
    &&& r.match_edi2 == None::<Vec<u8>>
    &&& r.match_tr2 == 1
    &&& r.match_enhance.scaled == 5000
    &&& r.lossless == 0
    &&& r.border == false
    &&& r.precise == None::<bool>
    &&& r.force_tr == 0
    &&& r.str.scaled == 20000
    &&& r.amp.scaled == 625
    &&& r.fast_ma == false
    &&& r.e_search_p == false
    &&& r.refine_motion == false
    &&& r.opencl == false
    &&& r.device == None::<i32>
}

impl Default for QTGMCParameters {
    /// The enabled stage with the documented defaults.
    fn default() -> (r: Self)
        ensures
            qtgmc_default(r),
    {
        QTGMCParameters {
            enabled: true,
            preset: QTGMCPreset::Slower,
            input_type: 0,
            tff: None,
            fps_divisor: 1,
            tr0: None,
            tr1: None,
            tr2: None,
            rep0: None,
            rep1: 0,
            rep2: None,
            rep_chroma: true,
            edi_mode: None,
            nn_size: None,
            nn_neurons: None,
            edi_qual: 1,
            edi_max_d: None,
            chroma_edi: Vec::new(),
            block_size: None,
            overlap: None,
            search: None,
            search_param: None,
            pel_search: None,
            chroma_motion: None,
            true_motion: false,
            lambda: None,
            lsad: None,
            p_new: None,
            p_level: None,
            global_motion: true,
            dct: 0,
            sub_pel: None,
            sub_pel_interp: 2,
            th_sad1: 640,
            th_sad2: 256,
            th_scd1: 180,
            th_scd2: 98,
            sharpness: None,
            s_mode: None,
            sl_mode: None,
            sl_rad: None,
            s_ovs: 0,
            sv_thin: Decimal { scaled: 0 },
            sbb: None,
            srch_clip_pp: None,
            noise_process: None,
            ez_denoise: None,
            ez_keep_grain: None,
            noise_preset: fast_preset_name(),
            denoiser: None,
            fft_threads: 1,
            denoise_mc: None,
            noise_tr: None,
            sigma: None,
            chroma_noise: false,
            show_noise: Decimal { scaled: 0 },
            grain_restore: None,
            noise_restore: None,
            noise_deint: None,
            stabilize_noise: None,
            source_match: 0,
            match_preset: None,
            match_edi: None,
            match_preset2: None,
            match_edi2: None,
            match_tr2: 1,
            match_enhance: Decimal { scaled: 5000 },
            lossless: 0,
            border: false,
            precise: None,
            force_tr: 0,
            str: Decimal { scaled: 20000 },
            amp: Decimal { scaled: 625 },
            fast_ma: false,
            e_search_p: false,
            refine_motion: false,
            opencl: false,
            device: None,
        }
    }
}

/// The default noise estimation preset's name.
fn fast_preset_name() -> (r: Vec<u8>)
    ensures
        r@ == "Fast".spec_bytes(),
{
    vstd::string::StrSliceExecFns::as_bytes_vec("Fast")
}

} // verus!

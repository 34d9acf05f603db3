//! Crop and resize stage parameters: a crop pre-pass and a resize
//! post-pass.

use vstd::prelude::*;

verus! {

/// Resize kernel options.
#[derive(Clone, Copy, PartialEq, Eq, Structural, Debug)]
pub enum ResizeKernel {
    Spline36,
    Lanczos,
    Bicubic,
    Bilinear,
    Nnedi3,
    Eedi3,
}

impl ResizeKernel {
    pub open spec fn spec_vs_function(self) -> Seq<char> {
        match self {
            ResizeKernel::Spline36 => "core.resize.Spline36"@,
            ResizeKernel::Lanczos => "core.resize.Lanczos"@,
            ResizeKernel::Bicubic => "core.resize.Bicubic"@,
            ResizeKernel::Bilinear => "core.resize.Bilinear"@,
            ResizeKernel::Nnedi3 => "nnedi3_rpow2"@,
            ResizeKernel::Eedi3 => "eedi3_rpow2"@,
        }
    }

    /// The resize function's name in the scripting environment.
    pub fn vs_function(&self) -> (r: &'static str)
        ensures
            r@ == self.spec_vs_function(),
    {
        match self {
            ResizeKernel::Spline36 => "core.resize.Spline36",
            ResizeKernel::Lanczos => "core.resize.Lanczos",
            ResizeKernel::Bicubic => "core.resize.Bicubic",
            ResizeKernel::Bilinear => "core.resize.Bilinear",
            ResizeKernel::Nnedi3 => "nnedi3_rpow2",
            ResizeKernel::Eedi3 => "eedi3_rpow2",
        }
    }
}

/// Upscale method options for integer scaling.
#[derive(Clone, Copy, PartialEq, Eq, Structural, Debug)]
pub enum UpscaleMethod {
    Nnedi3Rpow2,
    Eedi3Rpow2,
    Spline36,
}

/// Crop and resize preset options.
#[derive(Clone, Copy, PartialEq, Eq, Structural, Debug)]
pub enum CropResizePreset {
    Off,
    RemoveOverscan,
    Resize720p,
    Resize1080p,
    Resize4k,
    Custom,
}

/// Parameters for the crop and resize stage.
#[derive(Clone, Copy, Debug)]
pub struct CropResizeParameters {
    /// Whether this stage is enabled.
    pub enabled: bool,
    /// Preset for simple mode.
    pub preset: CropResizePreset,
    /// Whether the crop pre-pass applies.
    pub crop_enabled: bool,
    /// Pixels cropped from the left edge.
    pub crop_left: i32,
    /// Pixels cropped from the right edge.
    pub crop_right: i32,
    /// Pixels cropped from the top edge.
    pub crop_top: i32,
    /// Pixels cropped from the bottom edge.
    pub crop_bottom: i32,
    /// Whether the resize post-pass applies.
    pub resize_enabled: bool,
    /// Target width; absent means derived from the height and aspect.
    pub target_width: Option<i32>,
    /// Target height; absent means derived from the width and aspect.
    pub target_height: Option<i32>,
    /// Resize kernel to use.
    pub kernel: ResizeKernel,
    /// Whether the aspect ratio is kept when resizing.
    pub maintain_aspect: bool,
    /// Whether integer upscaling replaces the arbitrary resize.
    pub use_integer_upscale: bool,
    /// Upscale method for integer scaling.
    pub upscale_method: UpscaleMethod,
    /// Upscale factor for integer scaling.
    pub upscale_factor: i32,
}

/// What the default parameter set holds: disabled, with the documented
/// per-field defaults.
pub open spec fn crop_resize_default(r: CropResizeParameters) -> bool {
    &&& r.enabled == false
    &&& r.preset == CropResizePreset::Off
    &&& r.crop_enabled == false
    &&& r.crop_left == 0
    &&& r.crop_right == 0
    &&& r.crop_top == 0
    &&& r.crop_bottom == 0
    &&& r.resize_enabled == false
    &&& r.target_width == None::<i32>
    &&& r.target_height == None::<i32>
    &&& r.kernel == ResizeKernel::Spline36
    &&& r.maintain_aspect == true
    &&& r.use_integer_upscale == false
    &&& r.upscale_method == UpscaleMethod::Nnedi3Rpow2
    &&& r.upscale_factor == 2
}

impl Default for CropResizeParameters {
    /// A disabled crop and resize stage with the documented defaults.
    fn default() -> (r: Self)
        ensures
            crop_resize_default(r),
    {
        CropResizeParameters {
            enabled: false,
            preset: CropResizePreset::Off,
            crop_enabled: false,
            crop_left: 0,
            crop_right: 0,
            crop_top: 0,
            crop_bottom: 0,
            resize_enabled: false,
            target_width: None,
            target_height: None,
            kernel: ResizeKernel::Spline36,
            maintain_aspect: true,
            use_integer_upscale: false,
            upscale_method: UpscaleMethod::Nnedi3Rpow2,
            upscale_factor: 2,
        }
    }
}

impl CropResizeParameters {
    /// Total horizontal crop in pixels.
    pub fn total_horizontal_crop(&self) -> (r: i64)
        ensures
            r == self.crop_left + self.crop_right,
    {
        (self.crop_left as i64) + (self.crop_right as i64)
    }

    /// Total vertical crop in pixels.
    pub fn total_vertical_crop(&self) -> (r: i64)
        ensures
            r == self.crop_top + self.crop_bottom,
    {
        (self.crop_top as i64) + (self.crop_bottom as i64)
    }
}

} // verus!

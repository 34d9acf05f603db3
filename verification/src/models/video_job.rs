//! Job-level configuration: paths, encoding settings, and detected
//! input properties.

use vstd::prelude::*;
use vstd::string::StringSliceAdditionalSpecFns;
use vstd::string::StrSliceExecFns;
use crate::numfmt::Decimal;
use crate::text::clone_bytes;
use super::qtgmc_parameters::{qtgmc_eqv, QTGMCParameters};
use super::restoration_pipeline::{pipeline_eqv, RestorationPipeline};

verus! {

/// Supported video codecs.
#[derive(Clone, Copy, PartialEq, Eq, Structural, Debug)]
pub enum VideoCodec {
    H264,
    H265,
    FFV1,
    ProResProxy,
    ProResLT,
    ProRes422,
    ProResHQ,
}

impl VideoCodec {
    pub open spec fn spec_ffmpeg_codec(self) -> Seq<char> {
        match self {
            VideoCodec::H264 => "libx264"@,
            VideoCodec::H265 => "libx265"@,
            VideoCodec::FFV1 => "ffv1"@,
            _ => "prores_ks"@,
        }
    }

    /// The encoder's codec name for this codec.
    pub fn ffmpeg_codec(&self) -> (r: &'static str)
        ensures
            r@ == self.spec_ffmpeg_codec(),
    {
        match self {
            VideoCodec::H264 => "libx264",
            VideoCodec::H265 => "libx265",
            VideoCodec::FFV1 => "ffv1",
            VideoCodec::ProResProxy => "prores_ks",
            VideoCodec::ProResLT => "prores_ks",
            VideoCodec::ProRes422 => "prores_ks",
            VideoCodec::ProResHQ => "prores_ks",
        }
    }

    pub open spec fn spec_ffmpeg_codec_bytes(self) -> Seq<u8> {
        match self {
            VideoCodec::H264 => "libx264".spec_bytes(),
            VideoCodec::H265 => "libx265".spec_bytes(),
            VideoCodec::FFV1 => "ffv1".spec_bytes(),
            _ => "prores_ks".spec_bytes(),
        }
    }

    /// The encoder's codec name as argument bytes.
    pub fn ffmpeg_codec_bytes(&self) -> (r: Vec<u8>)
        ensures
            r@ == self.spec_ffmpeg_codec_bytes(),
    {
        match self {
            VideoCodec::H264 => StrSliceExecFns::as_bytes_vec("libx264"),
            VideoCodec::H265 => StrSliceExecFns::as_bytes_vec("libx265"),
            VideoCodec::FFV1 => StrSliceExecFns::as_bytes_vec("ffv1"),
            _ => StrSliceExecFns::as_bytes_vec("prores_ks"),
        }
    }

    pub open spec fn spec_prores_profile(self) -> Option<i32> {
        match self {
            VideoCodec::ProResProxy => Some(0),
            VideoCodec::ProResLT => Some(1),
            VideoCodec::ProRes422 => Some(2),
            VideoCodec::ProResHQ => Some(3),
            _ => None,
        }
    }

    /// The fixed quality profile index, for the codecs that have one.
    pub fn prores_profile(&self) -> (r: Option<i32>)
        ensures
            r == self.spec_prores_profile(),
    {
        match self {
            VideoCodec::ProResProxy => Some(0),
            VideoCodec::ProResLT => Some(1),
            VideoCodec::ProRes422 => Some(2),
            VideoCodec::ProResHQ => Some(3),
            _ => None,
        }
    }

    /// True when the codec carries a fixed quality profile.
    pub fn is_prores(&self) -> (r: bool)
        ensures
            r == (self.spec_prores_profile() is Some),
    {
        self.prores_profile().is_some()
    }

    /// True for the lossless codec.
    pub fn is_ffv1(&self) -> (r: bool)
        ensures
            r == (*self == VideoCodec::FFV1),
    {
        matches!(self, VideoCodec::FFV1)
    }

    /// The container that suits this codec.
    pub fn preferred_container(&self) -> (r: ContainerFormat)
        ensures
            self.spec_prores_profile() is Some ==> r == ContainerFormat::Mov,
            *self == VideoCodec::FFV1 ==> r == ContainerFormat::Avi,
            self.spec_prores_profile() is None && *self != VideoCodec::FFV1 ==> r
                == ContainerFormat::Mp4,
    {
        if self.is_prores() {
            ContainerFormat::Mov
        } else if self.is_ffv1() {
            ContainerFormat::Avi
        } else {
            ContainerFormat::Mp4
        }
    }

    pub open spec fn spec_display_name(self) -> Seq<char> {
        match self {
            VideoCodec::H264 => "H.264"@,
            VideoCodec::H265 => "H.265 (HEVC)"@,
            VideoCodec::FFV1 => "FFV1 (Lossless)"@,
            VideoCodec::ProResProxy => "ProRes Proxy"@,
            VideoCodec::ProResLT => "ProRes LT"@,
            VideoCodec::ProRes422 => "ProRes 422"@,
            VideoCodec::ProResHQ => "ProRes 422 HQ"@,
        }
    }

    /// Human-readable name.
    pub fn display_name(&self) -> (r: &'static str)
        ensures
            r@ == self.spec_display_name(),
    {
        match self {
            VideoCodec::H264 => "H.264",
            VideoCodec::H265 => "H.265 (HEVC)",
            VideoCodec::FFV1 => "FFV1 (Lossless)",
            VideoCodec::ProResProxy => "ProRes Proxy",
            VideoCodec::ProResLT => "ProRes LT",
            VideoCodec::ProRes422 => "ProRes 422",
            VideoCodec::ProResHQ => "ProRes 422 HQ",
        }
    }
}

/// Output container formats.
#[derive(Clone, Copy, PartialEq, Eq, Structural, Debug)]
pub enum ContainerFormat {
    Mp4,
    Mov,
    Mkv,
    Avi,
}

impl ContainerFormat {
    pub open spec fn spec_extension(self) -> Seq<char> {
        match self {
            ContainerFormat::Mp4 => "mp4"@,
            ContainerFormat::Mov => "mov"@,
            ContainerFormat::Mkv => "mkv"@,
            ContainerFormat::Avi => "avi"@,
        }
    }

    /// File extension of the container.
    pub fn extension(&self) -> (r: &'static str)
        ensures
            r@ == self.spec_extension(),
    {
        match self {
            ContainerFormat::Mp4 => "mp4",
            ContainerFormat::Mov => "mov",
            ContainerFormat::Mkv => "mkv",
            ContainerFormat::Avi => "avi",
        }
    }

    pub open spec fn spec_display_name(self) -> Seq<char> {
        match self {
            ContainerFormat::Mp4 => "MP4"@,
            ContainerFormat::Mov => "QuickTime MOV"@,
            ContainerFormat::Mkv => "Matroska MKV"@,
            ContainerFormat::Avi => "AVI"@,
        }
    }

    /// Human-readable name.
    pub fn display_name(&self) -> (r: &'static str)
        ensures
            r@ == self.spec_display_name(),
    {
        match self {
            ContainerFormat::Mp4 => "MP4",
            ContainerFormat::Mov => "QuickTime MOV",
            ContainerFormat::Mkv => "Matroska MKV",
            ContainerFormat::Avi => "AVI",
        }
    }
}

/// Video field order.
#[derive(Clone, Copy, PartialEq, Eq, Structural, Debug)]
pub enum FieldOrder {
    TopFieldFirst,
    BottomFieldFirst,
    Progressive,
    Unknown,
}

impl FieldOrder {
    pub open spec fn spec_display_name(self) -> Seq<char> {
        match self {
            FieldOrder::TopFieldFirst => "Top Field First (TFF)"@,
            FieldOrder::BottomFieldFirst => "Bottom Field First (BFF)"@,
            FieldOrder::Progressive => "Progressive"@,
            FieldOrder::Unknown => "Unknown"@,
        }
    }

    /// Human-readable name.
    pub fn display_name(&self) -> (r: &'static str)
        ensures
            r@ == self.spec_display_name(),
    {
        match self {
            FieldOrder::TopFieldFirst => "Top Field First (TFF)",
            FieldOrder::BottomFieldFirst => "Bottom Field First (BFF)",
            FieldOrder::Progressive => "Progressive",
            FieldOrder::Unknown => "Unknown",
        }
    }

    /// The deinterlacer's top-field-first value for this order, absent
    /// when the order gives none.
    pub fn tff_value(&self) -> (r: Option<bool>)
        ensures
            *self == FieldOrder::TopFieldFirst ==> r == Some(true),
            *self == FieldOrder::BottomFieldFirst ==> r == Some(false),
            *self != FieldOrder::TopFieldFirst && *self != FieldOrder::BottomFieldFirst ==> r
                == None::<bool>,
    {
        match self {
            FieldOrder::TopFieldFirst => Some(true),
            FieldOrder::BottomFieldFirst => Some(false),
            _ => None,
        }
    }
}

/// Encoding settings of the output file.
#[derive(Debug)]
pub struct EncodingSettings {
    /// Output video codec.
    pub codec: VideoCodec,
    /// Encoder speed preset.
    pub encoder_preset: Vec<u8>,
    /// Quality setting: constant rate factor for the rate-controlled
    /// codecs.
    pub quality: i32,
    /// Whether the audio stream is copied verbatim.
    pub audio_copy: bool,
    /// Audio codec when re-encoding.
    pub audio_codec: Vec<u8>,
    /// Audio bitrate in kilobits per second when re-encoding.
    pub audio_bitrate: i32,
    /// Additional raw encoder arguments, whitespace separated.
    pub custom_ffmpeg_args: Vec<u8>,
    /// Output container format.
    pub container: ContainerFormat,
}

/// Equivalence of two settings, field by field, byte fields by
/// contents.
pub open spec fn encoding_settings_eqv(a: EncodingSettings, b: EncodingSettings) -> bool {
    &&& a.codec == b.codec
    &&& a.encoder_preset@ == b.encoder_preset@
    &&& a.quality == b.quality
    &&& a.audio_copy == b.audio_copy
    &&& a.audio_codec@ == b.audio_codec@
    &&& a.audio_bitrate == b.audio_bitrate
    &&& a.custom_ffmpeg_args@ == b.custom_ffmpeg_args@
    &&& a.container == b.container
}

impl Clone for EncodingSettings {
    /// An equivalent copy.
    fn clone(&self) -> (r: Self)
        ensures
            encoding_settings_eqv(r, *self),
    {
        EncodingSettings {
            codec: self.codec,
            encoder_preset: clone_bytes(&self.encoder_preset),
            quality: self.quality,
            audio_copy: self.audio_copy,
            audio_codec: clone_bytes(&self.audio_codec),
            audio_bitrate: self.audio_bitrate,
            custom_ffmpeg_args: clone_bytes(&self.custom_ffmpeg_args),
            container: self.container,
        }
    }
}

/// What the default settings hold.
pub open spec fn encoding_settings_default(r: EncodingSettings) -> bool {
    &&& r.codec == VideoCodec::H264
    &&& r.encoder_preset@ == "medium".spec_bytes()
    &&& r.quality == 18
    &&& r.audio_copy == true
    &&& r.audio_codec@ == "aac".spec_bytes()
    &&& r.audio_bitrate == 192
    &&& r.custom_ffmpeg_args@ == Seq::<u8>::empty()
    &&& r.container == ContainerFormat::Mp4
}

impl Default for EncodingSettings {
    /// The documented default settings.
    fn default() -> (r: Self)
        ensures
            encoding_settings_default(r),
    {
        EncodingSettings {
            codec: VideoCodec::H264,
            encoder_preset: "medium".as_bytes_vec(),
            quality: 18,
            audio_copy: true,
            audio_codec: "aac".as_bytes_vec(),
            audio_bitrate: 192,
            custom_ffmpeg_args: Vec::new(),
            container: ContainerFormat::Mp4,
        }
    }
}

/// A complete processing job.
#[derive(Debug)]
pub struct VideoJob {
    /// Job identifier, as text.
    pub id: Vec<u8>,
    /// Input video file path.
    pub input_path: Vec<u8>,
    /// Output video file path.
    pub output_path: Vec<u8>,
    /// Single-stage deinterlace parameters, kept for compatibility.
    pub qtgmc_parameters: QTGMCParameters,
    /// Full multi-stage pipeline, when one was supplied.
    pub restoration_pipeline: Option<RestorationPipeline>,
    /// Encoding settings of the output.
    pub encoding_settings: EncodingSettings,
    /// Detected field order of the input.
    pub detected_field_order: Option<FieldOrder>,
    /// Total frame count of the input, when known.
    pub total_frames: Option<i32>,
    /// Input frame rate, when known.
    pub input_frame_rate: Option<Decimal>,
}

/// Equivalence of two optional pipelines.
pub open spec fn opt_pipeline_eqv(a: Option<RestorationPipeline>, b: Option<RestorationPipeline>) -> bool {
    match (a, b) {
        (Option::Some(x), Option::Some(y)) => pipeline_eqv(x, y),
        (Option::None, Option::None) => true,
        _ => false,
    }
}

/// Equivalence of two jobs, field by field, byte fields by contents.
pub open spec fn video_job_eqv(a: VideoJob, b: VideoJob) -> bool {
    &&& a.id@ == b.id@
    &&& a.input_path@ == b.input_path@
    &&& a.output_path@ == b.output_path@
    &&& qtgmc_eqv(a.qtgmc_parameters, b.qtgmc_parameters)
    &&& opt_pipeline_eqv(a.restoration_pipeline, b.restoration_pipeline)
    &&& encoding_settings_eqv(a.encoding_settings, b.encoding_settings)
    &&& a.detected_field_order == b.detected_field_order
    &&& a.total_frames == b.total_frames
    &&& a.input_frame_rate == b.input_frame_rate
}

impl Clone for VideoJob {
    /// An equivalent copy.
    fn clone(&self) -> (r: Self)
        ensures
            video_job_eqv(r, *self),
    {
        VideoJob {
            id: clone_bytes(&self.id),
            input_path: clone_bytes(&self.input_path),
            output_path: clone_bytes(&self.output_path),
            qtgmc_parameters: self.qtgmc_parameters.clone(),
            restoration_pipeline: match &self.restoration_pipeline {
                Option::Some(p) => Option::Some(p.clone()),
                Option::None => Option::None,
            },
            encoding_settings: self.encoding_settings.clone(),
            detected_field_order: self.detected_field_order,
            total_frames: self.total_frames,
            input_frame_rate: self.input_frame_rate,
        }
    }
}

impl VideoJob {
    /// The pipeline the job runs: the supplied multi-stage pipeline, or
    /// one synthesized from the single-stage parameters with every
    /// other stage disabled.
    pub fn effective_pipeline(&self) -> (r: RestorationPipeline)
        ensures
            match self.restoration_pipeline {
                Some(p) => pipeline_eqv(r, p),
                None => RestorationPipeline::spec_is_legacy(r, self.qtgmc_parameters),
            },
    {
        match &self.restoration_pipeline {
            Option::Some(p) => p.clone(),
            Option::None => RestorationPipeline::from_legacy(&self.qtgmc_parameters),
        }
    }
}

} // verus!

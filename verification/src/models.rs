//! Data model of a restoration job: per-stage parameter sets, the
//! ordered pipeline, job-level settings, and progress reporting types.

pub mod chroma_fix_parameters;
pub mod color_correction_parameters;
pub mod crop_resize_parameters;
pub mod deband_parameters;
pub mod deblock_parameters;
pub mod dehalo_parameters;
pub mod noise_reduction_parameters;
pub mod progress_info;
pub mod qtgmc_parameters;
pub mod restoration_pipeline;
pub mod sharpen_parameters;
pub mod video_job;

pub use chroma_fix_parameters::ChromaFixParameters;
pub use chroma_fix_parameters::ChromaFixPreset;
pub use color_correction_parameters::ColorCorrectionParameters;
pub use color_correction_parameters::ColorCorrectionPreset;
pub use crop_resize_parameters::CropResizeParameters;
pub use crop_resize_parameters::CropResizePreset;
pub use crop_resize_parameters::ResizeKernel;
pub use crop_resize_parameters::UpscaleMethod;
pub use deband_parameters::DebandParameters;
pub use deblock_parameters::DeblockMethod;
pub use deblock_parameters::DeblockParameters;
pub use dehalo_parameters::DehaloMethod;
pub use dehalo_parameters::DehaloParameters;
pub use noise_reduction_parameters::NoiseReductionMethod;
pub use noise_reduction_parameters::NoiseReductionParameters;
pub use noise_reduction_parameters::NoiseReductionPreset;
pub use progress_info::LogLevel;
pub use progress_info::ProcessingState;
pub use progress_info::ProgressInfo;
pub use progress_info::WorkerMessage;
pub use qtgmc_parameters::QTGMCParameters;
pub use qtgmc_parameters::QTGMCPreset;
pub use restoration_pipeline::PassType;
pub use restoration_pipeline::RestorationPipeline;
pub use sharpen_parameters::SharpenMethod;
pub use sharpen_parameters::SharpenParameters;
pub use video_job::ContainerFormat;
pub use video_job::EncodingSettings;
pub use video_job::FieldOrder;
pub use video_job::VideoCodec;
pub use video_job::VideoJob;

//! Tests of the parameter models: documented defaults, the pipeline's
//! pass ordering, progress measurements, and status messages.

use vapourbox_worker::dependency_locator::{BundledInterpreter, DependencyLocator, Platform};
use vapourbox_worker::models::{
    ChromaFixParameters, ChromaFixPreset, ColorCorrectionParameters, ColorCorrectionPreset,
    ContainerFormat, CropResizeParameters, CropResizePreset, FieldOrder, LogLevel,
    NoiseReductionMethod, NoiseReductionParameters, NoiseReductionPreset, PassType,
    ProcessingState, ProgressInfo, QTGMCParameters, QTGMCPreset, RestorationPipeline, VideoCodec,
    WorkerMessage,
};
use vapourbox_worker::numfmt::Decimal;
use vapourbox_worker::progress_reporter::{render_message, ProgressReporter};

#[test]
fn test_platform_suffix() {
    let locator = DependencyLocator::new(
        b"deps".to_vec(),
        Platform::WindowsX64,
        BundledInterpreter::Absent,
    );
    assert_eq!(locator.platform_suffix(), "windows-x64");
}

#[test]
fn test_reporter_creation() {
    let reporter = ProgressReporter::new();
    let _clone = reporter.clone();
}

#[test]
fn chroma_fix_parameters_test_default_parameters() {
    let params = ChromaFixParameters::default();
    assert!(!params.enabled);
    assert_eq!(params.preset, ChromaFixPreset::Off);
    assert!(!params.apply_chroma_bleeding_fix);
    assert!(!params.apply_de_crawl);
    assert!(!params.apply_vinverse);
}

#[test]
fn color_correction_parameters_test_default_parameters() {
    let params = ColorCorrectionParameters::default();
    assert!(!params.enabled);
    assert_eq!(params.preset, ColorCorrectionPreset::Off);
    assert_eq!(params.contrast, Decimal::from_scaled(10000));
    assert_eq!(params.saturation, Decimal::from_scaled(10000));
}

#[test]
fn crop_resize_parameters_test_default_parameters() {
    let params = CropResizeParameters::default();
    assert!(!params.enabled);
    assert_eq!(params.preset, CropResizePreset::Off);
    assert!(!params.crop_enabled);
    assert!(!params.resize_enabled);
    assert_eq!(params.upscale_factor, 2);
}

#[test]
fn noise_reduction_parameters_test_default_parameters() {
    let params = NoiseReductionParameters::default();
    assert!(!params.enabled);
    assert_eq!(params.preset, NoiseReductionPreset::Off);
    assert_eq!(params.method, NoiseReductionMethod::SmDegrain);
}

#[test]
fn qtgmc_parameters_test_default_parameters() {
    let params = QTGMCParameters::default();
    assert_eq!(params.preset, QTGMCPreset::Slower);
    assert_eq!(params.fps_divisor, 1);
    assert!(params.tff.is_none());
}

#[test]
fn test_default_pipeline() {
    let pipeline = RestorationPipeline::default();
    assert!(!pipeline.noise_reduction.enabled);
    assert!(!pipeline.color_correction.enabled);
    assert!(!pipeline.chroma_fixes.enabled);
    assert!(!pipeline.crop_resize.enabled);
}

#[test]
fn test_enabled_passes() {
    let mut pipeline = RestorationPipeline::default();
    pipeline.noise_reduction.enabled = true;
    pipeline.color_correction.enabled = true;
    let passes = pipeline.enabled_passes();
    assert!(passes.contains(&PassType::Deinterlace));
    assert!(passes.contains(&PassType::NoiseReduction));
    assert!(passes.contains(&PassType::ColorCorrection));
    assert!(!passes.contains(&PassType::ChromaFixes));
}

#[test]
fn test_progress_info() {
    let info = ProgressInfo::new(500, 1000, Decimal::from_int(25), Decimal::from_int(20));
    assert_eq!(info.progress(), Decimal::from_scaled(5000));
    assert_eq!(info.percent_complete(), 50);
    assert_eq!(info.eta_formatted(), b"20s".to_vec());
    assert_eq!(info.fps_formatted(), b"25.0 fps".to_vec());
}

#[test]
fn test_eta_formatting_units() {
    let long = ProgressInfo::new(0, 0, Decimal::from_int(1), Decimal::from_int(3600 + 23 * 60 + 45));
    assert_eq!(long.eta_formatted(), b"1h 23m 45s".to_vec());
    let medium = ProgressInfo::new(0, 0, Decimal::from_int(1), Decimal::from_int(83));
    assert_eq!(medium.eta_formatted(), b"1m 23s".to_vec());
    let none = ProgressInfo::new(0, 0, Decimal::from_int(1), Decimal::from_int(0));
    assert_eq!(none.eta_formatted(), b"--".to_vec());
}

#[test]
fn test_worker_message_serialization() {
    let msg = WorkerMessage::progress(&ProgressInfo::new(
        100,
        1000,
        Decimal::from_int(30),
        Decimal::from_int(30),
    ));
    let json = String::from_utf8(render_message(&msg)).unwrap();
    assert!(json.contains("\"type\":\"progress\""));
    assert!(json.contains("\"frame\":100"));
}

#[test]
fn test_log_message_serialization() {
    let msg = WorkerMessage::log(LogLevel::Info, b"Test message");
    let json = String::from_utf8(render_message(&msg)).unwrap();
    assert!(json.contains("\"type\":\"log\""));
    assert!(json.contains("\"level\":\"info\""));
}

#[test]
fn test_progress_message_exact_json() {
    let reporter = ProgressReporter::new();
    let info = ProgressInfo::new(500, 2000, Decimal::from_int(25), Decimal::from_int(60));
    let json = String::from_utf8(reporter.send_progress(&info)).unwrap();
    assert_eq!(
        json,
        "{\"type\":\"progress\",\"frame\":500,\"totalFrames\":2000,\"fps\":25.0,\"eta\":60.0}"
    );
}

#[test]
fn test_complete_message_json() {
    let reporter = ProgressReporter::new();
    let path = b"out.mp4".to_vec();
    let with_path = String::from_utf8(reporter.send_complete(true, Some(&path))).unwrap();
    assert_eq!(
        with_path,
        "{\"type\":\"complete\",\"success\":true,\"outputPath\":\"out.mp4\"}"
    );
    let without = String::from_utf8(reporter.send_complete(false, None)).unwrap();
    assert_eq!(without, "{\"type\":\"complete\",\"success\":false}");
}

#[test]
fn test_error_message_escapes_content() {
    let reporter = ProgressReporter::new();
    let json = String::from_utf8(reporter.send_error(b"path \"C:\\x\"\nbroke")).unwrap();
    assert_eq!(
        json,
        "{\"type\":\"error\",\"message\":\"path \\\"C:\\\\x\\\"\\nbroke\"}"
    );
}

#[test]
fn test_codec_properties() {
    assert_eq!(VideoCodec::H264.ffmpeg_codec(), "libx264");
    assert_eq!(VideoCodec::ProResHQ.ffmpeg_codec(), "prores_ks");
    assert_eq!(VideoCodec::ProResHQ.prores_profile(), Some(3));
    assert_eq!(VideoCodec::H265.prores_profile(), None);
    assert!(VideoCodec::ProRes422.is_prores());
    assert!(VideoCodec::FFV1.is_ffv1());
    assert_eq!(VideoCodec::ProResLT.preferred_container(), ContainerFormat::Mov);
    assert_eq!(VideoCodec::FFV1.preferred_container(), ContainerFormat::Avi);
    assert_eq!(VideoCodec::H264.preferred_container(), ContainerFormat::Mp4);
    assert_eq!(ContainerFormat::Mkv.extension(), "mkv");
}

#[test]
fn test_field_order_tff_value() {
    assert_eq!(FieldOrder::TopFieldFirst.tff_value(), Some(true));
    assert_eq!(FieldOrder::BottomFieldFirst.tff_value(), Some(false));
    assert_eq!(FieldOrder::Progressive.tff_value(), None);
}

#[test]
fn test_processing_state_flags() {
    assert!(ProcessingState::PreparingJob.is_active());
    assert!(ProcessingState::Processing { progress: Decimal::from_scaled(0) }.can_cancel());
    assert!(ProcessingState::Cancelling.is_active());
    assert!(!ProcessingState::Cancelling.can_cancel());
    assert!(!ProcessingState::Idle.is_active());
    assert!(!(ProcessingState::Completed { success: true }).is_active());
}

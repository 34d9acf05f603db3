//! Tests of the execution engine's decisions: diagnostic parsing,
//! throttled progress with the effective total and estimated time,
//! cancellation, encoder arguments, and the exit-code policy.

use vapourbox_worker::models::{
    ContainerFormat, EncodingSettings, QTGMCParameters, VideoCodec, VideoJob,
};
use vapourbox_worker::numfmt::Decimal;
use vapourbox_worker::dependency_locator::{BundledInterpreter, DependencyLocator, Platform};
use vapourbox_worker::parse::{parse_decimal, parse_i32};
use vapourbox_worker::pipeline_executor::{
    build_ffmpeg_args, evaluate_exit_codes, parse_fps, parse_frame_number, parse_input_info,
    tolerated_exit, EncoderLineAction, ExecutionError, PipelineStage, ProgressTracker,
};
use vapourbox_worker::platform::macos;
use vapourbox_worker::platform::windows;
use vapourbox_worker::script_generator::{preview_script_file_name, script_file_name};

fn base_job() -> VideoJob {
    VideoJob {
        id: uuid::Uuid::new_v4().to_string().into_bytes(),
        input_path: b"input.mp4".to_vec(),
        output_path: b"output.mp4".to_vec(),
        qtgmc_parameters: QTGMCParameters::default(),
        restoration_pipeline: None,
        encoding_settings: EncodingSettings::default(),
        detected_field_order: None,
        total_frames: None,
        input_frame_rate: None,
    }
}

#[test]
fn test_build_ffmpeg_args() {
    let job = base_job();
    assert_eq!(job.output_path, b"output.mp4".to_vec());
    let args: Vec<String> = build_ffmpeg_args(&job)
        .into_iter()
        .map(|a| String::from_utf8(a).unwrap())
        .collect();
    assert_eq!(
        args,
        vec![
            "-f",
            "yuv4mpegpipe",
            "-i",
            "-",
            "-progress",
            "pipe:2",
            "-c:v",
            "libx264",
            "-crf",
            "18",
            "-preset",
            "medium",
            "-c:a",
            "copy",
            "-y",
            "output.mp4",
        ]
    );
}

#[test]
fn test_build_ffmpeg_args_prores_and_audio() {
    let mut job = base_job();
    job.encoding_settings.codec = VideoCodec::ProRes422;
    job.encoding_settings.audio_copy = false;
    job.encoding_settings.audio_codec = b"aac".to_vec();
    job.encoding_settings.audio_bitrate = 192;
    job.encoding_settings.custom_ffmpeg_args = b"-movflags +faststart".to_vec();
    job.encoding_settings.container = ContainerFormat::Mov;
    let args: Vec<String> = build_ffmpeg_args(&job)
        .into_iter()
        .map(|a| String::from_utf8(a).unwrap())
        .collect();
    assert!(args.windows(2).any(|w| w[0] == "-profile:v" && w[1] == "2"));
    assert!(args.windows(2).any(|w| w[0] == "-c:a" && w[1] == "aac"));
    assert!(args.windows(2).any(|w| w[0] == "-b:a" && w[1] == "192k"));
    assert!(args.contains(&"-movflags".to_string()));
    assert!(args.contains(&"+faststart".to_string()));
    assert!(!args.contains(&"-crf".to_string()));
}

#[test]
fn test_parse_input_info_line() {
    assert_eq!(
        parse_input_info(b"INPUT_INFO:frames=1000,fps_num=25,fps_den=1"),
        Some(1000)
    );
    assert_eq!(parse_input_info(b"random stderr line"), None);
    assert_eq!(parse_input_info(b"INPUT_INFO:fps_num=25,fps_den=1"), None);
}

#[test]
fn test_parse_progress_line_tokens() {
    assert_eq!(parse_frame_number(b"frame=500 fps=25.0"), Some(500));
    assert_eq!(parse_frame_number(b"frame=123"), Some(123));
    assert_eq!(parse_frame_number(b"bitrate=1000"), None);
    let fps = parse_fps(b"frame=500 fps=25.0").unwrap();
    assert_eq!(fps, Decimal::from_scaled(250000));
    assert_eq!(parse_fps(b"frame=500"), None);
}

#[test]
fn test_scenario_throttled_progress_with_rate_doubling() {
    // The frame engine reports one thousand frames; the encoder reports
    // frame five hundred at twenty-five frames per second; with
    // double-rate deinterlacing the total doubles and sixty seconds
    // remain.
    let reported = ProgressTracker::observe_engine_line(
        b"INPUT_INFO:frames=1000,fps_num=25,fps_den=1",
        0,
    );
    assert_eq!(reported, 1000);
    let mut tracker = ProgressTracker::new(0);
    let action = tracker.observe_encoder_line(
        b"frame=500 fps=25.0",
        false,
        reported,
        1,
        None,
        600,
    );
    match action {
        EncoderLineAction::Report(info) => {
            assert_eq!(info.frame, 500);
            assert_eq!(info.total_frames, 2000);
            assert_eq!(info.fps, Decimal::from_scaled(250000));
            assert_eq!(info.eta, Decimal::from_scaled(600000));
        },
        _ => panic!("expected a progress report"),
    }
}

#[test]
fn test_progress_is_throttled() {
    let mut tracker = ProgressTracker::new(0);
    let early = tracker.observe_encoder_line(b"frame=10 fps=25.0", false, 100, 2, None, 100);
    assert_eq!(early, EncoderLineAction::Continue);
    assert_eq!(tracker.current_frame, 10);
    let due = tracker.observe_encoder_line(b"frame=20 fps=25.0", false, 100, 2, None, 500);
    assert!(matches!(due, EncoderLineAction::Report(_)));
}

#[test]
fn test_effective_total_fallbacks() {
    let mut tracker = ProgressTracker::new(0);
    // No engine-reported total: the job-supplied count serves.
    let action = tracker.observe_encoder_line(b"frame=5 fps=1.0", false, 0, 1, Some(400), 700);
    match action {
        EncoderLineAction::Report(info) => assert_eq!(info.total_frames, 400),
        _ => panic!("expected a progress report"),
    }
    // Rate-halving: the reported total stands as it is.
    let mut tracker = ProgressTracker::new(0);
    let action = tracker.observe_encoder_line(b"frame=5 fps=1.0", false, 800, 2, Some(400), 700);
    match action {
        EncoderLineAction::Report(info) => assert_eq!(info.total_frames, 800),
        _ => panic!("expected a progress report"),
    }
}

#[test]
fn test_scenario_cancellation_wins() {
    // Cancellation observed on a line: the run terminates both
    // processes and ends with the distinct cancellation variant, not a
    // generic failure.
    let mut tracker = ProgressTracker::new(0);
    let action = tracker.observe_encoder_line(b"frame=10 fps=25.0", true, 1000, 1, None, 9000);
    assert_eq!(action, EncoderLineAction::CancelRun);
    assert_eq!(tracker.current_frame, 0);
    let err = ExecutionError::Cancelled;
    assert!(matches!(err, ExecutionError::Cancelled));
    assert!(!matches!(err, ExecutionError::StageExited { .. }));
    assert_eq!(err.describe(), b"Job cancelled".to_vec());
}

#[test]
fn test_scenario_broken_pipe_tolerated() {
    // A broken-pipe exit from the frame engine during a
    // cancellation-triggered kill is not a fatal exit error.
    assert!(tolerated_exit(141));
    assert!(tolerated_exit(130));
    assert!(tolerated_exit(0));
    assert!(!tolerated_exit(1));
    assert!(evaluate_exit_codes(Some(141), Some(0)).is_ok());
    assert!(evaluate_exit_codes(Some(0), Some(141)).is_ok());
    assert!(evaluate_exit_codes(Some(130), Some(130)).is_ok());
}

#[test]
fn test_exit_code_failures_name_the_stage() {
    match evaluate_exit_codes(Some(2), Some(0)) {
        Err(ExecutionError::StageExited { stage, code }) => {
            assert_eq!(stage, PipelineStage::FrameEngine);
            assert_eq!(code, 2);
        },
        _ => panic!("expected a frame engine failure"),
    }
    match evaluate_exit_codes(Some(0), Some(1)) {
        Err(ExecutionError::StageExited { stage, code }) => {
            assert_eq!(stage, PipelineStage::Encoder);
            assert_eq!(code, 1);
            let err = ExecutionError::StageExited { stage, code };
            assert_eq!(err.describe(), b"ffmpeg exited with code 1".to_vec());
        },
        _ => panic!("expected an encoder failure"),
    }
    // A missing code counts as minus one and fails.
    assert!(evaluate_exit_codes(None, Some(0)).is_err());
}

#[test]
fn test_locator_paths() {
    let mac = DependencyLocator::new(
        b"deps".to_vec(),
        Platform::MacOSArm64,
        BundledInterpreter::Absent,
    );
    assert_eq!(
        mac.ffmpeg_candidate(),
        b"deps/macos-arm64/ffmpeg/ffmpeg".to_vec()
    );
    assert_eq!(
        mac.vapoursynth_plugin_path(),
        b"deps/macos-arm64/vapoursynth/plugins".to_vec()
    );
    assert_eq!(mac.python_home(), None);
    let win = DependencyLocator::new(
        b"deps".to_vec(),
        Platform::WindowsX64,
        BundledInterpreter::Absent,
    );
    let candidates = win.vspipe_candidates();
    assert_eq!(candidates[0], b"deps\\windows-x64\\vapoursynth\\VSPipe.exe".to_vec());
    assert_eq!(candidates[1], b"deps\\windows-x64\\vapoursynth\\vspipe.exe".to_vec());
    assert_eq!(
        win.python_home(),
        Some(b"deps\\windows-x64\\vapoursynth".to_vec())
    );
}

#[test]
fn test_environment_entries() {
    let mac = DependencyLocator::new(
        b"deps".to_vec(),
        Platform::MacOSX64,
        BundledInterpreter::Standalone,
    );
    let env = mac.build_environment(b"/usr/bin", b"");
    let keys: Vec<String> = env
        .iter()
        .map(|(k, _)| String::from_utf8(k.clone()).unwrap())
        .collect();
    assert!(keys.contains(&"PYTHONHOME".to_string()));
    assert!(keys.contains(&"PYTHONPATH".to_string()));
    assert!(keys.contains(&"VAPOURSYNTH_PLUGIN_PATH".to_string()));
    assert!(keys.contains(&"NNEDI3CL_WEIGHTS_PATH".to_string()));
    assert!(keys.contains(&"DYLD_LIBRARY_PATH".to_string()));
    let path = env
        .iter()
        .find(|(k, _)| k == b"PATH")
        .map(|(_, v)| String::from_utf8(v.clone()).unwrap())
        .unwrap();
    assert!(path.ends_with(":/usr/bin"));
    assert!(path.contains("deps/macos-x64/ffmpeg"));
}

#[test]
fn test_platform_directories() {
    assert_eq!(
        macos::app_support_dir(b"/Users/someone"),
        b"/Users/someone/Library/Application Support/iDeinterlace".to_vec()
    );
    assert_eq!(
        macos::cache_dir(b"/Users/someone"),
        b"/Users/someone/Library/Caches/iDeinterlace".to_vec()
    );
    assert_eq!(
        windows::app_data_dir(b"C:\\Users\\someone\\AppData\\Local"),
        b"C:\\Users\\someone\\AppData\\Local\\VapourBox".to_vec()
    );
    assert_eq!(
        windows::cache_dir(b"C:\\Users\\someone\\AppData\\Local"),
        b"C:\\Users\\someone\\AppData\\Local\\VapourBox\\Cache".to_vec()
    );
}

#[test]
fn test_parse_number_edges() {
    assert_eq!(parse_i32(b"123"), Some(123));
    assert_eq!(parse_i32(b"-45"), Some(-45));
    assert_eq!(parse_i32(b"+7"), Some(7));
    assert_eq!(parse_i32(b""), None);
    assert_eq!(parse_i32(b"12a"), None);
    assert_eq!(parse_i32(b"2147483647"), Some(i32::MAX));
    assert_eq!(parse_i32(b"2147483648"), None);
    assert_eq!(parse_i32(b"-2147483648"), Some(i32::MIN));
    assert_eq!(parse_decimal(b"25.0"), Some(Decimal::from_scaled(250000)));
    assert_eq!(parse_decimal(b"0.5"), Some(Decimal::from_scaled(5000)));
    assert_eq!(parse_decimal(b"-1.25"), Some(Decimal::from_scaled(-12500)));
    assert_eq!(parse_decimal(b"3"), Some(Decimal::from_scaled(30000)));
    assert_eq!(parse_decimal(b"1.2.3"), None);
    assert_eq!(parse_decimal(b"x"), None);
}

#[test]
fn test_script_file_names() {
    let mut job = base_job();
    job.id = b"abc123".to_vec();
    assert_eq!(script_file_name(&job), b"abc123.vpy".to_vec());
    assert_eq!(preview_script_file_name(&job), b"abc123_preview.vpy".to_vec());
}

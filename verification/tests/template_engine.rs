//! Tests of the template substitution engine: marker stripping, block
//! removal, value formatting, and whole-script rendering.

use vapourbox_worker::numfmt::Decimal;
use vapourbox_worker::models::{
    CropResizeParameters, EncodingSettings, FieldOrder, QTGMCParameters, QTGMCPreset,
    ResizeKernel, RestorationPipeline, VideoJob,
};
use vapourbox_worker::script_generator::{
    bool_token, escape_path, process_optional_bool, process_optional_double, process_optional_int,
    process_optional_string, remove_block, PreviewParams, ScriptGenerator,
};

fn s(bytes: &[u8]) -> String {
    String::from_utf8(bytes.to_vec()).unwrap()
}

#[test]
fn test_remove_block() {
    let input = "before\n{{#TEST}}content{{/TEST}}\nafter";
    let result = remove_block("{{#TEST}}", "{{/TEST}}", input.as_bytes());
    assert_eq!(s(&result), "before\nafter");
}

#[test]
fn test_process_optional_int_with_value() {
    let input = "prefix{{#NUM}}value={{NUM}},{{/NUM}}suffix";
    let result = process_optional_int("NUM", Some(42), input.as_bytes());
    assert_eq!(s(&result), "prefixvalue=42,suffix");
}

#[test]
fn test_process_optional_int_without_value() {
    let input = "prefix{{#NUM}}value={{NUM}},{{/NUM}}suffix";
    let result = process_optional_int("NUM", None, input.as_bytes());
    assert_eq!(s(&result), "prefixsuffix");
}

#[test]
fn test_block_removal_no_start_marker_remains() {
    // A name appearing three times with no supplied value leaves no
    // start marker behind.
    let input = "a{{#X}}1{{/X}}b{{#X}}2{{/X}}c{{#X}}3{{/X}}d";
    let result = process_optional_int("X", None, input.as_bytes());
    let text = s(&result);
    assert_eq!(text, "abcd");
    assert!(!text.contains("{{#X}}"));
    // Removal is idempotent: a second pass changes nothing.
    let again = remove_block("{{#X}}", "{{/X}}", &result);
    assert_eq!(again, result);
}

#[test]
fn test_double_formatting() {
    // A fractional value renders with its digits, trailing zeros
    // trimmed; a whole value renders with one zero digit.
    let input = "{{#V}}x={{V}}{{/V}}";
    let half = process_optional_double("V", Some(Decimal::from_scaled(25000)), input.as_bytes());
    assert_eq!(s(&half), "x=2.5");
    let whole = process_optional_double("V", Some(Decimal::from_scaled(20000)), input.as_bytes());
    assert_eq!(s(&whole), "x=2.0");
    let fine = process_optional_double("V", Some(Decimal::from_scaled(625)), input.as_bytes());
    assert_eq!(s(&fine), "x=0.0625");
    let trimmed = process_optional_double("V", Some(Decimal::from_scaled(31000)), input.as_bytes());
    assert_eq!(s(&trimmed), "x=3.1");
    let negative = process_optional_double("V", Some(Decimal::from_scaled(-5000)), input.as_bytes());
    assert_eq!(s(&negative), "x=-0.5");
    let int_typed = process_optional_int("V", Some(3), input.as_bytes());
    assert_eq!(s(&int_typed), "x=3");
}

#[test]
fn test_boolean_formatting() {
    assert_eq!(s(&bool_token(true)), "True");
    assert_eq!(s(&bool_token(false)), "False");
    let input = "{{#B}}flag={{B}}{{/B}}";
    let yes = process_optional_bool("B", Some(true), input.as_bytes());
    assert_eq!(s(&yes), "flag=True");
    let no = process_optional_bool("B", Some(false), input.as_bytes());
    assert_eq!(s(&no), "flag=False");
}

#[test]
fn test_string_substitution_and_escape() {
    let input = "{{#NAME}}mode={{NAME}}{{/NAME}}";
    let val = b"nnedi3".to_vec();
    let result = process_optional_string("NAME", Some(&val), input.as_bytes());
    assert_eq!(s(&result), "mode=nnedi3");
}

#[test]
fn test_generate_is_deterministic() {
    let job = common_job();
    let generator = ScriptGenerator::new();
    let first = generator.generate(&job);
    let second = generator.generate(&job);
    assert_eq!(first, second);
}

#[test]
fn test_backslash_escape_in_path() {
    let escaped = escape_path(b"C:\\media\\in.avi");
    assert_eq!(s(&escaped), "C:\\\\media\\\\in.avi");
}

fn common_job() -> VideoJob {
    VideoJob {
        id: b"job-1".to_vec(),
        input_path: b"input.avi".to_vec(),
        output_path: b"output.avi".to_vec(),
        qtgmc_parameters: QTGMCParameters {
            enabled: true,
            preset: QTGMCPreset::Fast,
            tff: Some(true),
            fps_divisor: 2,
            ..Default::default()
        },
        restoration_pipeline: None,
        encoding_settings: EncodingSettings::default(),
        detected_field_order: Some(FieldOrder::TopFieldFirst),
        total_frames: None,
        input_frame_rate: None,
    }
}

#[test]
fn test_scenario_deinterlace_only() {
    // Only deinterlacing, fast preset, top field first, rate halving:
    // the deinterlace block appears with the preset name and the rate
    // divisor; no noise, chroma, color or resize block appears.
    let mut job = common_job();
    job.restoration_pipeline = Some(RestorationPipeline {
        deinterlace: job.qtgmc_parameters.clone(),
        ..Default::default()
    });
    let all_stage_template = ScriptGenerator::embedded_preview_template();
    let generator = ScriptGenerator::from_templates(
        all_stage_template,
        ScriptGenerator::embedded_preview_template(),
    );
    let script = s(&generator.generate(&job));
    assert!(script.contains("haf.QTGMC"));
    assert!(script.contains("Preset=\"Fast\""));
    assert!(script.contains("FPSDivisor=2"));
    assert!(script.contains("TFF=True"));
    assert!(!script.contains("haf.SMDegrain"));
    assert!(!script.contains("haf.FixChromaBleedingMod"));
    assert!(!script.contains("adjust.Tweak"));
    assert!(!script.contains("core.resize."));
}

#[test]
fn test_scenario_crop_and_resize() {
    // Crop of eight pixels on every side plus an aspect-kept resize to
    // 1280 by 720, deinterlace disabled: the crop block appears, the
    // deinterlace block does not, and the resize block carries the
    // target size.
    let mut job = common_job();
    job.qtgmc_parameters.enabled = false;
    job.restoration_pipeline = Some(RestorationPipeline {
        deinterlace: QTGMCParameters {
            enabled: false,
            ..Default::default()
        },
        crop_resize: CropResizeParameters {
            enabled: true,
            crop_enabled: true,
            crop_left: 8,
            crop_right: 8,
            crop_top: 8,
            crop_bottom: 8,
            resize_enabled: true,
            target_width: Some(1280),
            target_height: Some(720),
            kernel: ResizeKernel::Spline36,
            maintain_aspect: true,
            ..Default::default()
        },
        ..Default::default()
    });
    let generator = ScriptGenerator::from_templates(
        ScriptGenerator::embedded_preview_template(),
        ScriptGenerator::embedded_preview_template(),
    );
    let script = s(&generator.generate(&job));
    assert!(script.contains("core.std.Crop(clip, left=8, right=8, top=8, bottom=8)"));
    assert!(!script.contains("haf.QTGMC"));
    assert!(script.contains("target_w = 1280"));
    assert!(script.contains("target_h = 720"));
    assert!(script.contains("core.resize.Spline36"));
}

#[test]
fn test_omit_if_default_thresholds() {
    // A numeric parameter equal to its documented default leaves no
    // token; a deviating value appears exactly as formatted.
    let template = b"{{#DEINTERLACE}}{{/DEINTERLACE}}{{#TH_SAD1}}ThSAD1={{TH_SAD1}}{{/TH_SAD1}}".to_vec();
    let generator = ScriptGenerator::from_templates(template.clone(), template);
    let mut job = common_job();
    job.qtgmc_parameters.th_sad1 = 640;
    let kept_default = s(&generator.generate(&job));
    assert!(!kept_default.contains("ThSAD1"));
    job.qtgmc_parameters.th_sad1 = 700;
    let deviating = s(&generator.generate(&job));
    assert!(deviating.contains("ThSAD1=700"));
}

#[test]
fn test_preview_substitutes_clip_parameters() {
    let job = common_job();
    let generator = ScriptGenerator::new();
    let params = PreviewParams {
        video_path: b"clip.mkv".to_vec(),
        fps_num: 30000,
        fps_den: 1001,
        field_based: 2,
    };
    let script = s(&generator.generate_preview(&job, &params));
    assert!(script.contains("clip.mkv"));
    assert!(script.contains("fpsnum=30000"));
    assert!(script.contains("fpsden=1001"));
    assert!(script.contains("SetFieldBased(clip, 2)"));
}

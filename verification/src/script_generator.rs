//! The pipeline script generator: renders a filter-chain script from a
//! template by stripping or removing named optional blocks and
//! substituting formatted values, stage by stage in the fixed order.

use vstd::prelude::*;
use vstd::string::StringSliceAdditionalSpecFns;
use crate::numfmt::{spec_decimal_bytes, spec_int_bytes, i32_to_bytes, Decimal};
use crate::text::{
    append_all, bytes_eq, clone_bytes, first_match, remove_blocks, remove_blocks_exec, replace_all,
    replace_all_exec,
};
use crate::models::chroma_fix_parameters::ChromaFixParameters;
use crate::models::color_correction_parameters::ColorCorrectionParameters;
use crate::models::crop_resize_parameters::{CropResizeParameters, ResizeKernel, UpscaleMethod};
use crate::models::deband_parameters::DebandParameters;
use crate::models::deblock_parameters::{DeblockMethod, DeblockParameters};
use crate::models::dehalo_parameters::{DehaloMethod, DehaloParameters};
use crate::models::noise_reduction_parameters::{NoiseReductionMethod, NoiseReductionParameters};
use crate::models::qtgmc_parameters::QTGMCParameters;
use crate::models::restoration_pipeline::RestorationPipeline;
use crate::models::sharpen_parameters::{SharpenMethod, SharpenParameters};
use crate::models::video_job::VideoJob;

verus! {

/// The start marker of the named optional block.
pub open spec fn spec_start_tag(name: Seq<u8>) -> Seq<u8> {
    "{{#".spec_bytes() + name + "}}".spec_bytes()
}

/// The end marker of the named optional block.
pub open spec fn spec_end_tag(name: Seq<u8>) -> Seq<u8> {
    "{{/".spec_bytes() + name + "}}".spec_bytes()
}

/// The bare placeholder of the name.
pub open spec fn spec_placeholder(name: Seq<u8>) -> Seq<u8> {
    "{{".spec_bytes() + name + "}}".spec_bytes()
}

/// The marker punctuation is ASCII, so its byte lengths are fixed.
proof fn lemma_tag_part_lens()
    ensures
        "{{#".spec_bytes().len() == 3,
        "{{/".spec_bytes().len() == 3,
        "{{".spec_bytes().len() == 2,
        "}}".spec_bytes().len() == 2,
{
    reveal_strlit("{{#");
    reveal_strlit("{{/");
    reveal_strlit("{{");
    reveal_strlit("}}");
    broadcast use vstd::string::is_ascii_spec_bytes;

    assert(vstd::string::is_ascii("{{#"));
    assert(vstd::string::is_ascii("{{/"));
    assert(vstd::string::is_ascii("{{"));
    assert(vstd::string::is_ascii("}}"));
}

fn make_start_tag(name: &str) -> (r: Vec<u8>)
    ensures
        r@ == spec_start_tag(name.spec_bytes()),
        r@.len() > 0,
{
    let mut out: Vec<u8> = Vec::new();
    append_all(&mut out, "{{#".as_bytes());
    append_all(&mut out, name.as_bytes());
    append_all(&mut out, "}}".as_bytes());
    proof {
        lemma_tag_part_lens();
    }
    out
}

fn make_end_tag(name: &str) -> (r: Vec<u8>)
    ensures
        r@ == spec_end_tag(name.spec_bytes()),
        r@.len() > 0,
{
    let mut out: Vec<u8> = Vec::new();
    append_all(&mut out, "{{/".as_bytes());
    append_all(&mut out, name.as_bytes());
    append_all(&mut out, "}}".as_bytes());
    proof {
        lemma_tag_part_lens();
    }
    out
}

fn make_placeholder(name: &str) -> (r: Vec<u8>)
    ensures
        r@ == spec_placeholder(name.spec_bytes()),
        r@.len() > 0,
{
    let mut out: Vec<u8> = Vec::new();
    append_all(&mut out, "{{".as_bytes());
    append_all(&mut out, name.as_bytes());
    append_all(&mut out, "}}".as_bytes());
    proof {
        lemma_tag_part_lens();
    }
    out
}

/// The two literal boolean tokens of the script grammar.
pub open spec fn spec_bool_bytes(v: bool) -> Seq<u8> {
    if v {
        "True".spec_bytes()
    } else {
        "False".spec_bytes()
    }
}

/// Renders a boolean as the capitalized token the script interpreter
/// expects.
pub fn bool_token(v: bool) -> (r: Vec<u8>)
    ensures
        r@ == spec_bool_bytes(v),
{
    let mut out: Vec<u8> = Vec::new();
    if v {
        append_all(&mut out, "True".as_bytes());
    } else {
        append_all(&mut out, "False".as_bytes());
    }
    proof {
        assert(out@ =~= spec_bool_bytes(v));
    }
    out
}

/// Both markers of the name stripped, their content kept.
pub open spec fn spec_strip_markers(name: Seq<u8>, s: Seq<u8>) -> Seq<u8> {
    replace_all(
        replace_all(s, spec_start_tag(name), Seq::empty()),
        spec_end_tag(name),
        Seq::empty(),
    )
}

/// Strips both markers of the name, keeping their content.
pub fn strip_markers(name: &str, s: &[u8]) -> (r: Vec<u8>)
    ensures
        r@ == spec_strip_markers(name.spec_bytes(), s@),
{
    let st = make_start_tag(name);
    let et = make_end_tag(name);
    let nothing: Vec<u8> = Vec::new();
    proof {
        assert(nothing@ =~= Seq::<u8>::empty());
    }
    let r1 = replace_all_exec(s, st.as_slice(), nothing.as_slice());
    replace_all_exec(r1.as_slice(), et.as_slice(), nothing.as_slice())
}

/// The whole named block removed, markers, content, and a trailing
/// newline.
pub open spec fn spec_remove_named(name: Seq<u8>, s: Seq<u8>) -> Seq<u8> {
    remove_blocks(s, spec_start_tag(name), spec_end_tag(name))
}

/// Removes the named block wholly, markers and content together.
pub fn remove_named(name: &str, s: &[u8]) -> (r: Vec<u8>)
    ensures
        r@ == spec_remove_named(name.spec_bytes(), s@),
{
    let st = make_start_tag(name);
    let et = make_end_tag(name);
    remove_blocks_exec(s, st.as_slice(), et.as_slice())
}

/// Every block between the two markers removed; the text unchanged when
/// either marker is empty.
pub fn remove_block(start_tag: &str, end_tag: &str, script: &[u8]) -> (r: Vec<u8>)
    ensures
        start_tag.spec_bytes().len() > 0 && end_tag.spec_bytes().len() > 0 ==> r@ == remove_blocks(
            script@,
            start_tag.spec_bytes(),
            end_tag.spec_bytes(),
        ),
        !(start_tag.spec_bytes().len() > 0 && end_tag.spec_bytes().len() > 0) ==> r@ == script@,
{
    let st = start_tag.as_bytes();
    let et = end_tag.as_bytes();
    if st.len() == 0 || et.len() == 0 {
        let mut out: Vec<u8> = Vec::new();
        append_all(&mut out, script);
        proof {
            assert(out@ =~= script@);
        }
        out
    } else {
        remove_blocks_exec(script, st, et)
    }
}

/// Every placeholder of the name replaced by the given bytes.
pub open spec fn spec_replace_placeholder(name: Seq<u8>, value: Seq<u8>, s: Seq<u8>) -> Seq<u8> {
    replace_all(s, spec_placeholder(name), value)
}

/// Replaces every placeholder of the name by the given bytes.
pub fn replace_placeholder(name: &str, value: &[u8], s: &[u8]) -> (r: Vec<u8>)
    ensures
        r@ == spec_replace_placeholder(name.spec_bytes(), value@, s@),
{
    let ph = make_placeholder(name);
    replace_all_exec(s, ph.as_slice(), value)
}

/// Replaces every placeholder of the name by the rendered integer.
pub fn replace_placeholder_int(name: &str, value: i32, s: &[u8]) -> (r: Vec<u8>)
    ensures
        r@ == spec_replace_placeholder(name.spec_bytes(), spec_int_bytes(value as int), s@),
{
    let v = i32_to_bytes(value);
    replace_placeholder(name, v.as_slice(), s)
}

/// An optional integer: present, the markers are stripped and every
/// placeholder becomes the rendered value; absent, the whole block
/// goes.
pub open spec fn spec_process_opt_int(name: Seq<u8>, value: Option<i32>, s: Seq<u8>) -> Seq<u8> {
    match value {
        Some(v) => spec_replace_placeholder(
            name,
            spec_int_bytes(v as int),
            spec_strip_markers(name, s),
        ),
        None => spec_remove_named(name, s),
    }
}

/// Substitutes an optional integer parameter, as `spec_process_opt_int`
/// describes.
pub fn process_optional_int(name: &str, value: Option<i32>, script: &[u8]) -> (r: Vec<u8>)
    ensures
        r@ == spec_process_opt_int(name.spec_bytes(), value, script@),
{
    match value {
        Some(v) => {
            let stripped = strip_markers(name, script);
            replace_placeholder_int(name, v, stripped.as_slice())
        },
        None => remove_named(name, script),
    }
}

/// An optional decimal, rendered with one zero digit for whole values
/// and up to four trimmed digits otherwise.
pub open spec fn spec_process_opt_double(name: Seq<u8>, value: Option<Decimal>, s: Seq<u8>) -> Seq<
    u8,
> {
    match value {
        Some(v) => spec_replace_placeholder(
            name,
            spec_decimal_bytes(v.scaled as int),
            spec_strip_markers(name, s),
        ),
        None => spec_remove_named(name, s),
    }
}

/// Substitutes an optional decimal parameter, as
/// `spec_process_opt_double` describes.
pub fn process_optional_double(name: &str, value: Option<Decimal>, script: &[u8]) -> (r: Vec<u8>)
    ensures
        r@ == spec_process_opt_double(name.spec_bytes(), value, script@),
{
    match value {
        Some(v) => {
            let stripped = strip_markers(name, script);
            let rendered = v.render();
            replace_placeholder(name, rendered.as_slice(), stripped.as_slice())
        },
        None => remove_named(name, script),
    }
}

/// An optional boolean, rendered as the capitalized tokens.
pub open spec fn spec_process_opt_bool(name: Seq<u8>, value: Option<bool>, s: Seq<u8>) -> Seq<u8> {
    match value {
        Some(v) => spec_replace_placeholder(name, spec_bool_bytes(v), spec_strip_markers(name, s)),
        None => spec_remove_named(name, s),
    }
}

/// Substitutes an optional boolean parameter, as
/// `spec_process_opt_bool` describes.
pub fn process_optional_bool(name: &str, value: Option<bool>, script: &[u8]) -> (r: Vec<u8>)
    ensures
        r@ == spec_process_opt_bool(name.spec_bytes(), value, script@),
{
    match value {
        Some(v) => {
            let stripped = strip_markers(name, script);
            let rendered = bool_token(v);
            replace_placeholder(name, rendered.as_slice(), stripped.as_slice())
        },
        None => remove_named(name, script),
    }
}

/// An optional byte string, inserted verbatim.
pub open spec fn spec_process_opt_string(name: Seq<u8>, value: Option<Seq<u8>>, s: Seq<u8>) -> Seq<
    u8,
> {
    match value {
        Some(v) => spec_replace_placeholder(name, v, spec_strip_markers(name, s)),
        None => spec_remove_named(name, s),
    }
}

/// Substitutes an optional string parameter, as
/// `spec_process_opt_string` describes.
pub fn process_optional_string(name: &str, value: Option<&Vec<u8>>, script: &[u8]) -> (r: Vec<u8>)
    ensures
        r@ == spec_process_opt_string(
            name.spec_bytes(),
            match value {
                Some(v) => Some(v@),
                None => None,
            },
            script@,
        ),
{
    match value {
        Some(v) => {
            let stripped = strip_markers(name, script);
            replace_placeholder(name, v.as_slice(), stripped.as_slice())
        },
        None => remove_named(name, script),
    }
}

/// The backslash byte.
pub const BACKSLASH: u8 = 92;

/// The path with every backslash doubled, so the script interpreter's
/// string literals stay intact.
pub open spec fn spec_escape_path(p: Seq<u8>) -> Seq<u8> {
    replace_all(p, seq![BACKSLASH], seq![BACKSLASH, BACKSLASH])
}

/// Doubles every backslash of a path, as `spec_escape_path` describes.
pub fn escape_path(p: &[u8]) -> (r: Vec<u8>)
    ensures
        r@ == spec_escape_path(p@),
{
    let pat: [u8; 1] = [BACKSLASH];
    let rep: [u8; 2] = [BACKSLASH, BACKSLASH];
    proof {
        assert(pat@ =~= seq![BACKSLASH]);
        assert(rep@ =~= seq![BACKSLASH, BACKSLASH]);
    }
    replace_all_exec(p, &pat, &rep)
}


/// View of an optional byte string.
pub open spec fn opt_view(v: Option<Vec<u8>>) -> Option<Seq<u8>> {
    match v {
        Some(b) => Some(b@),
        None => None,
    }
}

pub open spec fn spec_subst_dei_head(s: Seq<u8>, p: QTGMCParameters) -> Seq<u8> {
    let s1 = spec_strip_markers("DEINTERLACE".spec_bytes(), s);
    let s2 = spec_replace_placeholder("PRESET".spec_bytes(), p.preset.spec_name_bytes(), s1);
    let s3 = spec_process_opt_bool("TFF".spec_bytes(), p.tff, s2);
    let s4 = spec_process_opt_int("INPUT_TYPE".spec_bytes(), if p.input_type != 0 { Some(p.input_type) } else { None }, s3);
    let s5 = spec_process_opt_int("FPS_DIVISOR".spec_bytes(), if p.fps_divisor != 1 { Some(p.fps_divisor) } else { None }, s4);
    s5
}

fn subst_dei_head(s: &[u8], p: &QTGMCParameters) -> (r: Vec<u8>)
    ensures
        r@ == spec_subst_dei_head(s@, *p),
{
    let preset_name = p.preset.name_bytes();
    let s1 = strip_markers("DEINTERLACE", s);
    let s2 = replace_placeholder("PRESET", preset_name.as_slice(), s1.as_slice());
    let s3 = process_optional_bool("TFF", p.tff, s2.as_slice());
    let s4 = process_optional_int("INPUT_TYPE", if p.input_type != 0 { Some(p.input_type) } else { None }, s3.as_slice());
    let s5 = process_optional_int("FPS_DIVISOR", if p.fps_divisor != 1 { Some(p.fps_divisor) } else { None }, s4.as_slice());
    s5
}

pub open spec fn spec_subst_dei_quality(s: Seq<u8>, p: QTGMCParameters) -> Seq<u8> {
    let s1 = spec_process_opt_int("TR0".spec_bytes(), p.tr0, s);
    let s2 = spec_process_opt_int("TR1".spec_bytes(), p.tr1, s1);
    let s3 = spec_process_opt_int("TR2".spec_bytes(), p.tr2, s2);
    let s4 = spec_process_opt_int("REP0".spec_bytes(), p.rep0, s3);
    let s5 = spec_process_opt_int("REP1".spec_bytes(), if p.rep1 != 0 { Some(p.rep1) } else { None }, s4);
    let s6 = spec_process_opt_int("REP2".spec_bytes(), p.rep2, s5);
    let s7 = spec_process_opt_bool("REP_CHROMA".spec_bytes(), if !p.rep_chroma { Some(false) } else { None }, s6);
    s7
}

fn subst_dei_quality(s: &[u8], p: &QTGMCParameters) -> (r: Vec<u8>)
    ensures
        r@ == spec_subst_dei_quality(s@, *p),
{
    let s1 = process_optional_int("TR0", p.tr0, s);
    let s2 = process_optional_int("TR1", p.tr1, s1.as_slice());
    let s3 = process_optional_int("TR2", p.tr2, s2.as_slice());
    let s4 = process_optional_int("REP0", p.rep0, s3.as_slice());
    let s5 = process_optional_int("REP1", if p.rep1 != 0 { Some(p.rep1) } else { None }, s4.as_slice());
    let s6 = process_optional_int("REP2", p.rep2, s5.as_slice());
    let s7 = process_optional_bool("REP_CHROMA", if !p.rep_chroma { Some(false) } else { None }, s6.as_slice());
    s7
}

pub open spec fn spec_subst_dei_interp(s: Seq<u8>, p: QTGMCParameters) -> Seq<u8> {
    let s1 = spec_process_opt_string("EDI_MODE".spec_bytes(), opt_view(p.edi_mode), s);
    let s2 = spec_process_opt_int("NN_SIZE".spec_bytes(), p.nn_size, s1);
    let s3 = spec_process_opt_int("NN_NEURONS".spec_bytes(), p.nn_neurons, s2);
    let s4 = spec_process_opt_int("EDI_QUAL".spec_bytes(), if p.edi_qual != 1 { Some(p.edi_qual) } else { None }, s3);
    let s5 = spec_process_opt_int("EDI_MAX_D".spec_bytes(), p.edi_max_d, s4);
    let s6 = spec_process_opt_string("CHROMA_EDI".spec_bytes(), if p.chroma_edi@.len() == 0 { None } else { Some(p.chroma_edi@) }, s5);
    s6
}

fn subst_dei_interp(s: &[u8], p: &QTGMCParameters) -> (r: Vec<u8>)
    ensures
        r@ == spec_subst_dei_interp(s@, *p),
{
    let s1 = process_optional_string("EDI_MODE", match &p.edi_mode { Some(v) => Some(v), None => None }, s);
    let s2 = process_optional_int("NN_SIZE", p.nn_size, s1.as_slice());
    let s3 = process_optional_int("NN_NEURONS", p.nn_neurons, s2.as_slice());
    let s4 = process_optional_int("EDI_QUAL", if p.edi_qual != 1 { Some(p.edi_qual) } else { None }, s3.as_slice());
    let s5 = process_optional_int("EDI_MAX_D", p.edi_max_d, s4.as_slice());
    let s6 = process_optional_string("CHROMA_EDI", if p.chroma_edi.len() == 0 { None } else { Some(&p.chroma_edi) }, s5.as_slice());
    s6
}

pub open spec fn spec_subst_dei_motion(s: Seq<u8>, p: QTGMCParameters) -> Seq<u8> {
    let s1 = spec_process_opt_int("BLOCK_SIZE".spec_bytes(), p.block_size, s);
    let s2 = spec_process_opt_int("OVERLAP".spec_bytes(), p.overlap, s1);
    let s3 = spec_process_opt_int("SEARCH".spec_bytes(), p.search, s2);
    let s4 = spec_process_opt_int("SEARCH_PARAM".spec_bytes(), p.search_param, s3);
    let s5 = spec_process_opt_int("PEL_SEARCH".spec_bytes(), p.pel_search, s4);
    let s6 = spec_process_opt_bool("CHROMA_MOTION".spec_bytes(), p.chroma_motion, s5);
    let s7 = spec_process_opt_bool("TRUE_MOTION".spec_bytes(), if p.true_motion { Some(true) } else { None }, s6);
    let s8 = spec_process_opt_int("LAMBDA".spec_bytes(), p.lambda, s7);
    let s9 = spec_process_opt_int("LSAD".spec_bytes(), p.lsad, s8);
    let s10 = spec_process_opt_int("P_NEW".spec_bytes(), p.p_new, s9);
    let s11 = spec_process_opt_int("P_LEVEL".spec_bytes(), p.p_level, s10);
    let s12 = spec_process_opt_bool("GLOBAL_MOTION".spec_bytes(), if !p.global_motion { Some(false) } else { None }, s11);
    let s13 = spec_process_opt_int("DCT".spec_bytes(), if p.dct != 0 { Some(p.dct) } else { None }, s12);
    let s14 = spec_process_opt_int("SUB_PEL".spec_bytes(), p.sub_pel, s13);
    let s15 = spec_process_opt_int("SUB_PEL_INTERP".spec_bytes(), if p.sub_pel_interp != 2 { Some(p.sub_pel_interp) } else { None }, s14);
    s15
}

fn subst_dei_motion(s: &[u8], p: &QTGMCParameters) -> (r: Vec<u8>)
    ensures
        r@ == spec_subst_dei_motion(s@, *p),
{
    let s1 = process_optional_int("BLOCK_SIZE", p.block_size, s);
    let s2 = process_optional_int("OVERLAP", p.overlap, s1.as_slice());
    let s3 = process_optional_int("SEARCH", p.search, s2.as_slice());
    let s4 = process_optional_int("SEARCH_PARAM", p.search_param, s3.as_slice());
    let s5 = process_optional_int("PEL_SEARCH", p.pel_search, s4.as_slice());
    let s6 = process_optional_bool("CHROMA_MOTION", p.chroma_motion, s5.as_slice());
    let s7 = process_optional_bool("TRUE_MOTION", if p.true_motion { Some(true) } else { None }, s6.as_slice());
    let s8 = process_optional_int("LAMBDA", p.lambda, s7.as_slice());
    let s9 = process_optional_int("LSAD", p.lsad, s8.as_slice());
    let s10 = process_optional_int("P_NEW", p.p_new, s9.as_slice());
    let s11 = process_optional_int("P_LEVEL", p.p_level, s10.as_slice());
    let s12 = process_optional_bool("GLOBAL_MOTION", if !p.global_motion { Some(false) } else { None }, s11.as_slice());
    let s13 = process_optional_int("DCT", if p.dct != 0 { Some(p.dct) } else { None }, s12.as_slice());
    let s14 = process_optional_int("SUB_PEL", p.sub_pel, s13.as_slice());
    let s15 = process_optional_int("SUB_PEL_INTERP", if p.sub_pel_interp != 2 { Some(p.sub_pel_interp) } else { None }, s14.as_slice());
    s15
}

pub open spec fn spec_subst_dei_thresholds(s: Seq<u8>, p: QTGMCParameters) -> Seq<u8> {
    let s1 = spec_process_opt_int("TH_SAD1".spec_bytes(), if p.th_sad1 != 640 { Some(p.th_sad1) } else { None }, s);
    let s2 = spec_process_opt_int("TH_SAD2".spec_bytes(), if p.th_sad2 != 256 { Some(p.th_sad2) } else { None }, s1);
    let s3 = spec_process_opt_int("TH_SCD1".spec_bytes(), if p.th_scd1 != 180 { Some(p.th_scd1) } else { None }, s2);
    let s4 = spec_process_opt_int("TH_SCD2".spec_bytes(), if p.th_scd2 != 98 { Some(p.th_scd2) } else { None }, s3);
    s4
}

fn subst_dei_thresholds(s: &[u8], p: &QTGMCParameters) -> (r: Vec<u8>)
    ensures
        r@ == spec_subst_dei_thresholds(s@, *p),
{
    let s1 = process_optional_int("TH_SAD1", if p.th_sad1 != 640 { Some(p.th_sad1) } else { None }, s);
    let s2 = process_optional_int("TH_SAD2", if p.th_sad2 != 256 { Some(p.th_sad2) } else { None }, s1.as_slice());
    let s3 = process_optional_int("TH_SCD1", if p.th_scd1 != 180 { Some(p.th_scd1) } else { None }, s2.as_slice());
    let s4 = process_optional_int("TH_SCD2", if p.th_scd2 != 98 { Some(p.th_scd2) } else { None }, s3.as_slice());
    s4
}

pub open spec fn spec_subst_dei_sharpen(s: Seq<u8>, p: QTGMCParameters) -> Seq<u8> {
    let s1 = spec_process_opt_double("SHARPNESS".spec_bytes(), p.sharpness, s);
    let s2 = spec_process_opt_int("S_MODE".spec_bytes(), p.s_mode, s1);
    let s3 = spec_process_opt_int("SL_MODE".spec_bytes(), p.sl_mode, s2);
    let s4 = spec_process_opt_int("SL_RAD".spec_bytes(), p.sl_rad, s3);
    let s5 = spec_process_opt_int("S_OVS".spec_bytes(), if p.s_ovs != 0 { Some(p.s_ovs) } else { None }, s4);
    let s6 = spec_process_opt_double("SV_THIN".spec_bytes(), if p.sv_thin.scaled != 0 { Some(p.sv_thin) } else { None }, s5);
    let s7 = spec_process_opt_int("SBB".spec_bytes(), p.sbb, s6);
    let s8 = spec_process_opt_int("SRCH_CLIP_PP".spec_bytes(), p.srch_clip_pp, s7);
    s8
}

fn subst_dei_sharpen(s: &[u8], p: &QTGMCParameters) -> (r: Vec<u8>)
    ensures
        r@ == spec_subst_dei_sharpen(s@, *p),
{
    let s1 = process_optional_double("SHARPNESS", p.sharpness, s);
    let s2 = process_optional_int("S_MODE", p.s_mode, s1.as_slice());
    let s3 = process_optional_int("SL_MODE", p.sl_mode, s2.as_slice());
    let s4 = process_optional_int("SL_RAD", p.sl_rad, s3.as_slice());
    let s5 = process_optional_int("S_OVS", if p.s_ovs != 0 { Some(p.s_ovs) } else { None }, s4.as_slice());
    let s6 = process_optional_double("SV_THIN", if p.sv_thin.scaled != 0 { Some(p.sv_thin) } else { None }, s5.as_slice());
    let s7 = process_optional_int("SBB", p.sbb, s6.as_slice());
    let s8 = process_optional_int("SRCH_CLIP_PP", p.srch_clip_pp, s7.as_slice());
    s8
}

pub open spec fn spec_subst_dei_noise(s: Seq<u8>, p: QTGMCParameters) -> Seq<u8> {
    let s1 = spec_process_opt_int("NOISE_PROCESS".spec_bytes(), p.noise_process, s);
    let s2 = spec_process_opt_double("EZ_DENOISE".spec_bytes(), p.ez_denoise, s1);
    let s3 = spec_process_opt_double("EZ_KEEP_GRAIN".spec_bytes(), p.ez_keep_grain, s2);
    let s4 = spec_process_opt_string("NOISE_PRESET".spec_bytes(), if p.noise_preset@ == "Fast".spec_bytes() { None } else { Some(p.noise_preset@) }, s3);
    let s5 = spec_process_opt_string("DENOISER".spec_bytes(), opt_view(p.denoiser), s4);
    let s6 = spec_process_opt_int("FFT_THREADS".spec_bytes(), if p.fft_threads != 1 { Some(p.fft_threads) } else { None }, s5);
    let s7 = spec_process_opt_bool("DENOISE_MC".spec_bytes(), p.denoise_mc, s6);
    let s8 = spec_process_opt_int("NOISE_TR".spec_bytes(), p.noise_tr, s7);
    let s9 = spec_process_opt_double("SIGMA".spec_bytes(), p.sigma, s8);
    let s10 = spec_process_opt_bool("CHROMA_NOISE".spec_bytes(), if p.chroma_noise { Some(true) } else { None }, s9);
    let s11 = spec_process_opt_double("SHOW_NOISE".spec_bytes(), if p.show_noise.scaled != 0 { Some(p.show_noise) } else { None }, s10);
    let s12 = spec_process_opt_double("GRAIN_RESTORE".spec_bytes(), p.grain_restore, s11);
    let s13 = spec_process_opt_double("NOISE_RESTORE".spec_bytes(), p.noise_restore, s12);
    let s14 = spec_process_opt_string("NOISE_DEINT".spec_bytes(), opt_view(p.noise_deint), s13);
    let s15 = spec_process_opt_bool("STABILIZE_NOISE".spec_bytes(), p.stabilize_noise, s14);
    s15
}

fn subst_dei_noise(s: &[u8], p: &QTGMCParameters) -> (r: Vec<u8>)
    ensures
        r@ == spec_subst_dei_noise(s@, *p),
{
    let s1 = process_optional_int("NOISE_PROCESS", p.noise_process, s);
    let s2 = process_optional_double("EZ_DENOISE", p.ez_denoise, s1.as_slice());
    let s3 = process_optional_double("EZ_KEEP_GRAIN", p.ez_keep_grain, s2.as_slice());
    let s4 = process_optional_string("NOISE_PRESET", if bytes_eq(p.noise_preset.as_slice(), "Fast".as_bytes()) { None } else { Some(&p.noise_preset) }, s3.as_slice());
    let s5 = process_optional_string("DENOISER", match &p.denoiser { Some(v) => Some(v), None => None }, s4.as_slice());
    let s6 = process_optional_int("FFT_THREADS", if p.fft_threads != 1 { Some(p.fft_threads) } else { None }, s5.as_slice());
    let s7 = process_optional_bool("DENOISE_MC", p.denoise_mc, s6.as_slice());
    let s8 = process_optional_int("NOISE_TR", p.noise_tr, s7.as_slice());
    let s9 = process_optional_double("SIGMA", p.sigma, s8.as_slice());
    let s10 = process_optional_bool("CHROMA_NOISE", if p.chroma_noise { Some(true) } else { None }, s9.as_slice());
    let s11 = process_optional_double("SHOW_NOISE", if p.show_noise.scaled != 0 { Some(p.show_noise) } else { None }, s10.as_slice());
    let s12 = process_optional_double("GRAIN_RESTORE", p.grain_restore, s11.as_slice());
    let s13 = process_optional_double("NOISE_RESTORE", p.noise_restore, s12.as_slice());
    let s14 = process_optional_string("NOISE_DEINT", match &p.noise_deint { Some(v) => Some(v), None => None }, s13.as_slice());
    let s15 = process_optional_bool("STABILIZE_NOISE", p.stabilize_noise, s14.as_slice());
    s15
}

pub open spec fn spec_subst_dei_matching(s: Seq<u8>, p: QTGMCParameters) -> Seq<u8> {
    let s1 = spec_process_opt_int("SOURCE_MATCH".spec_bytes(), if p.source_match != 0 { Some(p.source_match) } else { None }, s);
    let s2 = spec_process_opt_string("MATCH_PRESET".spec_bytes(), opt_view(p.match_preset), s1);
    let s3 = spec_process_opt_string("MATCH_EDI".spec_bytes(), opt_view(p.match_edi), s2);
    let s4 = spec_process_opt_string("MATCH_PRESET2".spec_bytes(), opt_view(p.match_preset2), s3);
    let s5 = spec_process_opt_string("MATCH_EDI2".spec_bytes(), opt_view(p.match_edi2), s4);
    let s6 = spec_process_opt_int("MATCH_TR2".spec_bytes(), if p.match_tr2 != 1 { Some(p.match_tr2) } else { None }, s5);
    let s7 = spec_process_opt_double("MATCH_ENHANCE".spec_bytes(), if p.match_enhance.scaled > 5010 || p.match_enhance.scaled < 4990 { Some(p.match_enhance) } else { None }, s6);
    let s8 = spec_process_opt_int("LOSSLESS".spec_bytes(), if p.lossless != 0 { Some(p.lossless) } else { None }, s7);
    s8
}

fn subst_dei_matching(s: &[u8], p: &QTGMCParameters) -> (r: Vec<u8>)
    ensures
        r@ == spec_subst_dei_matching(s@, *p),
{
    let s1 = process_optional_int("SOURCE_MATCH", if p.source_match != 0 { Some(p.source_match) } else { None }, s);
    let s2 = process_optional_string("MATCH_PRESET", match &p.match_preset { Some(v) => Some(v), None => None }, s1.as_slice());
    let s3 = process_optional_string("MATCH_EDI", match &p.match_edi { Some(v) => Some(v), None => None }, s2.as_slice());
    let s4 = process_optional_string("MATCH_PRESET2", match &p.match_preset2 { Some(v) => Some(v), None => None }, s3.as_slice());
    let s5 = process_optional_string("MATCH_EDI2", match &p.match_edi2 { Some(v) => Some(v), None => None }, s4.as_slice());
    let s6 = process_optional_int("MATCH_TR2", if p.match_tr2 != 1 { Some(p.match_tr2) } else { None }, s5.as_slice());
    let s7 = process_optional_double("MATCH_ENHANCE", if p.match_enhance.scaled > 5010 || p.match_enhance.scaled < 4990 { Some(p.match_enhance) } else { None }, s6.as_slice());
    let s8 = process_optional_int("LOSSLESS", if p.lossless != 0 { Some(p.lossless) } else { None }, s7.as_slice());
    s8
}

pub open spec fn spec_subst_dei_advanced(s: Seq<u8>, p: QTGMCParameters) -> Seq<u8> {
    let s1 = spec_process_opt_bool("BORDER".spec_bytes(), if p.border { Some(true) } else { None }, s);
    let s2 = spec_process_opt_bool("PRECISE".spec_bytes(), p.precise, s1);
    let s3 = spec_process_opt_int("FORCE_TR".spec_bytes(), if p.force_tr != 0 { Some(p.force_tr) } else { None }, s2);
    let s4 = spec_process_opt_bool("OPENCL".spec_bytes(), Some(p.opencl), s3);
    let s5 = spec_process_opt_int("DEVICE".spec_bytes(), p.device, s4);
    s5
}

fn subst_dei_advanced(s: &[u8], p: &QTGMCParameters) -> (r: Vec<u8>)
    ensures
        r@ == spec_subst_dei_advanced(s@, *p),
{
    let s1 = process_optional_bool("BORDER", if p.border { Some(true) } else { None }, s);
    let s2 = process_optional_bool("PRECISE", p.precise, s1.as_slice());
    let s3 = process_optional_int("FORCE_TR", if p.force_tr != 0 { Some(p.force_tr) } else { None }, s2.as_slice());
    let s4 = process_optional_bool("OPENCL", Some(p.opencl), s3.as_slice());
    let s5 = process_optional_int("DEVICE", p.device, s4.as_slice());
    s5
}



/// The deinterlace stage: enabled, the markers strip and every tunable
/// substitutes from the single-stage parameter set; disabled, the whole
/// block goes.
pub open spec fn spec_subst_deinterlace(s: Seq<u8>, enabled: bool, p: QTGMCParameters) -> Seq<u8> {
    if enabled {
        let s1 = spec_subst_dei_head(s, p);
        let s2 = spec_subst_dei_quality(s1, p);
        let s3 = spec_subst_dei_interp(s2, p);
        let s4 = spec_subst_dei_motion(s3, p);
        let s5 = spec_subst_dei_thresholds(s4, p);
        let s6 = spec_subst_dei_sharpen(s5, p);
        let s7 = spec_subst_dei_noise(s6, p);
        let s8 = spec_subst_dei_matching(s7, p);
        spec_subst_dei_advanced(s8, p)
    } else {
        spec_remove_named("DEINTERLACE".spec_bytes(), s)
    }
}

/// Substitutes the deinterlace stage, as `spec_subst_deinterlace`
/// describes.
pub fn subst_deinterlace(s: &[u8], enabled: bool, p: &QTGMCParameters) -> (r: Vec<u8>)
    ensures
        r@ == spec_subst_deinterlace(s@, enabled, *p),
{
    if enabled {
        let s1 = subst_dei_head(s, p);
        let s2 = subst_dei_quality(s1.as_slice(), p);
        let s3 = subst_dei_interp(s2.as_slice(), p);
        let s4 = subst_dei_motion(s3.as_slice(), p);
        let s5 = subst_dei_thresholds(s4.as_slice(), p);
        let s6 = subst_dei_sharpen(s5.as_slice(), p);
        let s7 = subst_dei_noise(s6.as_slice(), p);
        let s8 = subst_dei_matching(s7.as_slice(), p);
        subst_dei_advanced(s8.as_slice(), p)
    } else {
        remove_named("DEINTERLACE", s)
    }
}

/// The crop pre-pass: kept only when the stage and the crop are enabled
/// and some edge is cropped.
pub open spec fn spec_subst_crop(s: Seq<u8>, c: CropResizeParameters) -> Seq<u8> {
    if c.enabled && c.crop_enabled && (c.crop_left > 0 || c.crop_right > 0 || c.crop_top > 0
        || c.crop_bottom > 0) {
        let s1 = spec_strip_markers("PRE_CROP".spec_bytes(), s);
        let s2 = spec_replace_placeholder(
            "CROP_LEFT".spec_bytes(),
            spec_int_bytes(c.crop_left as int),
            s1,
        );
        let s3 = spec_replace_placeholder(
            "CROP_RIGHT".spec_bytes(),
            spec_int_bytes(c.crop_right as int),
            s2,
        );
        let s4 = spec_replace_placeholder(
            "CROP_TOP".spec_bytes(),
            spec_int_bytes(c.crop_top as int),
            s3,
        );
        spec_replace_placeholder("CROP_BOTTOM".spec_bytes(), spec_int_bytes(c.crop_bottom as int), s4)
    } else {
        spec_remove_named("PRE_CROP".spec_bytes(), s)
    }
}

/// Substitutes the crop pre-pass, as `spec_subst_crop` describes.
pub fn subst_crop(s: &[u8], c: &CropResizeParameters) -> (r: Vec<u8>)
    ensures
        r@ == spec_subst_crop(s@, *c),
{
    if c.enabled && c.crop_enabled && (c.crop_left > 0 || c.crop_right > 0 || c.crop_top > 0
        || c.crop_bottom > 0) {
        let s1 = strip_markers("PRE_CROP", s);
        let s2 = replace_placeholder_int("CROP_LEFT", c.crop_left, s1.as_slice());
        let s3 = replace_placeholder_int("CROP_RIGHT", c.crop_right, s2.as_slice());
        let s4 = replace_placeholder_int("CROP_TOP", c.crop_top, s3.as_slice());
        replace_placeholder_int("CROP_BOTTOM", c.crop_bottom, s4.as_slice())
    } else {
        remove_named("PRE_CROP", s)
    }
}

/// The noise reduction stage: the selected method's block is kept and
/// filled, the competing methods' blocks are removed.
pub open spec fn spec_subst_noise(s: Seq<u8>, nr: NoiseReductionParameters) -> Seq<u8> {
    if nr.enabled {
        let s1 = spec_strip_markers("NOISE_REDUCTION".spec_bytes(), s);
        match nr.method {
            NoiseReductionMethod::SmDegrain => {
                let s2 = spec_strip_markers("NR_SMDEGRAIN".spec_bytes(), s1);
                let s3 = spec_remove_named("NR_MCTD".spec_bytes(), s2);
                let s4 = spec_remove_named("NR_BM3D".spec_bytes(), s3);
                let s5 = spec_process_opt_int("NR_TR".spec_bytes(), Some(nr.sm_degrain_tr), s4);
                let s6 = spec_process_opt_int(
                    "NR_TH_SAD".spec_bytes(),
                    Some(nr.sm_degrain_th_sad),
                    s5,
                );
                let s7 = spec_process_opt_int(
                    "NR_TH_SADC".spec_bytes(),
                    if nr.sm_degrain_th_sadc != nr.sm_degrain_th_sad {
                        Some(nr.sm_degrain_th_sadc)
                    } else {
                        None
                    },
                    s6,
                );
                let s8 = spec_process_opt_bool(
                    "NR_REFINE_MOTION".spec_bytes(),
                    Some(nr.sm_degrain_refine),
                    s7,
                );
                let s9 = spec_process_opt_int(
                    "NR_PREFILTER".spec_bytes(),
                    if nr.sm_degrain_prefilter != 2 {
                        Some(nr.sm_degrain_prefilter)
                    } else {
                        None
                    },
                    s8,
                );
                spec_process_opt_bool("NR_CONTRASHARP".spec_bytes(), None, s9)
            },
            NoiseReductionMethod::McTemporalDenoise => {
                let s2 = spec_remove_named("NR_SMDEGRAIN".spec_bytes(), s1);
                let s3 = spec_strip_markers("NR_MCTD".spec_bytes(), s2);
                let s4 = spec_remove_named("NR_BM3D".spec_bytes(), s3);
                let s5 = spec_process_opt_double(
                    "NR_SIGMA".spec_bytes(),
                    Some(nr.mc_temporal_sigma),
                    s4,
                );
                spec_process_opt_int("NR_RADIUS".spec_bytes(), Some(nr.mc_temporal_radius), s5)
            },
            NoiseReductionMethod::QtgmcBuiltin => {
                let s2 = spec_remove_named("NR_SMDEGRAIN".spec_bytes(), s1);
                let s3 = spec_remove_named("NR_MCTD".spec_bytes(), s2);
                spec_remove_named("NR_BM3D".spec_bytes(), s3)
            },
        }
    } else {
        spec_remove_named("NOISE_REDUCTION".spec_bytes(), s)
    }
}

/// Substitutes the noise reduction stage, as `spec_subst_noise`
/// describes.
pub fn subst_noise(s: &[u8], nr: &NoiseReductionParameters) -> (r: Vec<u8>)
    ensures
        r@ == spec_subst_noise(s@, *nr),
{
    if nr.enabled {
        let s1 = strip_markers("NOISE_REDUCTION", s);
        match nr.method {
            NoiseReductionMethod::SmDegrain => {
                let s2 = strip_markers("NR_SMDEGRAIN", s1.as_slice());
                let s3 = remove_named("NR_MCTD", s2.as_slice());
                let s4 = remove_named("NR_BM3D", s3.as_slice());
                let s5 = process_optional_int("NR_TR", Some(nr.sm_degrain_tr), s4.as_slice());
                let s6 = process_optional_int(
                    "NR_TH_SAD",
                    Some(nr.sm_degrain_th_sad),
                    s5.as_slice(),
                );
                let s7 = process_optional_int(
                    "NR_TH_SADC",
                    if nr.sm_degrain_th_sadc != nr.sm_degrain_th_sad {
                        Some(nr.sm_degrain_th_sadc)
                    } else {
                        None
                    },
                    s6.as_slice(),
                );
                let s8 = process_optional_bool(
                    "NR_REFINE_MOTION",
                    Some(nr.sm_degrain_refine),
                    s7.as_slice(),
                );
                let s9 = process_optional_int(
                    "NR_PREFILTER",
                    if nr.sm_degrain_prefilter != 2 {
                        Some(nr.sm_degrain_prefilter)
                    } else {
                        None
                    },
                    s8.as_slice(),
                );
                process_optional_bool("NR_CONTRASHARP", None, s9.as_slice())
            },
            NoiseReductionMethod::McTemporalDenoise => {
                let s2 = remove_named("NR_SMDEGRAIN", s1.as_slice());
                let s3 = strip_markers("NR_MCTD", s2.as_slice());
                let s4 = remove_named("NR_BM3D", s3.as_slice());
                let s5 = process_optional_double(
                    "NR_SIGMA",
                    Some(nr.mc_temporal_sigma),
                    s4.as_slice(),
                );
                process_optional_int("NR_RADIUS", Some(nr.mc_temporal_radius), s5.as_slice())
            },
            NoiseReductionMethod::QtgmcBuiltin => {
                let s2 = remove_named("NR_SMDEGRAIN", s1.as_slice());
                let s3 = remove_named("NR_MCTD", s2.as_slice());
                remove_named("NR_BM3D", s3.as_slice())
            },
        }
    } else {
        remove_named("NOISE_REDUCTION", s)
    }
}

/// The dehalo stage: one method's block is kept, the alternates are
/// removed, and the radius and strength values fill the shared
/// placeholders of the two radius-based methods.
pub open spec fn spec_subst_dehalo(s: Seq<u8>, d: DehaloParameters) -> Seq<u8> {
    if d.enabled {
        let s1 = spec_strip_markers("DEHALO".spec_bytes(), s);
        let s2 = match d.method {
            DehaloMethod::DehaloAlpha => {
                let a = spec_strip_markers("DEHALO_DEHALO_ALPHA".spec_bytes(), s1);
                let b = spec_remove_named("DEHALO_FINE_DEHALO".spec_bytes(), a);
                spec_remove_named("DEHALO_YAHR".spec_bytes(), b)
            },
            DehaloMethod::FineDehalo => {
                let a = spec_remove_named("DEHALO_DEHALO_ALPHA".spec_bytes(), s1);
                let b = spec_strip_markers("DEHALO_FINE_DEHALO".spec_bytes(), a);
                let c = spec_remove_named("DEHALO_YAHR".spec_bytes(), b);
                let e = spec_process_opt_int(
                    "DEHALO_LOW_THRESHOLD".spec_bytes(),
                    Some(d.low_threshold),
                    c,
                );
                spec_process_opt_int("DEHALO_HIGH_THRESHOLD".spec_bytes(), Some(d.high_threshold), e)
            },
            DehaloMethod::Yahr => {
                let a = spec_remove_named("DEHALO_DEHALO_ALPHA".spec_bytes(), s1);
                let b = spec_remove_named("DEHALO_FINE_DEHALO".spec_bytes(), a);
                let c = spec_strip_markers("DEHALO_YAHR".spec_bytes(), b);
                let e = spec_process_opt_int("DEHALO_YAHR_BLUR".spec_bytes(), Some(d.yahr_blur), c);
                spec_process_opt_int("DEHALO_YAHR_DEPTH".spec_bytes(), Some(d.yahr_depth), e)
            },
        };
        if d.method != DehaloMethod::Yahr {
            let a = spec_process_opt_double("DEHALO_RX".spec_bytes(), Some(d.rx), s2);
            let b = spec_process_opt_double("DEHALO_RY".spec_bytes(), Some(d.ry), a);
            let c = spec_process_opt_double("DEHALO_DARKSTR".spec_bytes(), Some(d.dark_str), b);
            spec_process_opt_double("DEHALO_BRIGHTSTR".spec_bytes(), Some(d.bright_str), c)
        } else {
            s2
        }
    } else {
        spec_remove_named("DEHALO".spec_bytes(), s)
    }
}

/// Substitutes the dehalo stage, as `spec_subst_dehalo` describes.
pub fn subst_dehalo(s: &[u8], d: &DehaloParameters) -> (r: Vec<u8>)
    ensures
        r@ == spec_subst_dehalo(s@, *d),
{
    if d.enabled {
        let s1 = strip_markers("DEHALO", s);
        let s2 = match d.method {
            DehaloMethod::DehaloAlpha => {
                let a = strip_markers("DEHALO_DEHALO_ALPHA", s1.as_slice());
                let b = remove_named("DEHALO_FINE_DEHALO", a.as_slice());
                remove_named("DEHALO_YAHR", b.as_slice())
            },
            DehaloMethod::FineDehalo => {
                let a = remove_named("DEHALO_DEHALO_ALPHA", s1.as_slice());
                let b = strip_markers("DEHALO_FINE_DEHALO", a.as_slice());
                let c = remove_named("DEHALO_YAHR", b.as_slice());
                let e = process_optional_int(
                    "DEHALO_LOW_THRESHOLD",
                    Some(d.low_threshold),
                    c.as_slice(),
                );
                process_optional_int("DEHALO_HIGH_THRESHOLD", Some(d.high_threshold), e.as_slice())
            },
            DehaloMethod::Yahr => {
                let a = remove_named("DEHALO_DEHALO_ALPHA", s1.as_slice());
                let b = remove_named("DEHALO_FINE_DEHALO", a.as_slice());
                let c = strip_markers("DEHALO_YAHR", b.as_slice());
                let e = process_optional_int("DEHALO_YAHR_BLUR", Some(d.yahr_blur), c.as_slice());
                process_optional_int("DEHALO_YAHR_DEPTH", Some(d.yahr_depth), e.as_slice())
            },
        };
        if d.method != DehaloMethod::Yahr {
            let a = process_optional_double("DEHALO_RX", Some(d.rx), s2.as_slice());
            let b = process_optional_double("DEHALO_RY", Some(d.ry), a.as_slice());
            let c = process_optional_double("DEHALO_DARKSTR", Some(d.dark_str), b.as_slice());
            process_optional_double("DEHALO_BRIGHTSTR", Some(d.bright_str), c.as_slice())
        } else {
            s2
        }
    } else {
        remove_named("DEHALO", s)
    }
}

/// The deblock stage: the edge-aware method fills four strengths, the
/// plain method one.
pub open spec fn spec_subst_deblock(s: Seq<u8>, d: DeblockParameters) -> Seq<u8> {
    if d.enabled {
        let s1 = spec_strip_markers("DEBLOCK".spec_bytes(), s);
        match d.method {
            DeblockMethod::DeblockQed => {
                let a = spec_strip_markers("DEBLOCK_QED".spec_bytes(), s1);
                let b = spec_remove_named("DEBLOCK_SIMPLE".spec_bytes(), a);
                let c = spec_process_opt_int("DEBLOCK_QUANT1".spec_bytes(), Some(d.quant1), b);
                let e = spec_process_opt_int("DEBLOCK_QUANT2".spec_bytes(), Some(d.quant2), c);
                let f = spec_process_opt_int("DEBLOCK_AOFFSET1".spec_bytes(), Some(d.a_offset1), e);
                spec_process_opt_int("DEBLOCK_AOFFSET2".spec_bytes(), Some(d.a_offset2), f)
            },
            DeblockMethod::Deblock => {
                let a = spec_remove_named("DEBLOCK_QED".spec_bytes(), s1);
                let b = spec_strip_markers("DEBLOCK_SIMPLE".spec_bytes(), a);
                spec_process_opt_int("DEBLOCK_QUANT1".spec_bytes(), Some(d.quant1), b)
            },
        }
    } else {
        spec_remove_named("DEBLOCK".spec_bytes(), s)
    }
}

/// Substitutes the deblock stage, as `spec_subst_deblock` describes.
pub fn subst_deblock(s: &[u8], d: &DeblockParameters) -> (r: Vec<u8>)
    ensures
        r@ == spec_subst_deblock(s@, *d),
{
    if d.enabled {
        let s1 = strip_markers("DEBLOCK", s);
        match d.method {
            DeblockMethod::DeblockQed => {
                let a = strip_markers("DEBLOCK_QED", s1.as_slice());
                let b = remove_named("DEBLOCK_SIMPLE", a.as_slice());
                let c = process_optional_int("DEBLOCK_QUANT1", Some(d.quant1), b.as_slice());
                let e = process_optional_int("DEBLOCK_QUANT2", Some(d.quant2), c.as_slice());
                let f = process_optional_int("DEBLOCK_AOFFSET1", Some(d.a_offset1), e.as_slice());
                process_optional_int("DEBLOCK_AOFFSET2", Some(d.a_offset2), f.as_slice())
            },
            DeblockMethod::Deblock => {
                let a = remove_named("DEBLOCK_QED", s1.as_slice());
                let b = strip_markers("DEBLOCK_SIMPLE", a.as_slice());
                process_optional_int("DEBLOCK_QUANT1", Some(d.quant1), b.as_slice())
            },
        }
    } else {
        remove_named("DEBLOCK", s)
    }
}

/// The deband stage: every tunable fills its block.
pub open spec fn spec_subst_deband(s: Seq<u8>, d: DebandParameters) -> Seq<u8> {
    if d.enabled {
        let s1 = spec_strip_markers("DEBAND".spec_bytes(), s);
        let s2 = spec_process_opt_int("DEBAND_RANGE".spec_bytes(), Some(d.range), s1);
        let s3 = spec_process_opt_int("DEBAND_Y".spec_bytes(), Some(d.y), s2);
        let s4 = spec_process_opt_int("DEBAND_CB".spec_bytes(), Some(d.cb), s3);
        let s5 = spec_process_opt_int("DEBAND_CR".spec_bytes(), Some(d.cr), s4);
        let s6 = spec_process_opt_int("DEBAND_GRAINY".spec_bytes(), Some(d.grain_y), s5);
        let s7 = spec_process_opt_int("DEBAND_GRAINC".spec_bytes(), Some(d.grain_c), s6);
        let s8 = spec_process_opt_bool("DEBAND_DYNAMIC_GRAIN".spec_bytes(), Some(d.dynamic_grain), s7);
        spec_process_opt_int("DEBAND_OUTPUT_DEPTH".spec_bytes(), Some(d.output_depth), s8)
    } else {
        spec_remove_named("DEBAND".spec_bytes(), s)
    }
}

/// Substitutes the deband stage, as `spec_subst_deband` describes.
pub fn subst_deband(s: &[u8], d: &DebandParameters) -> (r: Vec<u8>)
    ensures
        r@ == spec_subst_deband(s@, *d),
{
    if d.enabled {
        let s1 = strip_markers("DEBAND", s);
        let s2 = process_optional_int("DEBAND_RANGE", Some(d.range), s1.as_slice());
        let s3 = process_optional_int("DEBAND_Y", Some(d.y), s2.as_slice());
        let s4 = process_optional_int("DEBAND_CB", Some(d.cb), s3.as_slice());
        let s5 = process_optional_int("DEBAND_CR", Some(d.cr), s4.as_slice());
        let s6 = process_optional_int("DEBAND_GRAINY", Some(d.grain_y), s5.as_slice());
        let s7 = process_optional_int("DEBAND_GRAINC", Some(d.grain_c), s6.as_slice());
        let s8 = process_optional_bool("DEBAND_DYNAMIC_GRAIN", Some(d.dynamic_grain), s7.as_slice());
        process_optional_int("DEBAND_OUTPUT_DEPTH", Some(d.output_depth), s8.as_slice())
    } else {
        remove_named("DEBAND", s)
    }
}

/// The sharpen stage: one method's block is kept and filled.
pub open spec fn spec_subst_sharpen(s: Seq<u8>, p: SharpenParameters) -> Seq<u8> {
    if p.enabled {
        let s1 = spec_strip_markers("SHARPEN".spec_bytes(), s);
        match p.method {
            SharpenMethod::LSFmod => {
                let a = spec_strip_markers("SHARPEN_LSFMOD".spec_bytes(), s1);
                let b = spec_remove_named("SHARPEN_CAS".spec_bytes(), a);
                let c = spec_process_opt_int("SHARPEN_STRENGTH".spec_bytes(), Some(p.strength), b);
                let e = spec_process_opt_int("SHARPEN_OVERSHOOT".spec_bytes(), Some(p.overshoot), c);
                let f = spec_process_opt_int(
                    "SHARPEN_UNDERSHOOT".spec_bytes(),
                    Some(p.undershoot),
                    e,
                );
                spec_process_opt_int("SHARPEN_SOFT_EDGE".spec_bytes(), Some(p.soft_edge), f)
            },
            SharpenMethod::CAS => {
                let a = spec_remove_named("SHARPEN_LSFMOD".spec_bytes(), s1);
                let b = spec_strip_markers("SHARPEN_CAS".spec_bytes(), a);
                spec_process_opt_double("SHARPEN_CAS_SHARPNESS".spec_bytes(), Some(p.cas_sharpness), b)
            },
        }
    } else {
        spec_remove_named("SHARPEN".spec_bytes(), s)
    }
}

/// Substitutes the sharpen stage, as `spec_subst_sharpen` describes.
pub fn subst_sharpen(s: &[u8], p: &SharpenParameters) -> (r: Vec<u8>)
    ensures
        r@ == spec_subst_sharpen(s@, *p),
{
    if p.enabled {
        let s1 = strip_markers("SHARPEN", s);
        match p.method {
            SharpenMethod::LSFmod => {
                let a = strip_markers("SHARPEN_LSFMOD", s1.as_slice());
                let b = remove_named("SHARPEN_CAS", a.as_slice());
                let c = process_optional_int("SHARPEN_STRENGTH", Some(p.strength), b.as_slice());
                let e = process_optional_int("SHARPEN_OVERSHOOT", Some(p.overshoot), c.as_slice());
                let f = process_optional_int(
                    "SHARPEN_UNDERSHOOT",
                    Some(p.undershoot),
                    e.as_slice(),
                );
                process_optional_int("SHARPEN_SOFT_EDGE", Some(p.soft_edge), f.as_slice())
            },
            SharpenMethod::CAS => {
                let a = remove_named("SHARPEN_LSFMOD", s1.as_slice());
                let b = strip_markers("SHARPEN_CAS", a.as_slice());
                process_optional_double("SHARPEN_CAS_SHARPNESS", Some(p.cas_sharpness), b.as_slice())
            },
        }
    } else {
        remove_named("SHARPEN", s)
    }
}

/// The chroma fix stage: each of the three fixes is kept and filled, or
/// removed, on its own flag.
pub open spec fn spec_subst_chroma(s: Seq<u8>, c: ChromaFixParameters) -> Seq<u8> {
    if c.enabled {
        let s1 = spec_strip_markers("CHROMA_FIXES".spec_bytes(), s);
        let s2 = if c.apply_chroma_bleeding_fix {
            let a = spec_strip_markers("CHROMA_FIX_BLEEDING".spec_bytes(), s1);
            let b = spec_process_opt_int("CHROMA_CX".spec_bytes(), Some(c.chroma_bleed_cx), a);
            let d = spec_process_opt_int("CHROMA_CY".spec_bytes(), Some(c.chroma_bleed_cy), b);
            let e = spec_process_opt_double(
                "CHROMA_THR".spec_bytes(),
                Some(c.chroma_bleed_c_blur),
                d,
            );
            spec_process_opt_double("CHROMA_STRENGTH".spec_bytes(), Some(c.chroma_bleed_strength), e)
        } else {
            spec_remove_named("CHROMA_FIX_BLEEDING".spec_bytes(), s1)
        };
        let s3 = if c.apply_de_crawl {
            let a = spec_strip_markers("CHROMA_DECRAWL".spec_bytes(), s2);
            let b = spec_process_opt_int("DECRAWL_YTHRESH".spec_bytes(), Some(c.de_crawl_y_thresh), a);
            let d = spec_process_opt_int("DECRAWL_CTHRESH".spec_bytes(), Some(c.de_crawl_c_thresh), b);
            spec_process_opt_int("DECRAWL_MAXDIFF".spec_bytes(), Some(c.de_crawl_max_diff), d)
        } else {
            spec_remove_named("CHROMA_DECRAWL".spec_bytes(), s2)
        };
        if c.apply_vinverse {
            let a = spec_strip_markers("CHROMA_VINVERSE".spec_bytes(), s3);
            let b = spec_process_opt_double("VINVERSE_SSTR".spec_bytes(), Some(c.vinverse_sstr), a);
            spec_process_opt_int("VINVERSE_AMNT".spec_bytes(), Some(c.vinverse_amnt), b)
        } else {
            spec_remove_named("CHROMA_VINVERSE".spec_bytes(), s3)
        }
    } else {
        spec_remove_named("CHROMA_FIXES".spec_bytes(), s)
    }
}

/// Substitutes the chroma fix stage, as `spec_subst_chroma` describes.
pub fn subst_chroma(s: &[u8], c: &ChromaFixParameters) -> (r: Vec<u8>)
    ensures
        r@ == spec_subst_chroma(s@, *c),
{
    if c.enabled {
        let s1 = strip_markers("CHROMA_FIXES", s);
        let s2 = if c.apply_chroma_bleeding_fix {
            let a = strip_markers("CHROMA_FIX_BLEEDING", s1.as_slice());
            let b = process_optional_int("CHROMA_CX", Some(c.chroma_bleed_cx), a.as_slice());
            let d = process_optional_int("CHROMA_CY", Some(c.chroma_bleed_cy), b.as_slice());
            let e = process_optional_double(
                "CHROMA_THR",
                Some(c.chroma_bleed_c_blur),
                d.as_slice(),
            );
            process_optional_double("CHROMA_STRENGTH", Some(c.chroma_bleed_strength), e.as_slice())
        } else {
            remove_named("CHROMA_FIX_BLEEDING", s1.as_slice())
        };
        let s3 = if c.apply_de_crawl {
            let a = strip_markers("CHROMA_DECRAWL", s2.as_slice());
            let b = process_optional_int("DECRAWL_YTHRESH", Some(c.de_crawl_y_thresh), a.as_slice());
            let d = process_optional_int("DECRAWL_CTHRESH", Some(c.de_crawl_c_thresh), b.as_slice());
            process_optional_int("DECRAWL_MAXDIFF", Some(c.de_crawl_max_diff), d.as_slice())
        } else {
            remove_named("CHROMA_DECRAWL", s2.as_slice())
        };
        if c.apply_vinverse {
            let a = strip_markers("CHROMA_VINVERSE", s3.as_slice());
            let b = process_optional_double("VINVERSE_SSTR", Some(c.vinverse_sstr), a.as_slice());
            process_optional_int("VINVERSE_AMNT", Some(c.vinverse_amnt), b.as_slice())
        } else {
            remove_named("CHROMA_VINVERSE", s3.as_slice())
        }
    } else {
        remove_named("CHROMA_FIXES", s)
    }
}

/// Whether the tweak values deviate from neutral beyond the tolerance
/// of one thousandth.
pub open spec fn spec_has_tweak(c: ColorCorrectionParameters) -> bool {
    ||| c.brightness.scaled > 10
    ||| c.brightness.scaled < -10
    ||| c.contrast.scaled > 10010
    ||| c.contrast.scaled < 9990
    ||| c.saturation.scaled > 10010
    ||| c.saturation.scaled < 9990
    ||| c.hue.scaled > 10
    ||| c.hue.scaled < -10
}

/// Whether the levels values deviate from the identity mapping.
pub open spec fn spec_has_levels(c: ColorCorrectionParameters) -> bool {
    ||| c.input_low != 0
    ||| c.input_high != 255
    ||| c.output_low != 0
    ||| c.output_high != 255
    ||| c.gamma.scaled > 10010
    ||| c.gamma.scaled < 9990
}

/// The color correction stage: a tweak block when any tweak value
/// deviates from neutral, a levels block when any level deviates from
/// identity, each value emitted only off its own default.
pub open spec fn spec_subst_color(s: Seq<u8>, c: ColorCorrectionParameters) -> Seq<u8> {
    if c.enabled {
        let s1 = spec_strip_markers("COLOR_CORRECTION".spec_bytes(), s);
        let s2 = if spec_has_tweak(c) {
            let a = spec_strip_markers("COLOR_TWEAK".spec_bytes(), s1);
            let b = spec_process_opt_double(
                "COLOR_BRIGHTNESS".spec_bytes(),
                if c.brightness.scaled != 0 {
                    Some(c.brightness)
                } else {
                    None
                },
                a,
            );
            let d = spec_process_opt_double(
                "COLOR_CONTRAST".spec_bytes(),
                if c.contrast.scaled != 10000 {
                    Some(c.contrast)
                } else {
                    None
                },
                b,
            );
            let e = spec_process_opt_double(
                "COLOR_SATURATION".spec_bytes(),
                if c.saturation.scaled != 10000 {
                    Some(c.saturation)
                } else {
                    None
                },
                d,
            );
            spec_process_opt_double(
                "COLOR_HUE".spec_bytes(),
                if c.hue.scaled != 0 {
                    Some(c.hue)
                } else {
                    None
                },
                e,
            )
        } else {
            spec_remove_named("COLOR_TWEAK".spec_bytes(), s1)
        };
        if spec_has_levels(c) {
            let a = spec_strip_markers("COLOR_LEVELS".spec_bytes(), s2);
            let b = spec_process_opt_int(
                "LEVELS_INPUT_LOW".spec_bytes(),
                if c.input_low != 0 {
                    Some(c.input_low)
                } else {
                    None
                },
                a,
            );
            let d = spec_process_opt_int(
                "LEVELS_INPUT_HIGH".spec_bytes(),
                if c.input_high != 255 {
                    Some(c.input_high)
                } else {
                    None
                },
                b,
            );
            let e = spec_process_opt_int(
                "LEVELS_OUTPUT_LOW".spec_bytes(),
                if c.output_low != 0 {
                    Some(c.output_low)
                } else {
                    None
                },
                d,
            );
            let f = spec_process_opt_int(
                "LEVELS_OUTPUT_HIGH".spec_bytes(),
                if c.output_high != 255 {
                    Some(c.output_high)
                } else {
                    None
                },
                e,
            );
            spec_process_opt_double(
                "LEVELS_GAMMA".spec_bytes(),
                if c.gamma.scaled > 10010 || c.gamma.scaled < 9990 {
                    Some(c.gamma)
                } else {
                    None
                },
                f,
            )
        } else {
            spec_remove_named("COLOR_LEVELS".spec_bytes(), s2)
        }
    } else {
        spec_remove_named("COLOR_CORRECTION".spec_bytes(), s)
    }
}

/// Substitutes the color correction stage, as `spec_subst_color`
/// describes.
pub fn subst_color(s: &[u8], c: &ColorCorrectionParameters) -> (r: Vec<u8>)
    ensures
        r@ == spec_subst_color(s@, *c),
{
    if c.enabled {
        let s1 = strip_markers("COLOR_CORRECTION", s);
        let has_tweak = c.brightness.scaled > 10 || c.brightness.scaled < -10
            || c.contrast.scaled > 10010 || c.contrast.scaled < 9990
            || c.saturation.scaled > 10010 || c.saturation.scaled < 9990 || c.hue.scaled > 10
            || c.hue.scaled < -10;
        let s2 = if has_tweak {
            let a = strip_markers("COLOR_TWEAK", s1.as_slice());
            let b = process_optional_double(
                "COLOR_BRIGHTNESS",
                if c.brightness.scaled != 0 {
                    Some(c.brightness)
                } else {
                    None
                },
                a.as_slice(),
            );
            let d = process_optional_double(
                "COLOR_CONTRAST",
                if c.contrast.scaled != 10000 {
                    Some(c.contrast)
                } else {
                    None
                },
                b.as_slice(),
            );
            let e = process_optional_double(
                "COLOR_SATURATION",
                if c.saturation.scaled != 10000 {
                    Some(c.saturation)
                } else {
                    None
                },
                d.as_slice(),
            );
            process_optional_double(
                "COLOR_HUE",
                if c.hue.scaled != 0 {
                    Some(c.hue)
                } else {
                    None
                },
                e.as_slice(),
            )
        } else {
            remove_named("COLOR_TWEAK", s1.as_slice())
        };
        let has_levels = c.input_low != 0 || c.input_high != 255 || c.output_low != 0
            || c.output_high != 255 || c.gamma.scaled > 10010 || c.gamma.scaled < 9990;
        if has_levels {
            let a = strip_markers("COLOR_LEVELS", s2.as_slice());
            let b = process_optional_int(
                "LEVELS_INPUT_LOW",
                if c.input_low != 0 {
                    Some(c.input_low)
                } else {
                    None
                },
                a.as_slice(),
            );
            let d = process_optional_int(
                "LEVELS_INPUT_HIGH",
                if c.input_high != 255 {
                    Some(c.input_high)
                } else {
                    None
                },
                b.as_slice(),
            );
            let e = process_optional_int(
                "LEVELS_OUTPUT_LOW",
                if c.output_low != 0 {
                    Some(c.output_low)
                } else {
                    None
                },
                d.as_slice(),
            );
            let f = process_optional_int(
                "LEVELS_OUTPUT_HIGH",
                if c.output_high != 255 {
                    Some(c.output_high)
                } else {
                    None
                },
                e.as_slice(),
            );
            process_optional_double(
                "LEVELS_GAMMA",
                if c.gamma.scaled > 10010 || c.gamma.scaled < 9990 {
                    Some(c.gamma)
                } else {
                    None
                },
                f.as_slice(),
            )
        } else {
            remove_named("COLOR_LEVELS", s2.as_slice())
        }
    } else {
        remove_named("COLOR_CORRECTION", s)
    }
}

/// The resize post-pass: integer upscaling and the standard resize each
/// keep or lose their block; the standard resize picks one kernel block
/// and fills the target size, absent sides standing as minus one.
pub open spec fn spec_subst_resize(s: Seq<u8>, c: CropResizeParameters) -> Seq<u8> {
    if c.enabled && (c.resize_enabled || c.use_integer_upscale) {
        let s1 = spec_strip_markers("RESIZE".spec_bytes(), s);
        let s2 = if c.use_integer_upscale {
            let a = spec_strip_markers("RESIZE_INTEGER_UPSCALE".spec_bytes(), s1);
            let b = spec_replace_placeholder(
                "UPSCALE_FACTOR".spec_bytes(),
                spec_int_bytes(c.upscale_factor as int),
                a,
            );
            match c.upscale_method {
                UpscaleMethod::Nnedi3Rpow2 => {
                    let d = spec_strip_markers("UPSCALE_NNEDI3".spec_bytes(), b);
                    spec_remove_named("UPSCALE_EEDI3".spec_bytes(), d)
                },
                UpscaleMethod::Eedi3Rpow2 => {
                    let d = spec_remove_named("UPSCALE_NNEDI3".spec_bytes(), b);
                    spec_strip_markers("UPSCALE_EEDI3".spec_bytes(), d)
                },
                UpscaleMethod::Spline36 => {
                    let d = spec_remove_named("UPSCALE_NNEDI3".spec_bytes(), b);
                    spec_remove_named("UPSCALE_EEDI3".spec_bytes(), d)
                },
            }
        } else {
            spec_remove_named("RESIZE_INTEGER_UPSCALE".spec_bytes(), s1)
        };
        if c.resize_enabled {
            let width = match c.target_width {
                Some(w) => w as int,
                None => -1,
            };
            let height = match c.target_height {
                Some(h) => h as int,
                None => -1,
            };
            let a = spec_strip_markers("RESIZE_STANDARD".spec_bytes(), s2);
            let b = spec_replace_placeholder("TARGET_WIDTH".spec_bytes(), spec_int_bytes(width), a);
            let d = spec_replace_placeholder(
                "TARGET_HEIGHT".spec_bytes(),
                spec_int_bytes(height),
                b,
            );
            let e = if c.maintain_aspect {
                spec_strip_markers("MAINTAIN_ASPECT".spec_bytes(), d)
            } else {
                spec_remove_named("MAINTAIN_ASPECT".spec_bytes(), d)
            };
            match c.kernel {
                ResizeKernel::Spline36 | ResizeKernel::Nnedi3 | ResizeKernel::Eedi3 => {
                    let f = spec_strip_markers("RESIZE_SPLINE36".spec_bytes(), e);
                    let g = spec_remove_named("RESIZE_LANCZOS".spec_bytes(), f);
                    let h = spec_remove_named("RESIZE_BICUBIC".spec_bytes(), g);
                    spec_remove_named("RESIZE_BILINEAR".spec_bytes(), h)
                },
                ResizeKernel::Lanczos => {
                    let f = spec_remove_named("RESIZE_SPLINE36".spec_bytes(), e);
                    let g = spec_strip_markers("RESIZE_LANCZOS".spec_bytes(), f);
                    let h = spec_remove_named("RESIZE_BICUBIC".spec_bytes(), g);
                    spec_remove_named("RESIZE_BILINEAR".spec_bytes(), h)
                },
                ResizeKernel::Bicubic => {
                    let f = spec_remove_named("RESIZE_SPLINE36".spec_bytes(), e);
                    let g = spec_remove_named("RESIZE_LANCZOS".spec_bytes(), f);
                    let h = spec_strip_markers("RESIZE_BICUBIC".spec_bytes(), g);
                    spec_remove_named("RESIZE_BILINEAR".spec_bytes(), h)
                },
                ResizeKernel::Bilinear => {
                    let f = spec_remove_named("RESIZE_SPLINE36".spec_bytes(), e);
                    let g = spec_remove_named("RESIZE_LANCZOS".spec_bytes(), f);
                    let h = spec_remove_named("RESIZE_BICUBIC".spec_bytes(), g);
                    spec_strip_markers("RESIZE_BILINEAR".spec_bytes(), h)
                },
            }
        } else {
            spec_remove_named("RESIZE_STANDARD".spec_bytes(), s2)
        }
    } else {
        spec_remove_named("RESIZE".spec_bytes(), s)
    }
}

/// Substitutes the resize post-pass, as `spec_subst_resize` describes.
pub fn subst_resize(s: &[u8], c: &CropResizeParameters) -> (r: Vec<u8>)
    ensures
        r@ == spec_subst_resize(s@, *c),
{
    if c.enabled && (c.resize_enabled || c.use_integer_upscale) {
        let s1 = strip_markers("RESIZE", s);
        let s2 = if c.use_integer_upscale {
            let a = strip_markers("RESIZE_INTEGER_UPSCALE", s1.as_slice());
            let b = replace_placeholder_int("UPSCALE_FACTOR", c.upscale_factor, a.as_slice());
            match c.upscale_method {
                UpscaleMethod::Nnedi3Rpow2 => {
                    let d = strip_markers("UPSCALE_NNEDI3", b.as_slice());
                    remove_named("UPSCALE_EEDI3", d.as_slice())
                },
                UpscaleMethod::Eedi3Rpow2 => {
                    let d = remove_named("UPSCALE_NNEDI3", b.as_slice());
                    strip_markers("UPSCALE_EEDI3", d.as_slice())
                },
                UpscaleMethod::Spline36 => {
                    let d = remove_named("UPSCALE_NNEDI3", b.as_slice());
                    remove_named("UPSCALE_EEDI3", d.as_slice())
                },
            }
        } else {
            remove_named("RESIZE_INTEGER_UPSCALE", s1.as_slice())
        };
        if c.resize_enabled {
            let width: i32 = match c.target_width {
                Some(w) => w,
                None => -1,
            };
            let height: i32 = match c.target_height {
                Some(h) => h,
                None => -1,
            };
            let a = strip_markers("RESIZE_STANDARD", s2.as_slice());
            let b = replace_placeholder_int("TARGET_WIDTH", width, a.as_slice());
            let d = replace_placeholder_int("TARGET_HEIGHT", height, b.as_slice());
            let e = if c.maintain_aspect {
                strip_markers("MAINTAIN_ASPECT", d.as_slice())
            } else {
                remove_named("MAINTAIN_ASPECT", d.as_slice())
            };
            match c.kernel {
                ResizeKernel::Spline36 | ResizeKernel::Nnedi3 | ResizeKernel::Eedi3 => {
                    let f = strip_markers("RESIZE_SPLINE36", e.as_slice());
                    let g = remove_named("RESIZE_LANCZOS", f.as_slice());
                    let h = remove_named("RESIZE_BICUBIC", g.as_slice());
                    remove_named("RESIZE_BILINEAR", h.as_slice())
                },
                ResizeKernel::Lanczos => {
                    let f = remove_named("RESIZE_SPLINE36", e.as_slice());
                    let g = strip_markers("RESIZE_LANCZOS", f.as_slice());
                    let h = remove_named("RESIZE_BICUBIC", g.as_slice());
                    remove_named("RESIZE_BILINEAR", h.as_slice())
                },
                ResizeKernel::Bicubic => {
                    let f = remove_named("RESIZE_SPLINE36", e.as_slice());
                    let g = remove_named("RESIZE_LANCZOS", f.as_slice());
                    let h = strip_markers("RESIZE_BICUBIC", g.as_slice());
                    remove_named("RESIZE_BILINEAR", h.as_slice())
                },
                ResizeKernel::Bilinear => {
                    let f = remove_named("RESIZE_SPLINE36", e.as_slice());
                    let g = remove_named("RESIZE_LANCZOS", f.as_slice());
                    let h = remove_named("RESIZE_BICUBIC", g.as_slice());
                    strip_markers("RESIZE_BILINEAR", h.as_slice())
                },
            }
        } else {
            remove_named("RESIZE_STANDARD", s2.as_slice())
        }
    } else {
        remove_named("RESIZE", s)
    }
}


/// The built-in fallback template for a full run.
pub const EMBEDDED_TEMPLATE: &'static str = r#"import vapoursynth as vs
import sys

core = vs.core

# Load input video using ffms2 for frame-accurate seeking
clip = core.ffms2.Source(source=r"{{INPUT_PATH}}")

# Get input properties for progress tracking
input_fps_num = clip.fps.numerator
input_fps_den = clip.fps.denominator
total_frames = clip.num_frames
print(f"INPUT_INFO:frames={total_frames},fps_num={input_fps_num},fps_den={input_fps_den}", file=sys.stderr)

# Import havsfunc for QTGMC
import havsfunc as haf

# Apply QTGMC deinterlacing
clip = haf.QTGMC(
    clip,
    Preset="{{PRESET}}",
{{#TFF}}
    TFF={{TFF}},
{{/TFF}}
{{#FPS_DIVISOR}}
    FPSDivisor={{FPS_DIVISOR}},
{{/FPS_DIVISOR}}
{{#OPENCL}}
    opencl={{OPENCL}},
{{/OPENCL}}
)

# Output the processed clip
clip.set_output()
"#;

/// The built-in fallback template for a preview run.
pub const EMBEDDED_PREVIEW_TEMPLATE: &'static str = r#"import vapoursynth as vs
import sys
import os

core = vs.core

# Load the temporary preview video clip (extracted with fast keyframe seeking)
video_path = r"{{VIDEO_PATH}}"

# Load using ffms2 (fast since the clip is only ~11 frames)
clip = core.ffms2.Source(video_path, cachefile="")

# Set frame rate properties that QTGMC expects (from original video)
clip = core.std.AssumeFPS(clip, fpsnum={{FPS_NUM}}, fpsden={{FPS_DEN}})

# Mark as interlaced for QTGMC (field-based)
clip = core.std.SetFieldBased(clip, {{FIELD_BASED}})

# Report frame info
total_frames = clip.num_frames
print(f"INPUT_INFO:frames={total_frames},fps_num={{FPS_NUM}},fps_den={{FPS_DEN}}", file=sys.stderr)

# Import havsfunc for various filters (QTGMC, SMDegrain, chroma fixes)
import havsfunc as haf

# PASS 1: PRE-CROP
{{#PRE_CROP}}
clip = core.std.Crop(clip, left={{CROP_LEFT}}, right={{CROP_RIGHT}}, top={{CROP_TOP}}, bottom={{CROP_BOTTOM}})
{{/PRE_CROP}}

# PASS 2: DEINTERLACING (QTGMC)
{{#DEINTERLACE}}
clip = haf.QTGMC(
    clip,
    Preset="{{PRESET}}",
{{#TFF}}
    TFF={{TFF}},
{{/TFF}}
{{#FPS_DIVISOR}}
    FPSDivisor={{FPS_DIVISOR}},
{{/FPS_DIVISOR}}
{{#OPENCL}}
    opencl={{OPENCL}},
{{/OPENCL}}
)
{{/DEINTERLACE}}

# PASS 3: NOISE REDUCTION
{{#NOISE_REDUCTION}}
import mvsfunc as mvf

{{#NR_SMDEGRAIN}}
clip = haf.SMDegrain(
    clip,
{{#NR_TR}}
    tr={{NR_TR}},
{{/NR_TR}}
{{#NR_TH_SAD}}
    thSAD={{NR_TH_SAD}},
{{/NR_TH_SAD}}
)
{{/NR_SMDEGRAIN}}

{{#NR_MCTD}}
clip = haf.MCTemporalDenoise(
    clip,
{{#NR_SIGMA}}
    sigma={{NR_SIGMA}},
{{/NR_SIGMA}}
)
{{/NR_MCTD}}

{{#NR_BM3D}}
clip = mvf.BM3D(
    clip,
{{#NR_BM3D_SIGMA}}
    sigma={{NR_BM3D_SIGMA}},
{{/NR_BM3D_SIGMA}}
)
{{/NR_BM3D}}
{{/NOISE_REDUCTION}}

# PASS 4: DEHALO
{{#DEHALO}}

{{#DEHALO_DEHALO_ALPHA}}
clip = haf.DeHalo_alpha(
    clip,
{{#DEHALO_RX}}
    rx={{DEHALO_RX}},
{{/DEHALO_RX}}
{{#DEHALO_RY}}
    ry={{DEHALO_RY}},
{{/DEHALO_RY}}
{{#DEHALO_DARKSTR}}
    darkstr={{DEHALO_DARKSTR}},
{{/DEHALO_DARKSTR}}
{{#DEHALO_BRIGHTSTR}}
    brightstr={{DEHALO_BRIGHTSTR}},
{{/DEHALO_BRIGHTSTR}}
)
{{/DEHALO_DEHALO_ALPHA}}

{{#DEHALO_FINE_DEHALO}}
clip = haf.FineDehalo(
    clip,
{{#DEHALO_RX}}
    rx={{DEHALO_RX}},
{{/DEHALO_RX}}
{{#DEHALO_RY}}
    ry={{DEHALO_RY}},
{{/DEHALO_RY}}
{{#DEHALO_DARKSTR}}
    darkstr={{DEHALO_DARKSTR}},
{{/DEHALO_DARKSTR}}
{{#DEHALO_BRIGHTSTR}}
    brightstr={{DEHALO_BRIGHTSTR}},
{{/DEHALO_BRIGHTSTR}}
)
{{/DEHALO_FINE_DEHALO}}

{{#DEHALO_YAHR}}
clip = haf.YAHR(
    clip,
{{#DEHALO_YAHR_BLUR}}
    blur={{DEHALO_YAHR_BLUR}},
{{/DEHALO_YAHR_BLUR}}
{{#DEHALO_YAHR_DEPTH}}
    depth={{DEHALO_YAHR_DEPTH}},
{{/DEHALO_YAHR_DEPTH}}
)
{{/DEHALO_YAHR}}
{{/DEHALO}}

# PASS 5: DEBLOCK
{{#DEBLOCK}}

{{#DEBLOCK_QED}}
clip = haf.Deblock_QED(
    clip,
{{#DEBLOCK_QUANT1}}
    quant1={{DEBLOCK_QUANT1}},
{{/DEBLOCK_QUANT1}}
{{#DEBLOCK_QUANT2}}
    quant2={{DEBLOCK_QUANT2}},
{{/DEBLOCK_QUANT2}}
)
{{/DEBLOCK_QED}}

{{#DEBLOCK_SIMPLE}}
clip = core.deblock.Deblock(
    clip,
{{#DEBLOCK_QUANT1}}
    quant={{DEBLOCK_QUANT1}},
{{/DEBLOCK_QUANT1}}
)
{{/DEBLOCK_SIMPLE}}
{{/DEBLOCK}}

# PASS 6: DEBAND
{{#DEBAND}}
clip = core.neo_f3kdb.Deband(
    clip,
{{#DEBAND_RANGE}}
    range={{DEBAND_RANGE}},
{{/DEBAND_RANGE}}
{{#DEBAND_Y}}
    y={{DEBAND_Y}},
{{/DEBAND_Y}}
{{#DEBAND_CB}}
    cb={{DEBAND_CB}},
{{/DEBAND_CB}}
{{#DEBAND_CR}}
    cr={{DEBAND_CR}},
{{/DEBAND_CR}}
{{#DEBAND_GRAINY}}
    grainy={{DEBAND_GRAINY}},
{{/DEBAND_GRAINY}}
{{#DEBAND_GRAINC}}
    grainc={{DEBAND_GRAINC}},
{{/DEBAND_GRAINC}}
{{#DEBAND_OUTPUT_DEPTH}}
    output_depth={{DEBAND_OUTPUT_DEPTH}},
{{/DEBAND_OUTPUT_DEPTH}}
)
{{/DEBAND}}

# PASS 7: SHARPEN
{{#SHARPEN}}

{{#SHARPEN_LSFMOD}}
clip = haf.LSFmod(
    clip,
{{#SHARPEN_STRENGTH}}
    strength={{SHARPEN_STRENGTH}},
{{/SHARPEN_STRENGTH}}
{{#SHARPEN_OVERSHOOT}}
    overshoot={{SHARPEN_OVERSHOOT}},
{{/SHARPEN_OVERSHOOT}}
{{#SHARPEN_UNDERSHOOT}}
    undershoot={{SHARPEN_UNDERSHOOT}},
{{/SHARPEN_UNDERSHOOT}}
{{#SHARPEN_SOFT_EDGE}}
    soft={{SHARPEN_SOFT_EDGE}},
{{/SHARPEN_SOFT_EDGE}}
)
{{/SHARPEN_LSFMOD}}

{{#SHARPEN_CAS}}
clip = core.cas.CAS(
    clip,
{{#SHARPEN_CAS_SHARPNESS}}
    sharpness={{SHARPEN_CAS_SHARPNESS}},
{{/SHARPEN_CAS_SHARPNESS}}
)
{{/SHARPEN_CAS}}
{{/SHARPEN}}

# PASS 8: CHROMA FIXES
{{#CHROMA_FIXES}}

{{#CHROMA_FIX_BLEEDING}}
clip = haf.FixChromaBleedingMod(
    clip,
{{#CHROMA_CX}}
    cx={{CHROMA_CX}},
{{/CHROMA_CX}}
{{#CHROMA_CY}}
    cy={{CHROMA_CY}},
{{/CHROMA_CY}}
{{#CHROMA_THR}}
    thr={{CHROMA_THR}},
{{/CHROMA_THR}}
{{#CHROMA_STRENGTH}}
    strength={{CHROMA_STRENGTH}},
{{/CHROMA_STRENGTH}}
)
{{/CHROMA_FIX_BLEEDING}}

{{#CHROMA_DECRAWL}}
clip = haf.LUTDeCrawl(
    clip,
{{#DECRAWL_YTHRESH}}
    ythresh={{DECRAWL_YTHRESH}},
{{/DECRAWL_YTHRESH}}
{{#DECRAWL_CTHRESH}}
    cthresh={{DECRAWL_CTHRESH}},
{{/DECRAWL_CTHRESH}}
{{#DECRAWL_MAXDIFF}}
    maxdiff={{DECRAWL_MAXDIFF}},
{{/DECRAWL_MAXDIFF}}
)
{{/CHROMA_DECRAWL}}

{{#CHROMA_VINVERSE}}
clip = haf.Vinverse(
    clip,
{{#VINVERSE_SSTR}}
    sstr={{VINVERSE_SSTR}},
{{/VINVERSE_SSTR}}
{{#VINVERSE_AMNT}}
    amnt={{VINVERSE_AMNT}},
{{/VINVERSE_AMNT}}
)
{{/CHROMA_VINVERSE}}
{{/CHROMA_FIXES}}

# PASS 9: COLOR CORRECTION
{{#COLOR_CORRECTION}}
import adjust

{{#COLOR_TWEAK}}
clip = adjust.Tweak(
    clip,
{{#COLOR_BRIGHTNESS}}
    bright={{COLOR_BRIGHTNESS}},
{{/COLOR_BRIGHTNESS}}
{{#COLOR_CONTRAST}}
    cont={{COLOR_CONTRAST}},
{{/COLOR_CONTRAST}}
{{#COLOR_SATURATION}}
    sat={{COLOR_SATURATION}},
{{/COLOR_SATURATION}}
{{#COLOR_HUE}}
    hue={{COLOR_HUE}},
{{/COLOR_HUE}}
)
{{/COLOR_TWEAK}}

{{#COLOR_LEVELS}}
clip = core.std.Levels(
    clip,
{{#LEVELS_INPUT_LOW}}
    min_in={{LEVELS_INPUT_LOW}},
{{/LEVELS_INPUT_LOW}}
{{#LEVELS_INPUT_HIGH}}
    max_in={{LEVELS_INPUT_HIGH}},
{{/LEVELS_INPUT_HIGH}}
{{#LEVELS_OUTPUT_LOW}}
    min_out={{LEVELS_OUTPUT_LOW}},
{{/LEVELS_OUTPUT_LOW}}
{{#LEVELS_OUTPUT_HIGH}}
    max_out={{LEVELS_OUTPUT_HIGH}},
{{/LEVELS_OUTPUT_HIGH}}
{{#LEVELS_GAMMA}}
    gamma={{LEVELS_GAMMA}},
{{/LEVELS_GAMMA}}
)
{{/COLOR_LEVELS}}
{{/COLOR_CORRECTION}}

# PASS 10: RESIZE
{{#RESIZE}}

{{#RESIZE_INTEGER_UPSCALE}}
{{#UPSCALE_NNEDI3}}
def nnedi3_2x(c):
    c = core.znedi3.nnedi3(c, field=1, dh=True)
    c = core.std.Transpose(c)
    c = core.znedi3.nnedi3(c, field=1, dh=True)
    c = core.std.Transpose(c)
    return c
for _ in range({{UPSCALE_FACTOR}} // 2 if {{UPSCALE_FACTOR}} > 1 else 1):
    clip = nnedi3_2x(clip)
{{/UPSCALE_NNEDI3}}
{{#UPSCALE_EEDI3}}
clip = core.resize.Spline36(clip, width=clip.width * {{UPSCALE_FACTOR}}, height=clip.height * {{UPSCALE_FACTOR}})
{{/UPSCALE_EEDI3}}
{{/RESIZE_INTEGER_UPSCALE}}

{{#RESIZE_STANDARD}}
target_w = {{TARGET_WIDTH}}
target_h = {{TARGET_HEIGHT}}
{{#MAINTAIN_ASPECT}}
aspect = clip.width / clip.height
if target_w > 0 and target_h <= 0:
    target_h = int(target_w / aspect)
    target_h = target_h - (target_h % 2)
elif target_h > 0 and target_w <= 0:
    target_w = int(target_h * aspect)
    target_w = target_w - (target_w % 2)
elif target_w > 0 and target_h > 0:
    scale_w = target_w / clip.width
    scale_h = target_h / clip.height
    scale = min(scale_w, scale_h)
    target_w = int(clip.width * scale)
    target_w = target_w - (target_w % 2)
    target_h = int(clip.height * scale)
    target_h = target_h - (target_h % 2)
{{/MAINTAIN_ASPECT}}

{{#RESIZE_SPLINE36}}
clip = core.resize.Spline36(clip, width=target_w, height=target_h)
{{/RESIZE_SPLINE36}}
{{#RESIZE_LANCZOS}}
clip = core.resize.Lanczos(clip, width=target_w, height=target_h)
{{/RESIZE_LANCZOS}}
{{#RESIZE_BICUBIC}}
clip = core.resize.Bicubic(clip, width=target_w, height=target_h)
{{/RESIZE_BICUBIC}}
{{#RESIZE_BILINEAR}}
clip = core.resize.Bilinear(clip, width=target_w, height=target_h)
{{/RESIZE_BILINEAR}}
{{/RESIZE_STANDARD}}
{{/RESIZE}}

# OUTPUT - select the middle frame for preview
middle_frame = clip.num_frames // 2
clip = clip[middle_frame]
clip.set_output()
"#;

/// Parameters of a preview script: the extracted short clip and the
/// source properties the filters need.
#[derive(Debug)]
pub struct PreviewParams {
    /// Path of the temporary preview clip.
    pub video_path: Vec<u8>,
    /// Original frame rate numerator.
    pub fps_num: i32,
    /// Original frame rate denominator.
    pub fps_den: i32,
    /// Field order code: one for bottom field first, two for top field
    /// first.
    pub field_based: i32,
}

/// Every stage substituted in running order: crop pre-pass,
/// deinterlace, noise reduction, dehalo, deblock, deband, sharpen,
/// chroma fixes, color correction, resize post-pass. The deinterlace
/// values come from the single-stage parameter set; the pipeline's own
/// deinterlace entry only gates the block.
pub open spec fn spec_substitute_on(s: Seq<u8>, q: QTGMCParameters, pl: RestorationPipeline) -> Seq<
    u8,
> {
    let s1 = spec_subst_crop(s, pl.crop_resize);
    let s2 = spec_subst_deinterlace(s1, pl.deinterlace.enabled, q);
    let s3 = spec_subst_noise(s2, pl.noise_reduction);
    let s4 = spec_subst_dehalo(s3, pl.dehalo);
    let s5 = spec_subst_deblock(s4, pl.deblock);
    let s6 = spec_subst_deband(s5, pl.deband);
    let s7 = spec_subst_sharpen(s6, pl.sharpen);
    let s8 = spec_subst_chroma(s7, pl.chroma_fixes);
    let s9 = spec_subst_color(s8, pl.color_correction);
    spec_subst_resize(s9, pl.crop_resize)
}

/// The substitution a job without a multi-stage pipeline gets: the
/// deinterlace stage from the single-stage parameters, every other
/// stage's blocks removed.
pub open spec fn spec_substitute_legacy(s: Seq<u8>, q: QTGMCParameters) -> Seq<u8> {
    let s1 = spec_remove_named("PRE_CROP".spec_bytes(), s);
    let s2 = spec_subst_deinterlace(s1, q.enabled, q);
    let s3 = spec_remove_named("NOISE_REDUCTION".spec_bytes(), s2);
    let s4 = spec_remove_named("DEHALO".spec_bytes(), s3);
    let s5 = spec_remove_named("DEBLOCK".spec_bytes(), s4);
    let s6 = spec_remove_named("DEBAND".spec_bytes(), s5);
    let s7 = spec_remove_named("SHARPEN".spec_bytes(), s6);
    let s8 = spec_remove_named("CHROMA_FIXES".spec_bytes(), s7);
    let s9 = spec_remove_named("COLOR_CORRECTION".spec_bytes(), s8);
    spec_remove_named("RESIZE".spec_bytes(), s9)
}

/// The stage substitution a job gets: its own pipeline's, or the
/// synthesized single-stage one.
pub open spec fn spec_pipeline_substitution(s: Seq<u8>, job: VideoJob) -> Seq<u8> {
    match job.restoration_pipeline {
        Some(pl) => spec_substitute_on(s, job.qtgmc_parameters, pl),
        None => spec_substitute_legacy(s, job.qtgmc_parameters),
    }
}

/// The full rendering of a job over a template: the input path escaped
/// and substituted, then every stage.
pub open spec fn spec_generate(t: Seq<u8>, job: VideoJob) -> Seq<u8> {
    spec_pipeline_substitution(
        spec_replace_placeholder("INPUT_PATH".spec_bytes(), spec_escape_path(job.input_path@), t),
        job,
    )
}

/// The full rendering of a preview job: the clip path and source
/// properties first, then every stage.
pub open spec fn spec_generate_preview(t: Seq<u8>, job: VideoJob, pp: PreviewParams) -> Seq<u8> {
    let s1 = spec_replace_placeholder(
        "VIDEO_PATH".spec_bytes(),
        spec_escape_path(pp.video_path@),
        t,
    );
    let s2 = spec_replace_placeholder("FPS_NUM".spec_bytes(), spec_int_bytes(pp.fps_num as int), s1);
    let s3 = spec_replace_placeholder("FPS_DEN".spec_bytes(), spec_int_bytes(pp.fps_den as int), s2);
    let s4 = spec_replace_placeholder(
        "FIELD_BASED".spec_bytes(),
        spec_int_bytes(pp.field_based as int),
        s3,
    );
    spec_pipeline_substitution(s4, job)
}

/// Renders pipeline scripts from a pair of templates: one for full
/// runs, one for previews. Rendering is a pure function of the
/// templates and the job, so two renderings of one job are
/// byte-identical.
pub struct ScriptGenerator {
    /// The full-run template.
    pub template: Vec<u8>,
    /// The preview template.
    pub preview_template: Vec<u8>,
}

impl ScriptGenerator {
    /// A generator over the built-in templates.
    pub fn new() -> (r: Self)
        ensures
            r.template@ == EMBEDDED_TEMPLATE.spec_bytes(),
            r.preview_template@ == EMBEDDED_PREVIEW_TEMPLATE.spec_bytes(),
    {
        ScriptGenerator {
            template: Self::embedded_template(),
            preview_template: Self::embedded_preview_template(),
        }
    }

    /// A generator over externally loaded templates.
    pub fn from_templates(template: Vec<u8>, preview_template: Vec<u8>) -> (r: Self)
        ensures
            r.template@ == template@,
            r.preview_template@ == preview_template@,
    {
        ScriptGenerator { template, preview_template }
    }

    /// The built-in fallback template for a full run.
    pub fn embedded_template() -> (r: Vec<u8>)
        ensures
            r@ == EMBEDDED_TEMPLATE.spec_bytes(),
    {
        vstd::string::StrSliceExecFns::as_bytes_vec(EMBEDDED_TEMPLATE)
    }

    /// The built-in fallback template for a preview run.
    pub fn embedded_preview_template() -> (r: Vec<u8>)
        ensures
            r@ == EMBEDDED_PREVIEW_TEMPLATE.spec_bytes(),
    {
        vstd::string::StrSliceExecFns::as_bytes_vec(EMBEDDED_PREVIEW_TEMPLATE)
    }

    /// Substitutes the job's input path and every stage into a
    /// template, as `spec_generate` describes.
    pub fn substitute_parameters(&self, template: &[u8], job: &VideoJob) -> (r: Vec<u8>)
        ensures
            r@ == spec_generate(template@, *job),
    {
        let escaped = escape_path(job.input_path.as_slice());
        let s0 = replace_placeholder("INPUT_PATH", escaped.as_slice(), template);
        self.substitute_parameters_on(s0.as_slice(), job)
    }

    /// Substitutes every stage of the job's effective pipeline into an
    /// already-prepared script, as `spec_pipeline_substitution`
    /// describes.
    pub fn substitute_parameters_on(&self, script: &[u8], job: &VideoJob) -> (r: Vec<u8>)
        ensures
            r@ == spec_pipeline_substitution(script@, *job),
    {
        match &job.restoration_pipeline {
            Some(pl) => {
                let s1 = subst_crop(script, &pl.crop_resize);
                let s2 = subst_deinterlace(
                    s1.as_slice(),
                    pl.deinterlace.enabled,
                    &job.qtgmc_parameters,
                );
                let s3 = subst_noise(s2.as_slice(), &pl.noise_reduction);
                let s4 = subst_dehalo(s3.as_slice(), &pl.dehalo);
                let s5 = subst_deblock(s4.as_slice(), &pl.deblock);
                let s6 = subst_deband(s5.as_slice(), &pl.deband);
                let s7 = subst_sharpen(s6.as_slice(), &pl.sharpen);
                let s8 = subst_chroma(s7.as_slice(), &pl.chroma_fixes);
                let s9 = subst_color(s8.as_slice(), &pl.color_correction);
                subst_resize(s9.as_slice(), &pl.crop_resize)
            },
            None => {
                let s1 = remove_named("PRE_CROP", script);
                let s2 = subst_deinterlace(
                    s1.as_slice(),
                    job.qtgmc_parameters.enabled,
                    &job.qtgmc_parameters,
                );
                let s3 = remove_named("NOISE_REDUCTION", s2.as_slice());
                let s4 = remove_named("DEHALO", s3.as_slice());
                let s5 = remove_named("DEBLOCK", s4.as_slice());
                let s6 = remove_named("DEBAND", s5.as_slice());
                let s7 = remove_named("SHARPEN", s6.as_slice());
                let s8 = remove_named("CHROMA_FIXES", s7.as_slice());
                let s9 = remove_named("COLOR_CORRECTION", s8.as_slice());
                remove_named("RESIZE", s9.as_slice())
            },
        }
    }

    /// Renders the full-run script for the job, as `spec_generate`
    /// describes. Writing it to disk is the caller's task.
    pub fn generate(&self, job: &VideoJob) -> (r: Vec<u8>)
        ensures
            r@ == spec_generate(self.template@, *job),
    {
        self.substitute_parameters(self.template.as_slice(), job)
    }

    /// Renders the preview script for the job and clip, as
    /// `spec_generate_preview` describes.
    pub fn generate_preview(&self, job: &VideoJob, preview_params: &PreviewParams) -> (r: Vec<u8>)
        ensures
            r@ == spec_generate_preview(self.preview_template@, *job, *preview_params),
    {
        let escaped = escape_path(preview_params.video_path.as_slice());
        let s1 = replace_placeholder(
            "VIDEO_PATH",
            escaped.as_slice(),
            self.preview_template.as_slice(),
        );
        let s2 = replace_placeholder_int("FPS_NUM", preview_params.fps_num, s1.as_slice());
        let s3 = replace_placeholder_int("FPS_DEN", preview_params.fps_den, s2.as_slice());
        let s4 = replace_placeholder_int("FIELD_BASED", preview_params.field_based, s3.as_slice());
        self.substitute_parameters_on(s4.as_slice(), job)
    }
}

/// File name of the job's full-run script: its identifier and the
/// script extension.
pub fn script_file_name(job: &VideoJob) -> (r: Vec<u8>)
    ensures
        r@ == job.id@ + ".vpy".spec_bytes(),
{
    let mut out = clone_bytes(&job.id);
    append_all(&mut out, ".vpy".as_bytes());
    out
}

/// File name of the job's preview script.
pub fn preview_script_file_name(job: &VideoJob) -> (r: Vec<u8>)
    ensures
        r@ == job.id@ + "_preview.vpy".spec_bytes(),
{
    let mut out = clone_bytes(&job.id);
    append_all(&mut out, "_preview.vpy".as_bytes());
    out
}

/// Two renderings of one job over one template are byte-identical:
/// rendering is deterministic.
pub proof fn lemma_generate_deterministic(t: Seq<u8>, job: VideoJob, r1: Seq<u8>, r2: Seq<u8>)
    requires
        r1 == spec_generate(t, job),
        r2 == spec_generate(t, job),
    ensures
        r1 == r2,
{
}


/// A named block's markers are never empty.
pub proof fn lemma_named_tags_nonempty(name: Seq<u8>)
    ensures
        spec_start_tag(name).len() > 0,
        spec_end_tag(name).len() > 0,
        spec_placeholder(name).len() > 0,
{
    lemma_tag_part_lens();
}

/// Removing a named block is idempotent: a second removal changes
/// nothing, so a name that appears any number of times is handled by
/// one pass.
pub proof fn lemma_remove_named_idempotent(name: Seq<u8>, s: Seq<u8>)
    ensures
        spec_remove_named(name, spec_remove_named(name, s)) == spec_remove_named(name, s),
{
    lemma_named_tags_nonempty(name);
    crate::text::lemma_remove_blocks_idempotent(s, spec_start_tag(name), spec_end_tag(name));
}

/// After a named block's removal, any start marker still present has no
/// end marker at or after it; in a template whose blocks are properly
/// paired, none survives.
pub proof fn lemma_remove_named_complete(name: Seq<u8>, s: Seq<u8>)
    ensures
        ({
            let r = spec_remove_named(name, s);
            let st = spec_start_tag(name);
            let et = spec_end_tag(name);
            first_match(r, st, 0) == -1 || first_match(r, et, first_match(r, st, 0)) == -1
        }),
{
    lemma_named_tags_nonempty(name);
    crate::text::lemma_remove_blocks_unterminated(s, spec_start_tag(name), spec_end_tag(name));
}

/// A disabled stage contributes nothing but the removal of its named
/// block: whatever its other settings hold, its substitution is exactly
/// the removal of the stage's block, so none of its content survives
/// where the template pairs the markers properly.
pub proof fn lemma_disabled_stage_removes_block(s: Seq<u8>, pl: RestorationPipeline)
    ensures
        !pl.deinterlace.enabled ==> spec_subst_deinterlace(s, pl.deinterlace.enabled, pl.deinterlace)
            == spec_remove_named("DEINTERLACE".spec_bytes(), s),
        !pl.noise_reduction.enabled ==> spec_subst_noise(s, pl.noise_reduction)
            == spec_remove_named("NOISE_REDUCTION".spec_bytes(), s),
        !pl.dehalo.enabled ==> spec_subst_dehalo(s, pl.dehalo) == spec_remove_named(
            "DEHALO".spec_bytes(),
            s,
        ),
        !pl.deblock.enabled ==> spec_subst_deblock(s, pl.deblock) == spec_remove_named(
            "DEBLOCK".spec_bytes(),
            s,
        ),
        !pl.deband.enabled ==> spec_subst_deband(s, pl.deband) == spec_remove_named(
            "DEBAND".spec_bytes(),
            s,
        ),
        !pl.sharpen.enabled ==> spec_subst_sharpen(s, pl.sharpen) == spec_remove_named(
            "SHARPEN".spec_bytes(),
            s,
        ),
        !pl.chroma_fixes.enabled ==> spec_subst_chroma(s, pl.chroma_fixes) == spec_remove_named(
            "CHROMA_FIXES".spec_bytes(),
            s,
        ),
        !pl.color_correction.enabled ==> spec_subst_color(s, pl.color_correction)
            == spec_remove_named("COLOR_CORRECTION".spec_bytes(), s),
        !pl.crop_resize.enabled ==> spec_subst_crop(s, pl.crop_resize) == spec_remove_named(
            "PRE_CROP".spec_bytes(),
            s,
        ) && spec_subst_resize(s, pl.crop_resize) == spec_remove_named("RESIZE".spec_bytes(), s),
{
}


} // verus!

//! Decisions of the two-process pipeline run: parsing of both
//! diagnostic streams, throttled progress with effective totals and
//! estimated time, cancellation, encoder argument building, and the
//! exit-code policy.

use vstd::prelude::*;
use vstd::string::StringSliceAdditionalSpecFns;
use vstd::string::StrSliceExecFns;
use crate::models::video_job::VideoJob;
use crate::models::progress_info::ProgressInfo;
use crate::numfmt::{spec_int_bytes, i32_to_bytes, Decimal};
use crate::parse::{slice_subrange, spec_parse_decimal, spec_parse_i32, parse_decimal, parse_i32};
use crate::text::{append_all, clone_bytes, first_match, is_match_at, find_sub};

verus! {

/// The two external processes of one run.
#[derive(Clone, Copy, PartialEq, Eq, Structural, Debug)]
pub enum PipelineStage {
    FrameEngine,
    Encoder,
}

impl PipelineStage {
    pub open spec fn spec_name(self) -> Seq<char> {
        match self {
            PipelineStage::FrameEngine => "vspipe"@,
            PipelineStage::Encoder => "ffmpeg"@,
        }
    }

    /// The process's name, as reported in errors.
    pub fn name(&self) -> (r: &'static str)
        ensures
            r@ == self.spec_name(),
    {
        match self {
            PipelineStage::FrameEngine => "vspipe",
            PipelineStage::Encoder => "ffmpeg",
        }
    }
}

/// Why a run failed. Cancellation is its own variant: the caller does
/// not treat it as a failure.
#[derive(Debug)]
pub enum ExecutionError {
    /// The cancellation predicate became true; both processes were told
    /// to terminate.
    Cancelled,
    /// A stage exited with a code the policy does not tolerate.
    StageExited { stage: PipelineStage, code: i32 },
    /// A binary or template could not be found.
    Discovery { message: Vec<u8> },
    /// The system failed to start a process.
    Spawn { message: Vec<u8> },
    /// A pipe failed mid-run.
    Stream { message: Vec<u8> },
}

pub const COMMA: u8 = 44;

/// ASCII whitespace, as the diagnostic lines use it.
pub open spec fn is_space(b: u8) -> bool {
    b == 32 || (9 <= b <= 13)
}

/// True when `p` stands at the start of `s`.
pub open spec fn spec_starts_with(s: Seq<u8>, p: Seq<u8>) -> bool {
    is_match_at(s, p, 0)
}

/// True when `p` stands at the start of `s`.
pub fn starts_with(s: &[u8], p: &[u8]) -> (r: bool)
    ensures
        r == spec_starts_with(s@, p@),
{
    if p.len() > s.len() {
        return false;
    }
    crate::text::bytes_eq(slice_subrange(s, 0, p.len()), p)
}

/// Index of the first ASCII whitespace byte at or after `from`; -1 when
/// there is none.
pub open spec fn first_space(s: Seq<u8>, from: int) -> int
    decreases s.len() - from,
{
    if from < 0 || from >= s.len() {
        -1
    } else if is_space(s[from]) {
        from
    } else {
        first_space(s, from + 1)
    }
}

proof fn lemma_first_space_found(s: Seq<u8>, from: int, i: int)
    requires
        0 <= from <= i < s.len(),
        is_space(s[i]),
        forall|j: int| from <= j < i ==> !is_space(#[trigger] s[j]),
    ensures
        first_space(s, from) == i,
    decreases i - from,
{
    if from < i {
        lemma_first_space_found(s, from + 1, i);
    }
}

proof fn lemma_first_space_none(s: Seq<u8>, from: int)
    requires
        0 <= from,
        forall|j: int| from <= j < s.len() ==> !is_space(#[trigger] s[j]),
    ensures
        first_space(s, from) == -1,
    decreases s.len() - from,
{
    if from < s.len() {
        lemma_first_space_none(s, from + 1);
    }
}

/// Index of the first ASCII whitespace byte at or after `from`.
pub fn find_space(s: &[u8], from: usize) -> (r: Option<usize>)
    ensures
        match r {
            Some(i) => first_space(s@, from as int) == i as int,
            None => first_space(s@, from as int) == -1,
        },
{
    let n = s.len();
    if from >= n {
        return None;
    }
    let mut i = from;
    while i < n
        invariant
            from <= i <= n,
            n == s@.len(),
            forall|j: int| from <= j < i ==> !is_space(#[trigger] s@[j]),
        decreases n - i,
    {
        let b = s[i];
        if b == 32 || (9 <= b && b <= 13) {
            proof {
                lemma_first_space_found(s@, from as int, i as int);
            }
            return Some(i);
        }
        i = i + 1;
    }
    proof {
        lemma_first_space_none(s@, from as int);
    }
    None
}

/// The frame count named on a sentinel line: the last well-formed
/// `frames=` entry among the comma-separated pairs after the sentinel
/// prefix, if any.
pub open spec fn spec_input_info_frames(line: Seq<u8>) -> Option<i32> {
    let pre = "INPUT_INFO:".spec_bytes();
    if spec_starts_with(line, pre) {
        spec_frames_in_parts(line.skip(pre.len() as int))
    } else {
        None
    }
}

/// The last well-formed `frames=` value among comma-separated parts.
pub open spec fn spec_frames_in_parts(rest: Seq<u8>) -> Option<i32>
    decreases rest.len(),
    via spec_frames_in_parts_decreases
{
    let c = first_match(rest, seq![COMMA], 0);
    if c == -1 {
        spec_frames_of_part(rest)
    } else {
        let head = rest.subrange(0, c);
        let tail = rest.skip(c + 1);
        match spec_frames_in_parts(tail) {
            Some(v) => Some(v),
            None => spec_frames_of_part(head),
        }
    }
}

#[via_fn]
proof fn spec_frames_in_parts_decreases(rest: Seq<u8>) {
    crate::text::lemma_first_match_props(rest, seq![COMMA], 0);
}

pub open spec fn spec_frames_of_part(part: Seq<u8>) -> Option<i32> {
    let key = "frames=".spec_bytes();
    if spec_starts_with(part, key) {
        spec_parse_i32(part.skip(key.len() as int))
    } else {
        None
    }
}

/// Parses a frame-engine diagnostic line for the authoritative frame
/// count, as `spec_input_info_frames` describes.
pub fn parse_input_info(line: &[u8]) -> (r: Option<i32>)
    ensures
        r == spec_input_info_frames(line@),
{
    let pre = "INPUT_INFO:".as_bytes();
    if !starts_with(line, pre) {
        return None;
    }
    let rest = slice_subrange(line, pre.len(), line.len());
    proof {
        assert(rest@ =~= line@.skip(pre@.len() as int));
    }
    frames_in_parts(rest)
}

fn frames_in_parts(rest: &[u8]) -> (r: Option<i32>)
    ensures
        r == spec_frames_in_parts(rest@),
    decreases rest@.len(),
{
    let comma: [u8; 1] = [COMMA];
    proof {
        assert(comma@ =~= seq![COMMA]);
    }
    match find_sub(rest, &comma, 0) {
        None => frames_of_part(rest),
        Some(c) => {
            proof {
                crate::text::lemma_first_match_props(rest@, seq![COMMA], 0);
                assert(is_match_at(rest@, seq![COMMA], c as int));
                assert(c + 1 <= rest@.len());
            }
            let n = rest.len();
            let head = slice_subrange(rest, 0, c);
            let tail = slice_subrange(rest, c + 1, n);
            proof {
                assert(tail@ =~= rest@.skip(c + 1));
            }
            match frames_in_parts(tail) {
                Some(v) => Some(v),
                None => frames_of_part(head),
            }
        },
    }
}

fn frames_of_part(part: &[u8]) -> (r: Option<i32>)
    ensures
        r == spec_frames_of_part(part@),
{
    let key = "frames=".as_bytes();
    if !starts_with(part, key) {
        return None;
    }
    let rest = slice_subrange(part, key.len(), part.len());
    proof {
        assert(rest@ =~= part@.skip(key@.len() as int));
    }
    parse_i32(rest)
}

/// The frame number named on an encoder progress line: the first
/// whitespace-delimited token's value after the `frame=` prefix, when
/// the line starts with that prefix.
pub open spec fn spec_frame_of_line(line: Seq<u8>) -> Option<i32> {
    let key = "frame=".spec_bytes();
    if spec_starts_with(line, key) {
        let e = first_space(line, 0);
        let tok = if e == -1 {
            line
        } else {
            line.subrange(0, e)
        };
        spec_parse_i32(tok.skip(key.len() as int))
    } else {
        None
    }
}

/// The six bytes of the frame prefix hold no whitespace.
proof fn lemma_frame_key()
    ensures
        ({
            let k = "frame=".spec_bytes();
            k.len() == 6 && (forall|j: int| 0 <= j < k.len() ==> !is_space(#[trigger] k[j]))
        }),
{
    reveal_strlit("frame=");
    broadcast use vstd::string::is_ascii_spec_bytes;

    assert(vstd::string::is_ascii("frame="));
}

/// A line that starts with a whitespace-free prefix has no whitespace
/// before the prefix's end.
proof fn lemma_prefix_no_space(line: Seq<u8>, key: Seq<u8>)
    requires
        is_match_at(line, key, 0),
        forall|j: int| 0 <= j < key.len() ==> !is_space(#[trigger] key[j]),
    ensures
        first_space(line, 0) == -1 || first_space(line, 0) >= key.len(),
{
    assert forall|j: int| 0 <= j < key.len() implies !is_space(line[j]) by {
        assert(line.subrange(0, key.len() as int)[j] == line[j]);
    }
    lemma_first_space_props(line, 0);
}

/// Parses an encoder progress line for the current frame, as
/// `spec_frame_of_line` describes.
pub fn parse_frame_number(line: &[u8]) -> (r: Option<i32>)
    ensures
        r == spec_frame_of_line(line@),
{
    let key = "frame=".as_bytes();
    if !starts_with(line, key) {
        return None;
    }
    proof {
        lemma_frame_key();
        lemma_prefix_no_space(line@, key@);
        lemma_first_space_props(line@, 0);
    }
    let end = match find_space(line, 0) {
        Some(e) => e,
        None => line.len(),
    };
    let tok = slice_subrange(line, key.len(), end);
    proof {
        let e = first_space(line@, 0);
        let spectok = if e == -1 {
            line@
        } else {
            line@.subrange(0, e)
        };
        assert(tok@ =~= spectok.skip(key@.len() as int));
    }
    parse_i32(tok)
}

proof fn lemma_first_space_props(s: Seq<u8>, from: int)
    requires
        0 <= from,
    ensures
        first_space(s, from) == -1 ==> (forall|j: int|
            from <= j < s.len() ==> !is_space(#[trigger] s[j])),
        first_space(s, from) != -1 ==> {
            let i = first_space(s, from);
            &&& from <= i < s.len()
            &&& is_space(s[i])
            &&& forall|j: int| from <= j < i ==> !is_space(#[trigger] s[j])
        },
    decreases s.len() - from,
{
    if from < s.len() && !is_space(s[from]) {
        lemma_first_space_props(s, from + 1);
    }
}

/// The rate named on an encoder progress line: the value of the last
/// whitespace-delimited token that starts with `fps=` and parses as a
/// plain decimal, in ten-thousandths.
pub open spec fn spec_fps_of_line(s: Seq<u8>) -> Option<int>
    decreases s.len(),
    via spec_fps_of_line_decreases
{
    if s.len() == 0 {
        None
    } else if is_space(s[0]) {
        spec_fps_of_line(s.skip(1))
    } else {
        let e = first_space(s, 0);
        let tok = if e == -1 {
            s
        } else {
            s.subrange(0, e)
        };
        let rest = if e == -1 {
            Seq::<u8>::empty()
        } else {
            s.skip(e)
        };
        match spec_fps_of_line(rest) {
            Some(v) => Some(v),
            None => spec_fps_of_token(tok),
        }
    }
}

#[via_fn]
proof fn spec_fps_of_line_decreases(s: Seq<u8>) {
    if s.len() > 0 && !is_space(s[0]) {
        lemma_first_space_props(s, 0);
    }
}

pub open spec fn spec_fps_of_token(tok: Seq<u8>) -> Option<int> {
    let key = "fps=".spec_bytes();
    if spec_starts_with(tok, key) {
        spec_parse_decimal(tok.skip(key.len() as int))
    } else {
        None
    }
}

/// Parses an encoder progress line for the processing rate, as
/// `spec_fps_of_line` describes.
pub fn parse_fps(line: &[u8]) -> (r: Option<Decimal>)
    ensures
        match r {
            Some(d) => spec_fps_of_line(line@) == Some(d.scaled as int),
            None => spec_fps_of_line(line@) == None::<int>,
        },
    decreases line@.len(),
{
    let n = line.len();
    if n == 0 {
        return None;
    }
    let b = line[0];
    if b == 32 || (9 <= b && b <= 13) {
        let rest = slice_subrange(line, 1, n);
        proof {
            assert(rest@ =~= line@.skip(1));
        }
        return parse_fps(rest);
    }
    proof {
        if first_space(line@, 0) != -1 {
            lemma_first_space_props(line@, 0);
        }
    }
    let e = match find_space(line, 0) {
        Some(e) => e,
        None => n,
    };
    let tok = slice_subrange(line, 0, e);
    let rest = slice_subrange(line, e, n);
    proof {
        let se = first_space(line@, 0);
        if se == -1 {
            assert(tok@ =~= line@);
            assert(rest@ =~= Seq::<u8>::empty());
        } else {
            assert(tok@ =~= line@.subrange(0, se));
            assert(rest@ =~= line@.skip(se));
        }
    }
    match parse_fps(rest) {
        Some(v) => Some(v),
        None => fps_of_token(tok),
    }
}

fn fps_of_token(tok: &[u8]) -> (r: Option<Decimal>)
    ensures
        match r {
            Some(d) => spec_fps_of_token(tok@) == Some(d.scaled as int),
            None => spec_fps_of_token(tok@) == None::<int>,
        },
{
    let key = "fps=".as_bytes();
    if !starts_with(tok, key) {
        return None;
    }
    let rest = slice_subrange(tok, key.len(), tok.len());
    proof {
        assert(rest@ =~= tok@.skip(key@.len() as int));
    }
    parse_decimal(rest)
}

/// The total frames a progress event reports: the engine-reported count
/// is authoritative when positive, doubled when the deinterlacer keeps
/// double rate; otherwise the job-supplied count, or zero. Held to the
/// range of an `i32`.
pub open spec fn spec_effective_total(reported: i32, fps_divisor: i32, job_total: Option<i32>) -> int {
    if reported > 0 {
        if fps_divisor == 1 {
            if 2 * reported > i32::MAX {
                i32::MAX as int
            } else {
                2 * reported
            }
        } else {
            reported as int
        }
    } else {
        match job_total {
            Some(t) => t as int,
            None => 0,
        }
    }
}

/// Computes the effective total, as `spec_effective_total` describes.
pub fn effective_total(reported: i32, fps_divisor: i32, job_total: Option<i32>) -> (r: i32)
    ensures
        r == spec_effective_total(reported, fps_divisor, job_total),
{
    if reported > 0 {
        if fps_divisor == 1 {
            let doubled = (reported as i64) * 2;
            if doubled > 0x7FFF_FFFFi64 {
                0x7FFF_FFFFi32
            } else {
                doubled as i32
            }
        } else {
            reported
        }
    } else {
        match job_total {
            Some(t) => t,
            None => 0,
        }
    }
}

/// The estimated seconds remaining, in ten-thousandths: work left over
/// rate, zero when no rate is known or nothing is left.
pub open spec fn spec_eta_scaled(total: int, frame: int, fps_scaled: int) -> int {
    if fps_scaled > 0 && total > frame {
        ((total - frame) * 10000 * 10000) / fps_scaled
    } else {
        0
    }
}

/// Computes the estimated time remaining, as `spec_eta_scaled`
/// describes.
pub fn compute_eta(total: i32, frame: i32, fps: Decimal) -> (r: Decimal)
    ensures
        r.scaled == spec_eta_scaled(total as int, frame as int, fps.scaled as int),
{
    if fps.scaled > 0 && total > frame {
        let diff = (total as i64) - (frame as i64);
        let num = diff * 10000 * 10000;
        Decimal { scaled: num / fps.scaled }
    } else {
        Decimal { scaled: 0 }
    }
}

/// Minimum milliseconds between two progress events.
pub const PROGRESS_INTERVAL_MS: u64 = 500;

/// What one encoder diagnostic line leads to.
#[derive(Clone, Copy, PartialEq, Eq, Structural, Debug)]
pub enum EncoderLineAction {
    /// Terminate both processes and end the run cancelled.
    CancelRun,
    /// Emit this progress event.
    Report(ProgressInfo),
    /// Read on.
    Continue,
}

/// The mutable state the encoder's diagnostic stream drives: the
/// current frame and rate, and the time of the last progress event.
#[derive(Clone, Copy, Debug)]
pub struct ProgressTracker {
    /// Current frame, from the last `frame=` line.
    pub current_frame: i32,
    /// Current rate, from the last `fps=` token.
    pub current_fps: Decimal,
    /// Time of the last emitted progress event, in milliseconds.
    pub last_progress_ms: u64,
}

impl ProgressTracker {
    /// A tracker at the start of a run.
    pub fn new(now_ms: u64) -> (r: Self)
        ensures
            r.current_frame == 0,
            r.current_fps.scaled == 0,
            r.last_progress_ms == now_ms,
    {
        ProgressTracker { current_frame: 0, current_fps: Decimal { scaled: 0 }, last_progress_ms: now_ms }
    }

    /// The frame the tracker holds after a line.
    pub open spec fn spec_next_frame(self, line: Seq<u8>) -> i32 {
        match spec_frame_of_line(line) {
            Some(f) => f,
            None => self.current_frame,
        }
    }

    /// The rate the tracker holds after a line.
    pub open spec fn spec_next_fps(self, line: Seq<u8>) -> int {
        match spec_fps_of_line(line) {
            Some(v) => v,
            None => self.current_fps.scaled as int,
        }
    }

    /// Drives the tracker by one encoder diagnostic line. Cancellation
    /// wins over everything and leaves the state as it was; otherwise
    /// the frame and rate update from the line, and a progress event is
    /// due once the throttle interval has passed, carrying the
    /// effective total and the estimated time remaining.
    pub fn observe_encoder_line(
        &mut self,
        line: &[u8],
        cancelled: bool,
        reported_total: i32,
        fps_divisor: i32,
        job_total: Option<i32>,
        now_ms: u64,
    ) -> (r: EncoderLineAction)
        requires
            now_ms >= old(self).last_progress_ms,
        ensures
            cancelled ==> r == EncoderLineAction::CancelRun && *final(self) == *old(self),
            !cancelled ==> {
                let nf = old(self).spec_next_frame(line@);
                let nfps = old(self).spec_next_fps(line@);
                let total = spec_effective_total(reported_total, fps_divisor, job_total);
                &&& final(self).current_frame == nf
                &&& final(self).current_fps.scaled == nfps
                &&& (if now_ms - old(self).last_progress_ms >= PROGRESS_INTERVAL_MS {
                    &&& final(self).last_progress_ms == now_ms
                    &&& r == EncoderLineAction::Report(
                        ProgressInfo {
                            frame: nf,
                            total_frames: total as i32,
                            fps: Decimal { scaled: nfps as i64 },
                            eta: Decimal {
                                scaled: spec_eta_scaled(total, nf as int, nfps) as i64,
                            },
                        },
                    )
                } else {
                    &&& final(self).last_progress_ms == old(self).last_progress_ms
                    &&& r == EncoderLineAction::Continue
                })
            },
    {
        if cancelled {
            return EncoderLineAction::CancelRun;
        }
        match parse_frame_number(line) {
            Some(f) => {
                self.current_frame = f;
            },
            None => {},
        }
        match parse_fps(line) {
            Some(v) => {
                self.current_fps = v;
            },
            None => {},
        }
        if now_ms - self.last_progress_ms >= PROGRESS_INTERVAL_MS {
            let total = effective_total(reported_total, fps_divisor, job_total);
            let eta = compute_eta(total, self.current_frame, self.current_fps);
            let info = ProgressInfo {
                frame: self.current_frame,
                total_frames: total,
                fps: self.current_fps,
                eta,
            };
            self.last_progress_ms = now_ms;
            EncoderLineAction::Report(info)
        } else {
            EncoderLineAction::Continue
        }
    }

    /// Folds a frame-engine diagnostic line into the known total: the
    /// sentinel's value when the line carries one, else the total as it
    /// was.
    pub fn observe_engine_line(line: &[u8], reported_total: i32) -> (r: i32)
        ensures
            r == match spec_input_info_frames(line@) {
                Some(f) => f,
                None => reported_total,
            },
    {
        match parse_input_info(line) {
            Some(f) => f,
            None => reported_total,
        }
    }
}

/// Exit codes the policy tolerates: success, external termination, and
/// a broken pipe, the latter two expected when a process is killed
/// mid-stream.
pub open spec fn spec_tolerated_exit(code: int) -> bool {
    code == 0 || code == 130 || code == 141
}

/// True for the exit codes the policy tolerates.
pub fn tolerated_exit(code: i32) -> (r: bool)
    ensures
        r == spec_tolerated_exit(code as int),
{
    code == 0 || code == 130 || code == 141
}

/// Applies the exit-code policy to both stages: a missing code counts
/// as minus one; the frame engine is judged first; any non-tolerated
/// code is a hard failure naming the stage and code.
pub fn evaluate_exit_codes(vspipe_code: Option<i32>, ffmpeg_code: Option<i32>) -> (r: Result<
    (),
    ExecutionError,
>)
    ensures
        ({
            let vc = match vspipe_code {
                Some(c) => c,
                None => -1i32,
            };
            let fc = match ffmpeg_code {
                Some(c) => c,
                None => -1i32,
            };
            if !spec_tolerated_exit(vc as int) {
                r == Result::<(), ExecutionError>::Err(
                    ExecutionError::StageExited { stage: PipelineStage::FrameEngine, code: vc },
                )
            } else if !spec_tolerated_exit(fc as int) {
                r == Result::<(), ExecutionError>::Err(
                    ExecutionError::StageExited { stage: PipelineStage::Encoder, code: fc },
                )
            } else {
                r == Result::<(), ExecutionError>::Ok(())
            }
        }),
{
    let vc = match vspipe_code {
        Some(c) => c,
        None => -1,
    };
    let fc = match ffmpeg_code {
        Some(c) => c,
        None => -1,
    };
    if !tolerated_exit(vc) {
        Err(ExecutionError::StageExited { stage: PipelineStage::FrameEngine, code: vc })
    } else if !tolerated_exit(fc) {
        Err(ExecutionError::StageExited { stage: PipelineStage::Encoder, code: fc })
    } else {
        Ok(())
    }
}

impl ExecutionError {
    /// One line describing the error.
    pub fn describe(&self) -> (r: Vec<u8>)
        ensures
            r@ == match *self {
                ExecutionError::Cancelled => "Job cancelled".spec_bytes(),
                ExecutionError::StageExited { stage, code } => stage.spec_name_bytes()
                    + " exited with code ".spec_bytes() + spec_int_bytes(code as int),
                ExecutionError::Discovery { message: ref m } => m@,
                ExecutionError::Spawn { message: ref m } => m@,
                ExecutionError::Stream { message: ref m } => m@,
            },
    {
        match self {
            ExecutionError::Cancelled => StrSliceExecFns::as_bytes_vec("Job cancelled"),
            ExecutionError::StageExited { stage, code } => {
                let mut out = stage.name_bytes();
                append_all(&mut out, " exited with code ".as_bytes());
                let mut digits = i32_to_bytes(*code);
                out.append(&mut digits);
                out
            },
            ExecutionError::Discovery { message } => clone_bytes(message),
            ExecutionError::Spawn { message } => clone_bytes(message),
            ExecutionError::Stream { message } => clone_bytes(message),
        }
    }
}

impl PipelineStage {
    pub open spec fn spec_name_bytes(self) -> Seq<u8> {
        match self {
            PipelineStage::FrameEngine => "vspipe".spec_bytes(),
            PipelineStage::Encoder => "ffmpeg".spec_bytes(),
        }
    }

    /// The process's name as bytes.
    pub fn name_bytes(&self) -> (r: Vec<u8>)
        ensures
            r@ == self.spec_name_bytes(),
    {
        match self {
            PipelineStage::FrameEngine => StrSliceExecFns::as_bytes_vec("vspipe"),
            PipelineStage::Encoder => StrSliceExecFns::as_bytes_vec("ffmpeg"),
        }
    }
}


/// The byte contents of a sequence of argument vectors.
pub open spec fn views_of(a: Seq<Vec<u8>>) -> Seq<Seq<u8>> {
    Seq::new(a.len(), |i: int| a[i]@)
}

/// Appends one argument.
fn push_arg(args: &mut Vec<Vec<u8>>, v: Vec<u8>)
    ensures
        views_of(final(args)@) == views_of(old(args)@) + seq![v@],
{
    let ghost vv = v@;
    args.push(v);
    proof {
        assert(views_of(args@) =~= views_of(old(args)@) + seq![vv]);
    }
}

/// Appends one literal argument.
fn push_str_arg(args: &mut Vec<Vec<u8>>, s: &str)
    ensures
        views_of(final(args)@) == views_of(old(args)@) + seq![s.spec_bytes()],
{
    push_arg(args, StrSliceExecFns::as_bytes_vec(s));
}

/// The whitespace-delimited tokens of a byte string, in order.
pub open spec fn spec_ws_tokens(s: Seq<u8>) -> Seq<Seq<u8>>
    decreases s.len(),
    via spec_ws_tokens_decreases
{
    if s.len() == 0 {
        Seq::empty()
    } else if is_space(s[0]) {
        spec_ws_tokens(s.skip(1))
    } else {
        let e = first_space(s, 0);
        if e == -1 {
            seq![s]
        } else {
            seq![s.subrange(0, e)] + spec_ws_tokens(s.skip(e))
        }
    }
}

#[via_fn]
proof fn spec_ws_tokens_decreases(s: Seq<u8>) {
    if s.len() > 0 && !is_space(s[0]) {
        lemma_first_space_props(s, 0);
    }
}

/// Splits a byte string into its whitespace-delimited tokens, as
/// `spec_ws_tokens` describes.
pub fn ws_tokens(s: &[u8]) -> (r: Vec<Vec<u8>>)
    ensures
        views_of(r@) == spec_ws_tokens(s@),
    decreases s@.len(),
{
    let n = s.len();
    if n == 0 {
        let out: Vec<Vec<u8>> = Vec::new();
        proof {
            assert(views_of(out@) =~= spec_ws_tokens(s@));
        }
        return out;
    }
    let b = s[0];
    if b == 32 || (9 <= b && b <= 13) {
        let rest = slice_subrange(s, 1, n);
        proof {
            assert(rest@ =~= s@.skip(1));
        }
        return ws_tokens(rest);
    }
    proof {
        lemma_first_space_props(s@, 0);
    }
    match find_space(s, 0) {
        None => {
            let mut tok: Vec<u8> = Vec::new();
            append_all(&mut tok, s);
            let mut out: Vec<Vec<u8>> = Vec::new();
            push_arg(&mut out, tok);
            proof {
                assert(views_of(out@) =~= spec_ws_tokens(s@));
            }
            out
        },
        Some(e) => {
            let mut tok: Vec<u8> = Vec::new();
            append_all(&mut tok, slice_subrange(s, 0, e));
            let rest = slice_subrange(s, e, n);
            proof {
                assert(rest@ =~= s@.skip(e as int));
                assert(tok@ =~= s@.subrange(0, e as int));
            }
            let mut more = ws_tokens(rest);
            let mut out: Vec<Vec<u8>> = Vec::new();
            push_arg(&mut out, tok);
            let ghost more_views = views_of(more@);
            out.append(&mut more);
            proof {
                assert(views_of(out@) =~= seq![s@.subrange(0, first_space(s@, 0))] + more_views);
            }
            out
        },
    }
}

/// The encoder's full argument list for a job: the streaming input, the
/// progress channel, the codec and its quality flags, the audio
/// handling, any raw extra arguments, and the output path with forced
/// overwrite.
pub open spec fn spec_ffmpeg_args(job: VideoJob) -> Seq<Seq<u8>> {
    let e = job.encoding_settings;
    let base = seq![
        "-f".spec_bytes(),
        "yuv4mpegpipe".spec_bytes(),
        "-i".spec_bytes(),
        "-".spec_bytes(),
        "-progress".spec_bytes(),
        "pipe:2".spec_bytes(),
        "-c:v".spec_bytes(),
        e.codec.spec_ffmpeg_codec_bytes(),
    ];
    let quality = match e.codec.spec_prores_profile() {
        Some(p) => seq!["-profile:v".spec_bytes(), spec_int_bytes(p as int)],
        None => seq![
            "-crf".spec_bytes(),
            spec_int_bytes(e.quality as int),
            "-preset".spec_bytes(),
            e.encoder_preset@,
        ],
    };
    let audio = if e.audio_copy {
        seq!["-c:a".spec_bytes(), "copy".spec_bytes()]
    } else {
        seq![
            "-c:a".spec_bytes(),
            e.audio_codec@,
            "-b:a".spec_bytes(),
            spec_int_bytes(e.audio_bitrate as int) + "k".spec_bytes(),
        ]
    };
    let custom = if e.custom_ffmpeg_args@.len() != 0 {
        spec_ws_tokens(e.custom_ffmpeg_args@)
    } else {
        Seq::empty()
    };
    base + quality + audio + custom + seq!["-y".spec_bytes(), job.output_path@]
}

/// Builds the encoder's argument list, as `spec_ffmpeg_args` describes.
pub fn build_ffmpeg_args(job: &VideoJob) -> (r: Vec<Vec<u8>>)
    ensures
        views_of(r@) == spec_ffmpeg_args(*job),
{
    let settings = &job.encoding_settings;
    let mut args: Vec<Vec<u8>> = Vec::new();
    push_str_arg(&mut args, "-f");
    push_str_arg(&mut args, "yuv4mpegpipe");
    push_str_arg(&mut args, "-i");
    push_str_arg(&mut args, "-");
    push_str_arg(&mut args, "-progress");
    push_str_arg(&mut args, "pipe:2");
    push_str_arg(&mut args, "-c:v");
    push_arg(&mut args, settings.codec.ffmpeg_codec_bytes());
    match settings.codec.prores_profile() {
        Some(profile) => {
            push_str_arg(&mut args, "-profile:v");
            push_arg(&mut args, i32_to_bytes(profile));
        },
        None => {
            push_str_arg(&mut args, "-crf");
            push_arg(&mut args, i32_to_bytes(settings.quality));
            push_str_arg(&mut args, "-preset");
            push_arg(&mut args, clone_bytes(&settings.encoder_preset));
        },
    }
    if settings.audio_copy {
        push_str_arg(&mut args, "-c:a");
        push_str_arg(&mut args, "copy");
    } else {
        push_str_arg(&mut args, "-c:a");
        push_arg(&mut args, clone_bytes(&settings.audio_codec));
        push_str_arg(&mut args, "-b:a");
        let mut rate = i32_to_bytes(settings.audio_bitrate);
        append_all(&mut rate, "k".as_bytes());
        push_arg(&mut args, rate);
    }
    if settings.custom_ffmpeg_args.len() != 0 {
        let mut extra = ws_tokens(settings.custom_ffmpeg_args.as_slice());
        let ghost extra_views = views_of(extra@);
        let ghost before = views_of(args@);
        args.append(&mut extra);
        proof {
            assert(views_of(args@) =~= before + extra_views);
        }
    }
    push_str_arg(&mut args, "-y");
    push_arg(&mut args, clone_bytes(&job.output_path));
    proof {
        assert(views_of(args@) =~= spec_ffmpeg_args(*job));
    }
    args
}

} // verus!

//! Serialization of status events to single-line JSON messages, one
//! event per line, for the controlling process.

use vstd::prelude::*;
use vstd::string::StringSliceAdditionalSpecFns;
use crate::models::progress_info::{LogLevel, ProgressInfo, WorkerMessage};
use crate::numfmt::{spec_decimal_bytes, spec_int_bytes, i32_to_bytes, Decimal, DIGIT_ZERO};
use crate::text::append_all;

verus! {

pub const QUOTE: u8 = 34;

pub const ESCAPE: u8 = 92;

/// Hexadecimal digit of a value below sixteen, lower case.
pub open spec fn spec_hex_digit(d: int) -> u8 {
    if d < 10 {
        (DIGIT_ZERO + d) as u8
    } else {
        (87 + d) as u8
    }
}

/// One byte of a JSON string: quote and backslash escaped, the common
/// control characters by letter, the rest of the control range by
/// four-digit escape.
pub open spec fn spec_esc_byte(b: u8) -> Seq<u8> {
    if b == QUOTE {
        seq![ESCAPE, QUOTE]
    } else if b == ESCAPE {
        seq![ESCAPE, ESCAPE]
    } else if b == 10 {
        seq![ESCAPE, 110]
    } else if b == 13 {
        seq![ESCAPE, 114]
    } else if b == 9 {
        seq![ESCAPE, 116]
    } else if b < 32 {
        seq![ESCAPE, 117, 48, 48, spec_hex_digit(b as int / 16), spec_hex_digit(b as int % 16)]
    } else {
        seq![b]
    }
}

/// A byte string as the body of a JSON string literal.
pub open spec fn spec_json_escaped(s: Seq<u8>) -> Seq<u8>
    decreases s.len(),
{
    if s.len() == 0 {
        Seq::empty()
    } else {
        spec_json_escaped(s.drop_last()) + spec_esc_byte(s.last())
    }
}

/// Appends one escaped byte.
fn push_esc_byte(out: &mut Vec<u8>, b: u8)
    ensures
        final(out)@ == old(out)@ + spec_esc_byte(b),
{
    if b == QUOTE {
        out.push(ESCAPE);
        out.push(QUOTE);
    } else if b == ESCAPE {
        out.push(ESCAPE);
        out.push(ESCAPE);
    } else if b == 10 {
        out.push(ESCAPE);
        out.push(110);
    } else if b == 13 {
        out.push(ESCAPE);
        out.push(114);
    } else if b == 9 {
        out.push(ESCAPE);
        out.push(116);
    } else if b < 32 {
        out.push(ESCAPE);
        out.push(117);
        out.push(48);
        out.push(48);
        let hi = b / 16;
        let lo = b % 16;
        out.push(
            if hi < 10 {
                DIGIT_ZERO + hi
            } else {
                87 + hi
            },
        );
        out.push(
            if lo < 10 {
                DIGIT_ZERO + lo
            } else {
                87 + lo
            },
        );
    } else {
        out.push(b);
    }
    proof {
        assert(out@ =~= old(out)@ + spec_esc_byte(b));
    }
}

/// Appends a byte string as an escaped JSON string body.
fn append_escaped(out: &mut Vec<u8>, s: &[u8])
    ensures
        final(out)@ == old(out)@ + spec_json_escaped(s@),
{
    let n = s.len();
    let mut k: usize = 0;
    while k < n
        invariant
            0 <= k <= n,
            n == s@.len(),
            out@ == old(out)@ + spec_json_escaped(s@.take(k as int)),
        decreases n - k,
    {
        push_esc_byte(out, s[k]);
        proof {
            assert(s@.take(k + 1).drop_last() =~= s@.take(k as int));
            assert(s@.take(k + 1).last() == s@[k as int]);
        }
        k = k + 1;
    }
    proof {
        assert(s@.take(n as int) =~= s@);
    }
}

/// A quoted JSON string with the body escaped.
pub open spec fn spec_json_string(s: Seq<u8>) -> Seq<u8> {
    seq![QUOTE] + spec_json_escaped(s) + seq![QUOTE]
}

/// The two JSON boolean tokens.
pub open spec fn spec_json_bool(v: bool) -> Seq<u8> {
    if v {
        "true".spec_bytes()
    } else {
        "false".spec_bytes()
    }
}

/// The one-line JSON encoding of a status event.
pub open spec fn spec_message_json(m: WorkerMessage) -> Seq<u8> {
    match m {
        WorkerMessage::Progress { frame, total_frames, fps, eta } => "{\"type\":\"progress\",\"frame\":".spec_bytes()
            + spec_int_bytes(frame as int) + ",\"totalFrames\":".spec_bytes() + spec_int_bytes(
            total_frames as int,
        ) + ",\"fps\":".spec_bytes() + spec_decimal_bytes(fps.scaled as int)
            + ",\"eta\":".spec_bytes() + spec_decimal_bytes(eta.scaled as int) + "}".spec_bytes(),
        WorkerMessage::Log { level, message } => "{\"type\":\"log\",\"level\":".spec_bytes()
            + spec_json_string(level@) + ",\"message\":".spec_bytes() + spec_json_string(message@)
            + "}".spec_bytes(),
        WorkerMessage::Error { message } => "{\"type\":\"error\",\"message\":".spec_bytes()
            + spec_json_string(message@) + "}".spec_bytes(),
        WorkerMessage::Complete { success, output_path } => match output_path {
            Some(p) => "{\"type\":\"complete\",\"success\":".spec_bytes() + spec_json_bool(success)
                + ",\"outputPath\":".spec_bytes() + spec_json_string(p@) + "}".spec_bytes(),
            None => "{\"type\":\"complete\",\"success\":".spec_bytes() + spec_json_bool(success)
                + "}".spec_bytes(),
        },
    }
}

/// Appends a quoted, escaped JSON string.
fn append_json_string(out: &mut Vec<u8>, s: &[u8])
    ensures
        final(out)@ == old(out)@ + spec_json_string(s@),
{
    out.push(QUOTE);
    append_escaped(out, s);
    out.push(QUOTE);
    proof {
        assert(out@ =~= old(out)@ + spec_json_string(s@));
    }
}

/// Renders a status event to its one-line JSON encoding, as
/// `spec_message_json` describes.
pub fn render_message(m: &WorkerMessage) -> (r: Vec<u8>)
    ensures
        r@ == spec_message_json(*m),
{
    let mut out: Vec<u8> = Vec::new();
    match m {
        WorkerMessage::Progress { frame, total_frames, fps, eta } => {
            append_all(&mut out, "{\"type\":\"progress\",\"frame\":".as_bytes());
            let mut v = i32_to_bytes(*frame);
            out.append(&mut v);
            append_all(&mut out, ",\"totalFrames\":".as_bytes());
            let mut v = i32_to_bytes(*total_frames);
            out.append(&mut v);
            append_all(&mut out, ",\"fps\":".as_bytes());
            let mut v = fps.render();
            out.append(&mut v);
            append_all(&mut out, ",\"eta\":".as_bytes());
            let mut v = eta.render();
            out.append(&mut v);
            append_all(&mut out, "}".as_bytes());
            proof {
                assert(out@ =~= spec_message_json(*m));
            }
        },
        WorkerMessage::Log { level, message } => {
            append_all(&mut out, "{\"type\":\"log\",\"level\":".as_bytes());
            append_json_string(&mut out, level.as_slice());
            append_all(&mut out, ",\"message\":".as_bytes());
            append_json_string(&mut out, message.as_slice());
            append_all(&mut out, "}".as_bytes());
            proof {
                assert(out@ =~= spec_message_json(*m));
            }
        },
        WorkerMessage::Error { message } => {
            append_all(&mut out, "{\"type\":\"error\",\"message\":".as_bytes());
            append_json_string(&mut out, message.as_slice());
            append_all(&mut out, "}".as_bytes());
            proof {
                assert(out@ =~= spec_message_json(*m));
            }
        },
        WorkerMessage::Complete { success, output_path } => {
            append_all(&mut out, "{\"type\":\"complete\",\"success\":".as_bytes());
            if *success {
                append_all(&mut out, "true".as_bytes());
            } else {
                append_all(&mut out, "false".as_bytes());
            }
            match output_path {
                Some(p) => {
                    append_all(&mut out, ",\"outputPath\":".as_bytes());
                    append_json_string(&mut out, p.as_slice());
                },
                None => {},
            }
            append_all(&mut out, "}".as_bytes());
            proof {
                assert(out@ =~= spec_message_json(*m));
            }
        },
    }
    out
}

/// Renders status events as JSON lines for the single output channel.
/// Writing a rendered line out, under the channel's lock, is the
/// caller's task.
#[derive(Clone)]
pub struct ProgressReporter {
}

impl ProgressReporter {
    /// A reporter.
    pub fn new() -> (r: Self)
    {
        ProgressReporter {  }
    }

    /// The JSON line of a progress event with the measurement's values.
    pub fn send_progress(&self, progress: &ProgressInfo) -> (r: Vec<u8>)
        ensures
            r@ == spec_message_json(
                WorkerMessage::Progress {
                    frame: progress.frame,
                    total_frames: progress.total_frames,
                    fps: progress.fps,
                    eta: progress.eta,
                },
            ),
    {
        let msg = WorkerMessage::progress(progress);
        render_message(&msg)
    }

    /// The JSON line of a log event.
    pub fn send_log(&self, level: LogLevel, message: &[u8]) -> (r: Vec<u8>)
        ensures
            ({
                let body = spec_json_string(message@);
                r@ == "{\"type\":\"log\",\"level\":".spec_bytes() + spec_json_string(
                    level.spec_name_bytes(),
                ) + ",\"message\":".spec_bytes() + body + "}".spec_bytes()
            }),
    {
        let msg = WorkerMessage::log(level, message);
        let r = render_message(&msg);
        proof {
            assert(r@ =~= "{\"type\":\"log\",\"level\":".spec_bytes() + spec_json_string(
                level.spec_name_bytes(),
            ) + ",\"message\":".spec_bytes() + spec_json_string(message@) + "}".spec_bytes());
        }
        r
    }

    /// The JSON line of an error event.
    pub fn send_error(&self, message: &[u8]) -> (r: Vec<u8>)
        ensures
            r@ == "{\"type\":\"error\",\"message\":".spec_bytes() + spec_json_string(message@)
                + "}".spec_bytes(),
    {
        let msg = WorkerMessage::error(message);
        let r = render_message(&msg);
        proof {
            assert(r@ =~= "{\"type\":\"error\",\"message\":".spec_bytes() + spec_json_string(
                message@,
            ) + "}".spec_bytes());
        }
        r
    }

    /// The JSON line of a completion event.
    pub fn send_complete(&self, success: bool, output_path: Option<&Vec<u8>>) -> (r: Vec<u8>)
        ensures
            ({
                match output_path {
                    Some(p) => r@ == "{\"type\":\"complete\",\"success\":".spec_bytes()
                        + spec_json_bool(success) + ",\"outputPath\":".spec_bytes()
                        + spec_json_string(p@) + "}".spec_bytes(),
                    None => r@ == "{\"type\":\"complete\",\"success\":".spec_bytes()
                        + spec_json_bool(success) + "}".spec_bytes(),
                }
            }),
    {
        let msg = WorkerMessage::complete(success, output_path);
        let r = render_message(&msg);
        proof {
            match output_path {
                Some(p) => {
                    assert(r@ =~= "{\"type\":\"complete\",\"success\":".spec_bytes()
                        + spec_json_bool(success) + ",\"outputPath\":".spec_bytes()
                        + spec_json_string(p@) + "}".spec_bytes());
                },
                None => {
                    assert(r@ =~= "{\"type\":\"complete\",\"success\":".spec_bytes()
                        + spec_json_bool(success) + "}".spec_bytes());
                },
            }
        }
        r
    }
}

impl Default for ProgressReporter {
    /// A reporter.
    fn default() -> (r: Self)
    {
        ProgressReporter::new()
    }
}

} // verus!

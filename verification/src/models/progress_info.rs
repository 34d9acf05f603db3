//! Progress measurements and the status events the worker emits.

use vstd::prelude::*;
use vstd::string::StringSliceAdditionalSpecFns;
use vstd::string::StrSliceExecFns;
use crate::numfmt::{spec_digits, spec_pad_digits, u64_digits, u64_pad_digits, Decimal, DIGIT_ZERO,
    DOT, MINUS};
use crate::text::{append_all, clone_bytes};

verus! {

/// A progress measurement: the current frame, the effective total, the
/// processing rate, and the estimated seconds remaining.
#[derive(Clone, Copy, PartialEq, Eq, Structural, Debug)]
pub struct ProgressInfo {
    /// Current frame being processed.
    pub frame: i32,
    /// Total frames of the run.
    pub total_frames: i32,
    /// Processing rate in frames per second.
    pub fps: Decimal,
    /// Estimated seconds remaining.
    pub eta: Decimal,
}

/// Fraction complete in ten-thousandths, truncated toward zero; zero
/// when no total is known.
pub open spec fn spec_progress_scaled(frame: int, total: int) -> int {
    if total <= 0 {
        0
    } else if frame >= 0 {
        (frame * 10000) / total
    } else {
        -((-frame * 10000) / total)
    }
}

/// Percentage complete, truncated toward zero and held to the range of
/// an `i32`; zero when no total is known.
pub open spec fn spec_percent(frame: int, total: int) -> int {
    if total <= 0 {
        0
    } else if frame >= 0 {
        let q = (frame * 100) / total;
        if q > i32::MAX {
            i32::MAX as int
        } else {
            q
        }
    } else {
        let q = -((-frame * 100) / total);
        if q < i32::MIN {
            i32::MIN as int
        } else {
            q
        }
    }
}

/// Rendering of a remaining-time value: `--` when nothing remains or no
/// rate is known, else whole seconds split into hours, minutes and
/// seconds, the leading unit unpadded and the rest two digits wide.
pub open spec fn spec_eta_bytes(eta_scaled: int) -> Seq<u8> {
    if eta_scaled <= 0 {
        seq![MINUS, MINUS]
    } else {
        let ts = eta_scaled / 10000;
        let hours = ts / 3600;
        let minutes = (ts % 3600) / 60;
        let seconds = ts % 60;
        if hours > 0 {
            spec_digits(hours as nat) + seq![104u8, 32u8] + spec_pad_digits(minutes as nat, 2)
                + seq![109u8, 32u8] + spec_pad_digits(seconds as nat, 2) + seq![115u8]
        } else if minutes > 0 {
            spec_digits(minutes as nat) + seq![109u8, 32u8] + spec_pad_digits(seconds as nat, 2)
                + seq![115u8]
        } else {
            spec_digits(seconds as nat) + seq![115u8]
        }
    }
}

/// Rendering of a rate: `-- fps` when none is known, else the rate
/// rounded to one decimal digit, half away from zero, then ` fps`.
pub open spec fn spec_fps_bytes(fps_scaled: int) -> Seq<u8> {
    if fps_scaled <= 0 {
        seq![MINUS, MINUS] + " fps".spec_bytes()
    } else {
        let tenths = (fps_scaled + 500) / 1000;
        spec_digits((tenths / 10) as nat) + seq![DOT, (DIGIT_ZERO + tenths % 10) as u8]
            + " fps".spec_bytes()
    }
}

impl ProgressInfo {
    /// A measurement with the given values.
    pub fn new(frame: i32, total_frames: i32, fps: Decimal, eta: Decimal) -> (r: Self)
        ensures
            r.frame == frame,
            r.total_frames == total_frames,
            r.fps == fps,
            r.eta == eta,
    {
        ProgressInfo { frame, total_frames, fps, eta }
    }

    /// Fraction complete, as `spec_progress_scaled` describes.
    pub fn progress(&self) -> (r: Decimal)
        ensures
            r.scaled == spec_progress_scaled(self.frame as int, self.total_frames as int),
    {
        if self.total_frames <= 0 {
            Decimal { scaled: 0 }
        } else if self.frame >= 0 {
            let num = (self.frame as u64) * 10000;
            let q = num / (self.total_frames as u64);
            Decimal { scaled: q as i64 }
        } else {
            let mag = ((-(self.frame as i64)) as u64) * 10000;
            let q = mag / (self.total_frames as u64);
            Decimal { scaled: -(q as i64) }
        }
    }

    /// Percentage complete, as `spec_percent` describes.
    pub fn percent_complete(&self) -> (r: i32)
        ensures
            r == spec_percent(self.frame as int, self.total_frames as int),
    {
        if self.total_frames <= 0 {
            0
        } else if self.frame >= 0 {
            let num = (self.frame as u64) * 100;
            let q = num / (self.total_frames as u64);
            if q > 0x7FFF_FFFFu64 {
                0x7FFF_FFFFi32
            } else {
                q as i32
            }
        } else {
            let mag = ((-(self.frame as i64)) as u64) * 100;
            let q = mag / (self.total_frames as u64);
            if q > 0x8000_0000u64 {
                -0x8000_0000i64 as i32
            } else {
                (-(q as i64)) as i32
            }
        }
    }

    /// The remaining time, rendered as `spec_eta_bytes` describes.
    pub fn eta_formatted(&self) -> (r: Vec<u8>)
        ensures
            r@ == spec_eta_bytes(self.eta.scaled as int),
    {
        if self.eta.scaled <= 0 {
            let mut out: Vec<u8> = Vec::new();
            out.push(MINUS);
            out.push(MINUS);
            proof {
                assert(out@ =~= seq![MINUS, MINUS]);
            }
            return out;
        }
        let ts = (self.eta.scaled as u64) / 10000;
        let hours = ts / 3600;
        let minutes = (ts % 3600) / 60;
        let seconds = ts % 60;
        let mut out: Vec<u8> = Vec::new();
        if hours > 0 {
            let mut h = u64_digits(hours);
            out.append(&mut h);
            out.push(104u8);
            out.push(32u8);
            let mut m = u64_pad_digits(minutes, 2);
            out.append(&mut m);
            out.push(109u8);
            out.push(32u8);
            let mut s = u64_pad_digits(seconds, 2);
            out.append(&mut s);
            out.push(115u8);
            proof {
                assert(out@ =~= spec_eta_bytes(self.eta.scaled as int));
            }
        } else if minutes > 0 {
            let mut m = u64_digits(minutes);
            out.append(&mut m);
            out.push(109u8);
            out.push(32u8);
            let mut s = u64_pad_digits(seconds, 2);
            out.append(&mut s);
            out.push(115u8);
            proof {
                assert(out@ =~= spec_eta_bytes(self.eta.scaled as int));
            }
        } else {
            let mut s = u64_digits(seconds);
            out.append(&mut s);
            out.push(115u8);
            proof {
                assert(out@ =~= spec_eta_bytes(self.eta.scaled as int));
            }
        }
        out
    }

    /// The rate, rendered as `spec_fps_bytes` describes.
    pub fn fps_formatted(&self) -> (r: Vec<u8>)
        ensures
            r@ == spec_fps_bytes(self.fps.scaled as int),
    {
        let mut out: Vec<u8> = Vec::new();
        if self.fps.scaled <= 0 {
            out.push(MINUS);
            out.push(MINUS);
            append_all(&mut out, " fps".as_bytes());
            proof {
                assert(out@ =~= spec_fps_bytes(self.fps.scaled as int));
            }
            return out;
        }
        let tenths = ((self.fps.scaled as u64) + 500) / 1000;
        let mut w = u64_digits(tenths / 10);
        out.append(&mut w);
        out.push(DOT);
        out.push(DIGIT_ZERO + ((tenths % 10) as u8));
        append_all(&mut out, " fps".as_bytes());
        proof {
            assert(out@ =~= spec_fps_bytes(self.fps.scaled as int));
        }
        out
    }
}

/// Log severities.
#[derive(Clone, Copy, PartialEq, Eq, Structural, Debug)]
pub enum LogLevel {
    Debug,
    Info,
    Warning,
    Error,
}

impl LogLevel {
    pub open spec fn spec_name(self) -> Seq<char> {
        match self {
            LogLevel::Debug => "debug"@,
            LogLevel::Info => "info"@,
            LogLevel::Warning => "warning"@,
            LogLevel::Error => "error"@,
        }
    }

    pub open spec fn spec_name_bytes(self) -> Seq<u8> {
        match self {
            LogLevel::Debug => "debug".spec_bytes(),
            LogLevel::Info => "info".spec_bytes(),
            LogLevel::Warning => "warning".spec_bytes(),
            LogLevel::Error => "error".spec_bytes(),
        }
    }

    /// The level's name on the wire.
    pub fn as_str(&self) -> (r: &'static str)
        ensures
            r@ == self.spec_name(),
    {
        match self {
            LogLevel::Debug => "debug",
            LogLevel::Info => "info",
            LogLevel::Warning => "warning",
            LogLevel::Error => "error",
        }
    }
}

/// A status event of one run, sent to the controlling process.
#[derive(Debug)]
pub enum WorkerMessage {
    /// A progress update.
    Progress { frame: i32, total_frames: i32, fps: Decimal, eta: Decimal },
    /// A log line.
    Log { level: Vec<u8>, message: Vec<u8> },
    /// A fatal error.
    Error { message: Vec<u8> },
    /// The one completion event of a run.
    Complete { success: bool, output_path: Option<Vec<u8>> },
}

impl WorkerMessage {
    /// A progress event carrying the measurement's values.
    pub fn progress(info: &ProgressInfo) -> (r: WorkerMessage)
        ensures
            r == (WorkerMessage::Progress {
                frame: info.frame,
                total_frames: info.total_frames,
                fps: info.fps,
                eta: info.eta,
            }),
    {
        WorkerMessage::Progress {
            frame: info.frame,
            total_frames: info.total_frames,
            fps: info.fps,
            eta: info.eta,
        }
    }

    /// A log event with the level's wire name.
    pub fn log(level: LogLevel, message: &[u8]) -> (r: WorkerMessage)
        ensures
            match r {
                WorkerMessage::Log { level: l, message: m } => l@ == level.spec_name_bytes() && m@
                    == message@,
                _ => false,
            },
    {
        let name = StrSliceExecFns::as_bytes_vec(level.as_str());
        let mut msg: Vec<u8> = Vec::new();
        append_all(&mut msg, message);
        proof {
            assert(msg@ =~= message@);
        }
        WorkerMessage::Log { level: name, message: msg }
    }

    /// An error event.
    pub fn error(message: &[u8]) -> (r: WorkerMessage)
        ensures
            match r {
                WorkerMessage::Error { message: m } => m@ == message@,
                _ => false,
            },
    {
        let mut msg: Vec<u8> = Vec::new();
        append_all(&mut msg, message);
        proof {
            assert(msg@ =~= message@);
        }
        WorkerMessage::Error { message: msg }
    }

    /// A completion event.
    pub fn complete(success: bool, output_path: Option<&Vec<u8>>) -> (r: WorkerMessage)
        ensures
            match r {
                WorkerMessage::Complete { success: s, output_path: p } => s == success && (match (
                    p,
                    output_path,
                ) {
                    (Option::Some(a), Option::Some(b)) => a@ == b@,
                    (Option::None, Option::None) => true,
                    _ => false,
                }),
                _ => false,
            },
    {
        WorkerMessage::Complete {
            success,
            output_path: match output_path {
                Option::Some(p) => Option::Some(clone_bytes(p)),
                Option::None => Option::None,
            },
        }
    }
}

/// The worker's processing state machine.
#[derive(Debug)]
pub enum ProcessingState {
    Idle,
    PreparingJob,
    Processing { progress: Decimal },
    Cancelling,
    Completed { success: bool },
    Failed { error: Vec<u8> },
}

impl ProcessingState {
    /// True while work is under way.
    pub fn is_active(&self) -> (r: bool)
        ensures
            r == (self is PreparingJob || self is Processing || self is Cancelling),
    {
        matches!(
            self,
            ProcessingState::PreparingJob
                | ProcessingState::Processing { .. }
                | ProcessingState::Cancelling
        )
    }

    /// True while cancellation is still possible.
    pub fn can_cancel(&self) -> (r: bool)
        ensures
            r == (self is PreparingJob || self is Processing),
    {
        matches!(self, ProcessingState::PreparingJob | ProcessingState::Processing { .. })
    }
}

} // verus!

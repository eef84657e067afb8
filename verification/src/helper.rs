//! The privileged process: it takes a source and a target, writes the one
//! onto the other, reads the target back, and reports each step on its
//! standard output.
//!
//! The engine here decides; whoever runs it does the input and output. It
//! hands the engine what happened, and the engine answers with its next
//! state and the events to print.
//!
//! ```text
//! Idle -> Writing -> WriteDone -> Verifying -> VerifyDone
//!   any of the first four -> Failed
//! ```

use crate::cadence::elapsed;
use crate::io::devices::NodeKind;
use crate::io::writer::{after_chunk, WriteJob};
use crate::metrics::{
    average_speed_centis, centi_megabytes_per_second, centiseconds, elapsed_centis,
};
use crate::models::Progress;
use crate::paths::{is_dev_entry, path_is_dev_entry};
use crate::protocol::{EventView, ProgressEvent};
use crate::text::{chars_of, push_text, string_of};
use crate::verification::{after_check, mismatch_text, VerifyPass};
use vstd::prelude::*;

verus! {

/// Why the process does not start.
#[derive(Debug, Clone, Copy, PartialEq, Eq, Structural)]
pub enum StartupError {
    /// No argument: the source is missing.
    MissingSource,
    /// One argument: the target is missing.
    MissingTarget,
    /// More than two arguments.
    TooManyArguments,
}

/// How many arguments the process takes: the source and the target.
pub open spec fn arguments_verdict(count: int) -> Result<(), StartupError> {
    if count == 0 {
        Err(StartupError::MissingSource)
    } else if count == 1 {
        Err(StartupError::MissingTarget)
    } else if count == 2 {
        Ok(())
    } else {
        Err(StartupError::TooManyArguments)
    }
}

/// Checks the number of arguments that follow the program's name, before
/// anything is opened.
pub fn check_arguments(count: usize) -> (r: Result<(), StartupError>)
    ensures
        r == arguments_verdict(count as int),
{
    if count == 0 {
        Err(StartupError::MissingSource)
    } else if count == 1 {
        Err(StartupError::MissingTarget)
    } else if count == 2 {
        Ok(())
    } else {
        Err(StartupError::TooManyArguments)
    }
}

/// Why a request is turned down before anything is written.
#[derive(Debug, Clone, Copy, PartialEq, Eq, Structural)]
pub enum RequestError {
    /// The source does not exist.
    SourceMissing,
    /// The source is no regular file.
    SourceNotFile,
    /// The target does not exist.
    TargetMissing,
    /// The target is no block device.
    TargetNotBlockDevice,
    /// The target is no entry of `/dev`.
    TargetOutsideDev,
}

/// The text that reports why the process does not start.
pub open spec fn startup_error_text(e: StartupError) -> Seq<char> {
    match e {
        StartupError::MissingSource => "Missing ISO path argument"@,
        StartupError::MissingTarget => "Missing device path argument"@,
        StartupError::TooManyArguments => "Too many arguments. Usage: etch-helper <iso_path> <device_path>"@,
    }
}

impl StartupError {
    /// The text that reports the error.
    pub fn message(&self) -> (text: &'static str)
        ensures
            text@ == startup_error_text(*self),
    {
        match self {
            StartupError::MissingSource => "Missing ISO path argument",
            StartupError::MissingTarget => "Missing device path argument",
            StartupError::TooManyArguments => {
                "Too many arguments. Usage: etch-helper <iso_path> <device_path>"
            },
        }
    }
}

/// The text that reports why a request is turned down.
pub open spec fn request_error_text(e: RequestError, source: Seq<char>, target: Seq<char>) -> Seq<
    char,
> {
    match e {
        RequestError::SourceMissing => "Source ISO does not exist: "@ + source,
        RequestError::SourceNotFile => "Source is not a regular file: "@ + source,
        RequestError::TargetMissing => "Failed to read device metadata"@,
        RequestError::TargetNotBlockDevice => "Target is not a block device: "@ + target,
        RequestError::TargetOutsideDev => "Refusing to operate on non-/dev paths"@,
    }
}

impl RequestError {
    /// The text that reports the error for the request at hand.
    pub fn message(&self, source: &str, target: &str) -> (text: String)
        ensures
            text@ == request_error_text(*self, source@, target@),
    {
        let mut out: Vec<char> = Vec::new();
        match self {
            RequestError::SourceMissing => {
                push_text(&mut out, "Source ISO does not exist: ");
                push_text(&mut out, source);
            },
            RequestError::SourceNotFile => {
                push_text(&mut out, "Source is not a regular file: ");
                push_text(&mut out, source);
            },
            RequestError::TargetMissing => {
                push_text(&mut out, "Failed to read device metadata");
            },
            RequestError::TargetNotBlockDevice => {
                push_text(&mut out, "Target is not a block device: ");
                push_text(&mut out, target);
            },
            RequestError::TargetOutsideDev => {
                push_text(&mut out, "Refusing to operate on non-/dev paths");
            },
        }
        string_of(out.as_slice())
    }
}

/// What the process says of a request. The checks come in this order, and
/// the first that fails decides: the source exists; it is a regular file;
/// the target exists; it is a block device; it is an entry of `/dev`.
pub open spec fn request_verdict(source: NodeKind, target: NodeKind, target_path: Seq<char>) -> Result<
    (),
    RequestError,
> {
    if source == NodeKind::Missing {
        Err(RequestError::SourceMissing)
    } else if source != NodeKind::RegularFile {
        Err(RequestError::SourceNotFile)
    } else if target == NodeKind::Missing {
        Err(RequestError::TargetMissing)
    } else if target != NodeKind::BlockDevice {
        Err(RequestError::TargetNotBlockDevice)
    } else if !is_dev_entry(target_path) {
        Err(RequestError::TargetOutsideDev)
    } else {
        Ok(())
    }
}

/// Checks a request before either file is opened. `source` and `target`
/// are what the two paths name.
pub fn check_request(source: NodeKind, target: NodeKind, target_path: &str) -> (r: Result<
    (),
    RequestError,
>)
    ensures
        r == request_verdict(source, target, target_path@),
{
    if source == NodeKind::Missing {
        return Err(RequestError::SourceMissing);
    }
    if source != NodeKind::RegularFile {
        return Err(RequestError::SourceNotFile);
    }
    if target == NodeKind::Missing {
        return Err(RequestError::TargetMissing);
    }
    if target != NodeKind::BlockDevice {
        return Err(RequestError::TargetNotBlockDevice);
    }
    let path = chars_of(target_path);
    if !path_is_dev_entry(path.as_slice()) {
        return Err(RequestError::TargetOutsideDev);
    }
    Ok(())
}

/// The state of the engine.
#[derive(Debug, Clone, Copy, PartialEq, Eq, Structural)]
pub enum Phase {
    /// Nothing is written yet.
    Idle,
    /// The source is being copied to the target.
    Writing,
    /// The target holds the copy and is synced.
    WriteDone,
    /// The target is being read back.
    Verifying,
    /// The target equals the source. Terminal.
    VerifyDone,
    /// The job failed. Terminal; the target is in an unknown state.
    Failed,
}

impl Phase {
    /// The place of a state in the order of a job.
    pub open spec fn rank(self) -> int {
        match self {
            Phase::Idle => 0,
            Phase::Writing => 1,
            Phase::WriteDone => 2,
            Phase::Verifying => 3,
            Phase::VerifyDone => 4,
            Phase::Failed => 5,
        }
    }

    /// Whether nothing follows the state.
    pub open spec fn is_terminal(self) -> bool {
        self == Phase::VerifyDone || self == Phase::Failed
    }
}

/// The engine of one job.
#[derive(Debug, Clone, Copy, PartialEq, Eq, Structural)]
pub struct Engine {
    /// Where the job stands.
    pub phase: Phase,
    /// The write phase; meaningful from `Writing` on.
    pub write: WriteJob,
    /// The verify phase; meaningful from `Verifying` on.
    pub verify: VerifyPass,
}

/// What happened outside, as the engine is told.
pub enum EngineInput<'a> {
    /// Source and target are open; the source holds `total_size` bytes.
    Opened { total_size: u64, now: u64 },
    /// `bytes` more bytes reached the target.
    Written { bytes: usize, now: u64 },
    /// The source is at its end and the target is synced.
    Synced,
    /// Source and target are open again, for reading.
    Reopened { now: u64 },
    /// The source gave `source` and the target gave `target` for the next
    /// chunk.
    ReadBack { source: &'a [u8], target: &'a [u8], now: u64 },
    /// The source is at its end again.
    SourceEnd { now: u64 },
    /// An input or output operation failed; `context` says which.
    IoError { context: &'a str },
}

/// The mathematical value of an `EngineInput`.
pub enum InputView {
    Opened { total_size: u64, now: u64 },
    Written { bytes: usize, now: u64 },
    Synced,
    Reopened { now: u64 },
    ReadBack { source: Seq<u8>, target: Seq<u8>, now: u64 },
    SourceEnd { now: u64 },
    IoError { context: Seq<char> },
}

impl<'a> View for EngineInput<'a> {
    type V = InputView;

    open spec fn view(&self) -> InputView {
        match *self {
            EngineInput::Opened { total_size, now } => InputView::Opened { total_size, now },
            EngineInput::Written { bytes, now } => InputView::Written { bytes, now },
            EngineInput::Synced => InputView::Synced,
            EngineInput::Reopened { now } => InputView::Reopened { now },
            EngineInput::ReadBack { source, target, now } => InputView::ReadBack {
                source: source@,
                target: target@,
                now,
            },
            EngineInput::SourceEnd { now } => InputView::SourceEnd { now },
            EngineInput::IoError { context } => InputView::IoError { context: context@ },
        }
    }
}

/// The version that the process reports of itself.
pub open spec fn version() -> Seq<char> {
    "1.0.0"@
}

/// The event that reports write progress.
pub open spec fn write_event(p: Progress) -> EventView {
    EventView::WriteProgress {
        bytes_done: p.bytes_processed,
        bytes_per_second: p.bytes_per_second,
    }
}

/// The event that reports verify progress.
pub open spec fn verify_event(p: Progress) -> EventView {
    EventView::VerifyProgress {
        bytes_done: p.bytes_processed,
        bytes_per_second: p.bytes_per_second,
    }
}

/// The figures of a job that started writing at `write.started_at` and
/// ended at `now`.
pub open spec fn metrics_event(write: WriteJob, now: u64) -> EventView {
    EventView::Metrics {
        elapsed_centis: centiseconds(elapsed(write.started_at, now)) as u64,
        avg_speed_centis: centi_megabytes_per_second(
            write.total_size,
            elapsed(write.started_at, now),
        ) as u64,
        total_bytes: write.total_size,
        version: version(),
    }
}

/// Whether the counters of the engine have room for `input`.
pub open spec fn has_room(e: Engine, input: InputView) -> bool {
    match input {
        InputView::Written { bytes, .. } => e.write.written + bytes <= u64::MAX,
        InputView::ReadBack { source, .. } => e.verify.verified + source.len() <= u64::MAX,
        _ => true,
    }
}

/// The engine after `input`, and the events to print. An input that does
/// not belong to the state changes nothing and prints nothing.
pub open spec fn next(e: Engine, input: InputView) -> (Engine, Seq<EventView>) {
    match (e.phase, input) {
        (Phase::Idle, InputView::Opened { total_size, now }) => (
            Engine {
                phase: Phase::Writing,
                write: WriteJob {
                    total_size,
                    written: 0,
                    started_at: now,
                    last_report_at: now,
                },
                verify: e.verify,
            },
            seq![EventView::Ready { total_bytes: total_size }],
        ),
        (Phase::Writing, InputView::Written { bytes, now }) => {
            let (write, report) = after_chunk(e.write, bytes, now);
            (
                Engine { write, ..e },
                match report {
                    Some(p) => seq![write_event(p)],
                    None => Seq::empty(),
                },
            )
        },
        (Phase::Writing, InputView::Synced) => (
            Engine { phase: Phase::WriteDone, ..e },
            seq![EventView::WriteDone],
        ),
        (Phase::WriteDone, InputView::Reopened { now }) => (
            Engine {
                phase: Phase::Verifying,
                write: e.write,
                verify: VerifyPass {
                    total_size: e.write.total_size,
                    verified: 0,
                    started_at: now,
                    last_report_at: now,
                },
            },
            seq![EventView::VerifyReady { total_bytes: e.write.total_size }],
        ),
        (Phase::Verifying, InputView::ReadBack { source, target, now }) => {
            let (verify, r) = after_check(e.verify, source, target, now);
            match r {
                Ok(Some(p)) => (Engine { verify, ..e }, seq![verify_event(p)]),
                Ok(None) => (Engine { verify, ..e }, Seq::empty()),
                Err(mismatch) => (
                    Engine { phase: Phase::Failed, ..e },
                    seq![EventView::Failure { message: mismatch_text(mismatch) }],
                ),
            }
        },
        (Phase::Verifying, InputView::SourceEnd { now }) => (
            Engine { phase: Phase::VerifyDone, ..e },
            seq![EventView::VerifyDone, metrics_event(e.write, now)],
        ),
        (_, InputView::IoError { context }) => if e.phase.is_terminal() {
            (e, Seq::empty())
        } else {
            (Engine { phase: Phase::Failed, ..e }, seq![EventView::Failure { message: context }])
        },
        _ => (e, Seq::empty()),
    }
}

/// The views of a run of events.
pub open spec fn event_views(events: Seq<ProgressEvent>) -> Seq<EventView> {
    Seq::new(events.len(), |i: int| events[i]@)
}

impl Engine {
    /// An engine that has done nothing yet.
    pub fn new() -> (e: Self)
        ensures
            e.phase == Phase::Idle,
            e.write == (WriteJob { total_size: 0, written: 0, started_at: 0, last_report_at: 0 }),
            e.verify == (VerifyPass {
                total_size: 0,
                verified: 0,
                started_at: 0,
                last_report_at: 0,
            }),
    {
        Engine { phase: Phase::Idle, write: WriteJob::start(0, 0), verify: VerifyPass::start(0, 0) }
    }

    /// Whether the job is over, in success or in failure.
    pub fn is_finished(&self) -> (r: bool)
        ensures
            r == self.phase.is_terminal(),
    {
        self.phase == Phase::VerifyDone || self.phase == Phase::Failed
    }

    /// Whether the job ran through: the exit status is zero then, and
    /// non-zero otherwise.
    pub fn succeeded(&self) -> (r: bool)
        ensures
            r == (self.phase == Phase::VerifyDone),
    {
        self.phase == Phase::VerifyDone
    }

    /// Tests whether the counters have room for `input`: a count of bytes
    /// must stay within `u64`.
    pub fn accepts(&self, input: &EngineInput<'_>) -> (r: bool)
        ensures
            r == has_room(*self, input@),
    {
        match input {
            EngineInput::Written { bytes, .. } => *bytes as u64 <= u64::MAX - self.write.written,
            EngineInput::ReadBack { source, .. } => {
                source.len() as u64 <= u64::MAX - self.verify.verified
            },
            _ => true,
        }
    }

    /// Takes in what happened and returns the events to print, in order.
    pub fn step(&mut self, input: EngineInput<'_>) -> (events: Vec<ProgressEvent>)
        requires
            has_room(*old(self), input@),
        ensures
            *final(self) == next(*old(self), input@).0,
            event_views(events@) == next(*old(self), input@).1,
    {
        let mut events: Vec<ProgressEvent> = Vec::new();
        let phase = self.phase;
        match input {
            EngineInput::Opened { total_size, now } => {
                if phase == Phase::Idle {
                    self.phase = Phase::Writing;
                    self.write = WriteJob::start(total_size, now);
                    events.push(ProgressEvent::Ready { total_bytes: total_size });
                }
            },
            EngineInput::Written { bytes, now } => {
                if phase == Phase::Writing {
                    if let Some(p) = self.write.record(bytes, now) {
                        events.push(
                            ProgressEvent::WriteProgress {
                                bytes_done: p.bytes_processed,
                                bytes_per_second: p.bytes_per_second,
                            },
                        );
                    }
                }
            },
            EngineInput::Synced => {
                if phase == Phase::Writing {
                    self.phase = Phase::WriteDone;
                    events.push(ProgressEvent::WriteDone);
                }
            },
            EngineInput::Reopened { now } => {
                if phase == Phase::WriteDone {
                    self.phase = Phase::Verifying;
                    self.verify = VerifyPass::start(self.write.total_size, now);
                    events.push(ProgressEvent::VerifyReady { total_bytes: self.write.total_size });
                }
            },
            EngineInput::ReadBack { source, target, now } => {
                if phase == Phase::Verifying {
                    match self.verify.check(source, target, now) {
                        Ok(Some(p)) => {
                            events.push(
                                ProgressEvent::VerifyProgress {
                                    bytes_done: p.bytes_processed,
                                    bytes_per_second: p.bytes_per_second,
                                },
                            );
                        },
                        Ok(None) => {},
                        Err(mismatch) => {
                            self.phase = Phase::Failed;
                            events.push(ProgressEvent::Failure { message: mismatch.message() });
                        },
                    }
                }
            },
            EngineInput::SourceEnd { now } => {
                if phase == Phase::Verifying {
                    self.phase = Phase::VerifyDone;
                    events.push(ProgressEvent::VerifyDone);
                    events.push(
                        ProgressEvent::Metrics {
                            elapsed_centis: elapsed_centis(self.write.started_at, now),
                            avg_speed_centis: average_speed_centis(
                                self.write.total_size,
                                self.write.started_at,
                                now,
                            ),
                            total_bytes: self.write.total_size,
                            version: string_of(chars_of("1.0.0").as_slice()),
                        },
                    );
                }
            },
            EngineInput::IoError { context } => {
                if !(phase == Phase::VerifyDone || phase == Phase::Failed) {
                    self.phase = Phase::Failed;
                    events.push(
                        ProgressEvent::Failure {
                            message: string_of(chars_of(context).as_slice()),
                        },
                    );
                }
            },
        }
        assert(event_views(events@) =~= next(*old(self), input@).1);
        events
    }
}

/// A job never goes back: no input takes the engine to an earlier state,
/// and nothing changes a state that is terminal.
pub proof fn lemma_no_state_reentered(e: Engine, input: InputView)
    ensures
        next(e, input).0.phase.rank() >= e.phase.rank(),
        e.phase.is_terminal() ==> next(e, input) == (e, Seq::<EventView>::empty()),
{
}

/// The engine reports success only at the end of the source in the verify
/// phase, and a failure ends the job with an `ERROR` line as its last.
pub proof fn lemma_ends(e: Engine, input: InputView)
    ensures
        next(e, input).0.phase == Phase::VerifyDone && e.phase != Phase::VerifyDone ==> e.phase
            == Phase::Verifying && input is SourceEnd && next(e, input).1[0]
            == EventView::VerifyDone,
        next(e, input).0.phase == Phase::Failed && e.phase != Phase::Failed ==> next(
            e,
            input,
        ).1.len() == 1 && next(e, input).1[0] is Failure,
{
}

/// In the verify phase the engine goes on exactly when the target gave
/// what the source gave, and fails exactly when it gave anything else;
/// what is verified then grows by the size of the chunk.
pub proof fn lemma_read_back(e: Engine, source: Seq<u8>, target: Seq<u8>, now: u64)
    requires
        e.phase == Phase::Verifying,
        e.verify.verified + source.len() <= u64::MAX,
    ensures
        ({
            let after = next(e, InputView::ReadBack { source, target, now }).0;
            &&& source == target ==> after.phase == Phase::Verifying && after.verify.verified
                == e.verify.verified + source.len()
            &&& source != target ==> after.phase == Phase::Failed && after.verify == e.verify
        }),
{
}

} // verus!

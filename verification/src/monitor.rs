//! The caller's side of an imaging job: it reads the lines of the
//! privileged process one by one, turns them into messages for whatever
//! drives the user-facing state, and tells how the stream ended.

use crate::protocol::{
    encoded, lemma_parse_encoded, parse_line, parsed, EventView, ProgressEvent,
};
use crate::text::{chars_of, push_text, string_of};
use vstd::prelude::*;

verus! {

/// What the reader hands on to the thread that drives user-facing state.
#[derive(Debug, Clone, PartialEq, Eq)]
pub enum WorkMessage {
    /// Bytes written, total bytes, bytes per second.
    WriteProgress(u64, u64, u64),
    /// Bytes verified, total bytes, bytes per second.
    VerifyProgress(u64, u64, u64),
    /// The write phase is over.
    WriteComplete,
    /// The verify phase is over and the target equals the source.
    VerifyComplete,
    /// The job failed.
    Error(String),
}

/// The mathematical value of a `WorkMessage`.
pub enum MessageView {
    WriteProgress(u64, u64, u64),
    VerifyProgress(u64, u64, u64),
    WriteComplete,
    VerifyComplete,
    Error(Seq<char>),
}

impl View for WorkMessage {
    type V = MessageView;

    open spec fn view(&self) -> MessageView {
        match *self {
            WorkMessage::WriteProgress(bytes, total, bps) => MessageView::WriteProgress(
                bytes,
                total,
                bps,
            ),
            WorkMessage::VerifyProgress(bytes, total, bps) => MessageView::VerifyProgress(
                bytes,
                total,
                bps,
            ),
            WorkMessage::WriteComplete => MessageView::WriteComplete,
            WorkMessage::VerifyComplete => MessageView::VerifyComplete,
            WorkMessage::Error(text) => MessageView::Error(text@),
        }
    }
}

/// How far the stream of one job has come.
#[derive(Debug, Clone, Copy, PartialEq, Eq, Structural)]
pub enum StreamState {
    /// Neither `VERIFY_DONE` nor `ERROR` was read yet.
    Reading,
    /// `VERIFY_DONE` was read.
    Completed,
    /// `ERROR` was read.
    Failed,
}

/// How the stream of one job ended.
#[derive(Debug, Clone, Copy, PartialEq, Eq, Structural)]
pub enum StreamOutcome {
    /// The job ran through to `VERIFY_DONE`.
    Success,
    /// The privileged process reported an error of its own.
    ReportedFailure,
    /// The stream closed with neither: the process died or was killed, and
    /// the target is in an unknown state.
    UnexpectedTermination,
}

/// The reader of one job's stream.
#[derive(Debug, Clone, Copy, PartialEq, Eq, Structural)]
pub struct ProgressReader {
    /// The total size that the last `READY` or `VERIFY_START` announced.
    pub total_size: u64,
    /// Whether the stream is still being read.
    pub state: StreamState,
}

/// What the prefix `Helper error: ` and the message of an `ERROR` line make.
pub open spec fn helper_error(message: Seq<char>) -> Seq<char> {
    "Helper error: "@ + message
}

/// The reader after one event, and the message it hands on.
pub open spec fn after_event(r: ProgressReader, e: EventView) -> (
    ProgressReader,
    Option<MessageView>,
) {
    if r.state != StreamState::Reading {
        (r, None)
    } else {
        match e {
            EventView::Ready { total_bytes } => (
                ProgressReader { total_size: total_bytes, state: r.state },
                None,
            ),
            EventView::WriteProgress { bytes_done, bytes_per_second } => (
                r,
                Some(MessageView::WriteProgress(bytes_done, r.total_size, bytes_per_second)),
            ),
            EventView::WriteDone => (r, Some(MessageView::WriteComplete)),
            EventView::VerifyReady { total_bytes } => (
                ProgressReader { total_size: total_bytes, state: r.state },
                None,
            ),
            EventView::VerifyProgress { bytes_done, bytes_per_second } => (
                r,
                Some(MessageView::VerifyProgress(bytes_done, r.total_size, bytes_per_second)),
            ),
            EventView::VerifyDone => (
                ProgressReader { total_size: r.total_size, state: StreamState::Completed },
                Some(MessageView::VerifyComplete),
            ),
            EventView::Metrics { .. } => (r, None),
            EventView::Failure { message } => (
                ProgressReader { total_size: r.total_size, state: StreamState::Failed },
                Some(MessageView::Error(helper_error(message))),
            ),
        }
    }
}

/// The reader after one line, and the message it hands on.
pub open spec fn after_line(r: ProgressReader, line: Seq<char>) -> (
    ProgressReader,
    Option<MessageView>,
) {
    match parsed(line) {
        Some(e) => after_event(r, e),
        None => (r, None),
    }
}

/// The outcome of a stream that closed in state `state`.
pub open spec fn outcome_of(state: StreamState) -> StreamOutcome {
    match state {
        StreamState::Reading => StreamOutcome::UnexpectedTermination,
        StreamState::Completed => StreamOutcome::Success,
        StreamState::Failed => StreamOutcome::ReportedFailure,
    }
}

/// How the privileged process ended, as its caller learns when it waits
/// for it.
#[derive(Debug, Clone, PartialEq, Eq)]
pub enum ExitReport {
    /// The process ended with status zero.
    Success,
    /// The process ended with another status, or by a signal; `status`
    /// words it.
    Failure { status: String },
    /// Waiting for the process failed; `reason` says why.
    Unknown { reason: String },
}

/// The mathematical value of an `ExitReport`.
pub enum ExitView {
    Success,
    Failure { status: Seq<char> },
    Unknown { reason: Seq<char> },
}

impl View for ExitReport {
    type V = ExitView;

    open spec fn view(&self) -> ExitView {
        match *self {
            ExitReport::Success => ExitView::Success,
            ExitReport::Failure { status } => ExitView::Failure { status: status@ },
            ExitReport::Unknown { reason } => ExitView::Unknown { reason: reason@ },
        }
    }
}

/// The message that closes a stream, if one is due. After an `ERROR`
/// line nothing more is said. Else a process that did not end well is
/// reported, and so is one that ended well without `VERIFY_DONE`: its
/// stream ended unexpectedly.
pub open spec fn closing_message(state: StreamState, exit: ExitView) -> Option<Seq<char>> {
    if state == StreamState::Failed {
        None
    } else {
        match exit {
            ExitView::Failure { status } => Some("Helper exited with status: "@ + status),
            ExitView::Unknown { reason } => Some("Failed to wait for helper: "@ + reason),
            ExitView::Success => if state == StreamState::Reading {
                Some("Helper output ended before verification was done"@)
            } else {
                None
            },
        }
    }
}

/// The command that starts the privileged process through the
/// authorization broker: the broker, the program, and the source and the
/// target as its only two arguments.
pub open spec fn launch_command_of(helper: Seq<char>, source: Seq<char>, target: Seq<char>) -> Seq<
    Seq<char>,
> {
    seq!["pkexec"@, helper, source, target]
}

/// Makes the command that starts the privileged process for one job.
pub fn launch_command(helper: &str, source: &str, target: &str) -> (command: Vec<String>)
    ensures
        command@.len() == 4,
        forall|i: int|
            0 <= i < 4 ==> (#[trigger] command@[i])@ == launch_command_of(
                helper@,
                source@,
                target@,
            )[i],
{
    let mut command: Vec<String> = Vec::new();
    command.push(string_of(chars_of("pkexec").as_slice()));
    command.push(string_of(chars_of(helper).as_slice()));
    command.push(string_of(chars_of(source).as_slice()));
    command.push(string_of(chars_of(target).as_slice()));
    command
}

impl ProgressReader {
    /// A reader at the start of a stream.
    pub fn new() -> (r: Self)
        ensures
            r == (ProgressReader { total_size: 0, state: StreamState::Reading }),
    {
        ProgressReader { total_size: 0, state: StreamState::Reading }
    }

    /// Takes one event in. Once `VERIFY_DONE` or `ERROR` was read, further
    /// events change nothing.
    pub fn accept(&mut self, event: &ProgressEvent) -> (message: Option<WorkMessage>)
        ensures
            *final(self) == after_event(*old(self), event@).0,
            message.is_some() == after_event(*old(self), event@).1.is_some(),
            message matches Some(m) ==> after_event(*old(self), event@).1 == Some(m@),
    {
        if self.state != StreamState::Reading {
            return None;
        }
        match event {
            ProgressEvent::Ready { total_bytes } => {
                self.total_size = *total_bytes;
                None
            },
            ProgressEvent::WriteProgress { bytes_done, bytes_per_second } => Some(
                WorkMessage::WriteProgress(*bytes_done, self.total_size, *bytes_per_second),
            ),
            ProgressEvent::WriteDone => Some(WorkMessage::WriteComplete),
            ProgressEvent::VerifyReady { total_bytes } => {
                self.total_size = *total_bytes;
                None
            },
            ProgressEvent::VerifyProgress { bytes_done, bytes_per_second } => Some(
                WorkMessage::VerifyProgress(*bytes_done, self.total_size, *bytes_per_second),
            ),
            ProgressEvent::VerifyDone => {
                self.state = StreamState::Completed;
                Some(WorkMessage::VerifyComplete)
            },
            ProgressEvent::Metrics { .. } => None,
            ProgressEvent::Failure { message } => {
                self.state = StreamState::Failed;
                let mut text = chars_of("Helper error: ");
                let mut rest = chars_of(message.as_str());
                text.append(&mut rest);
                Some(WorkMessage::Error(string_of(text.as_slice())))
            },
        }
    }

    /// Takes one line of the stream in. Lines that are no event change
    /// nothing.
    pub fn read_line(&mut self, line: &str) -> (message: Option<WorkMessage>)
        ensures
            *final(self) == after_line(*old(self), line@).0,
            message.is_some() == after_line(*old(self), line@).1.is_some(),
            message matches Some(m) ==> after_line(*old(self), line@).1 == Some(m@),
    {
        match parse_line(line) {
            Some(event) => self.accept(&event),
            None => None,
        }
    }

    /// Whether reading may stop: `VERIFY_DONE` or `ERROR` was read.
    pub fn is_finished(&self) -> (r: bool)
        ensures
            r == (self.state != StreamState::Reading),
    {
        self.state != StreamState::Reading
    }

    /// The message to hand on when the stream has closed or reading has
    /// stopped, and the process has been waited for.
    pub fn close(&self, exit: &ExitReport) -> (message: Option<WorkMessage>)
        ensures
            match message {
                Some(WorkMessage::Error(text)) => closing_message(self.state, exit@) == Some(text@),
                Some(_) => false,
                None => closing_message(self.state, exit@) is None,
            },
    {
        if self.state == StreamState::Failed {
            return None;
        }
        let mut out: Vec<char> = Vec::new();
        match exit {
            ExitReport::Failure { status } => {
                push_text(&mut out, "Helper exited with status: ");
                push_text(&mut out, status.as_str());
            },
            ExitReport::Unknown { reason } => {
                push_text(&mut out, "Failed to wait for helper: ");
                push_text(&mut out, reason.as_str());
            },
            ExitReport::Success => {
                if self.state == StreamState::Reading {
                    push_text(&mut out, "Helper output ended before verification was done");
                } else {
                    return None;
                }
            },
        }
        Some(WorkMessage::Error(string_of(out.as_slice())))
    }

    /// How the stream ended, asked when it has closed or reading has stopped.
    pub fn outcome(&self) -> (r: StreamOutcome)
        ensures
            r == outcome_of(self.state),
    {
        match self.state {
            StreamState::Reading => StreamOutcome::UnexpectedTermination,
            StreamState::Completed => StreamOutcome::Success,
            StreamState::Failed => StreamOutcome::ReportedFailure,
        }
    }
}

/// The reader after a run of lines, and the messages it handed on, in order.
pub open spec fn after_lines(r: ProgressReader, lines: Seq<Seq<char>>) -> (
    ProgressReader,
    Seq<MessageView>,
)
    decreases lines.len(),
{
    if lines.len() == 0 {
        (r, Seq::empty())
    } else {
        let (before, messages) = after_lines(r, lines.drop_last());
        let (next, message) = after_line(before, lines.last());
        (
            next,
            match message {
                Some(m) => messages.push(m),
                None => messages,
            },
        )
    }
}

/// The lines of write progress reports, each given as bytes done and bytes
/// per second.
pub open spec fn write_progress_lines(reports: Seq<(u64, u64)>) -> Seq<Seq<char>> {
    Seq::new(
        reports.len(),
        |i: int|
            encoded(
                EventView::WriteProgress {
                    bytes_done: reports[i].0,
                    bytes_per_second: reports[i].1,
                },
            ),
    )
}

/// The lines of verify progress reports.
pub open spec fn verify_progress_lines(reports: Seq<(u64, u64)>) -> Seq<Seq<char>> {
    Seq::new(
        reports.len(),
        |i: int|
            encoded(
                EventView::VerifyProgress {
                    bytes_done: reports[i].0,
                    bytes_per_second: reports[i].1,
                },
            ),
    )
}

/// The messages that write progress reports turn into under a total size.
pub open spec fn write_progress_messages(total: u64, reports: Seq<(u64, u64)>) -> Seq<
    MessageView,
> {
    Seq::new(
        reports.len(),
        |i: int| MessageView::WriteProgress(reports[i].0, total, reports[i].1),
    )
}

/// The messages that verify progress reports turn into under a total size.
pub open spec fn verify_progress_messages(total: u64, reports: Seq<(u64, u64)>) -> Seq<
    MessageView,
> {
    Seq::new(
        reports.len(),
        |i: int| MessageView::VerifyProgress(reports[i].0, total, reports[i].1),
    )
}

/// Every line that a job without failure emits, in order.
pub open spec fn job_lines(total: u64, written: Seq<(u64, u64)>, verified: Seq<(u64, u64)>) -> Seq<
    Seq<char>,
> {
    seq![encoded(EventView::Ready { total_bytes: total })] + write_progress_lines(written)
        + seq![encoded(EventView::WriteDone), encoded(EventView::VerifyReady { total_bytes: total })]
        + verify_progress_lines(verified) + seq![encoded(EventView::VerifyDone)]
}

/// Reading two runs of lines one after the other is reading the first and
/// then, from where that left the reader, the second.
pub proof fn lemma_after_lines_concat(r: ProgressReader, a: Seq<Seq<char>>, b: Seq<Seq<char>>)
    ensures
        after_lines(r, a + b) == ({
            let (mid, first) = after_lines(r, a);
            let (end, second) = after_lines(mid, b);
            (end, first + second)
        }),
    decreases b.len(),
{
    let (mid, first) = after_lines(r, a);
    if b.len() == 0 {
        assert(a + b == a);
        assert(first + Seq::<MessageView>::empty() == first);
    } else {
        lemma_after_lines_concat(r, a, b.drop_last());
        assert((a + b).drop_last() == a + b.drop_last());
        assert((a + b).last() == b.last());
        let (before, second) = after_lines(mid, b.drop_last());
        let (next, message) = after_line(before, b.last());
        match message {
            Some(m) => {
                assert((first + second).push(m) == first + second.push(m));
            },
            None => {},
        }
    }
}

/// Reading one line.
pub proof fn lemma_after_one_line(r: ProgressReader, line: Seq<char>)
    ensures
        after_lines(r, seq![line]) == (
            after_line(r, line).0,
            match after_line(r, line).1 {
                Some(m) => seq![m],
                None => Seq::empty(),
            },
        ),
{
    reveal_with_fuel(after_lines, 2);
    assert(seq![line].drop_last() == Seq::<Seq<char>>::empty());
    assert(seq![line].last() == line);
    match after_line(r, line).1 {
        Some(m) => {
            assert(Seq::<MessageView>::empty().push(m) == seq![m]);
        },
        None => {},
    }
}

/// A run of write progress lines leaves the reader as it was and hands on
/// one message per line.
pub proof fn lemma_write_progress_run(r: ProgressReader, reports: Seq<(u64, u64)>)
    requires
        r.state == StreamState::Reading,
    ensures
        after_lines(r, write_progress_lines(reports)) == (
            r,
            write_progress_messages(r.total_size, reports),
        ),
    decreases reports.len(),
{
    let lines = write_progress_lines(reports);
    if reports.len() == 0 {
        assert(write_progress_messages(r.total_size, reports) == Seq::<MessageView>::empty());
    } else {
        let init = reports.drop_last();
        lemma_write_progress_run(r, init);
        assert(lines.drop_last() == write_progress_lines(init));
        let e = EventView::WriteProgress {
            bytes_done: reports.last().0,
            bytes_per_second: reports.last().1,
        };
        assert(lines.last() == encoded(e));
        lemma_parse_encoded(e);
        assert(write_progress_messages(r.total_size, init).push(
            MessageView::WriteProgress(reports.last().0, r.total_size, reports.last().1),
        ) == write_progress_messages(r.total_size, reports));
    }
}

/// A run of verify progress lines leaves the reader as it was and hands on
/// one message per line.
pub proof fn lemma_verify_progress_run(r: ProgressReader, reports: Seq<(u64, u64)>)
    requires
        r.state == StreamState::Reading,
    ensures
        after_lines(r, verify_progress_lines(reports)) == (
            r,
            verify_progress_messages(r.total_size, reports),
        ),
    decreases reports.len(),
{
    let lines = verify_progress_lines(reports);
    if reports.len() == 0 {
        assert(verify_progress_messages(r.total_size, reports) == Seq::<MessageView>::empty());
    } else {
        let init = reports.drop_last();
        lemma_verify_progress_run(r, init);
        assert(lines.drop_last() == verify_progress_lines(init));
        let e = EventView::VerifyProgress {
            bytes_done: reports.last().0,
            bytes_per_second: reports.last().1,
        };
        assert(lines.last() == encoded(e));
        lemma_parse_encoded(e);
        assert(verify_progress_messages(r.total_size, init).push(
            MessageView::VerifyProgress(reports.last().0, r.total_size, reports.last().1),
        ) == verify_progress_messages(r.total_size, reports));
    }
}

/// From the lines of a job that ran through, a fresh reader hands on every
/// progress report under the announced total, the two completions in their
/// places, and ends in success.
pub proof fn lemma_complete_stream(
    total: u64,
    written: Seq<(u64, u64)>,
    verified: Seq<(u64, u64)>,
)
    ensures
        after_lines(
            ProgressReader { total_size: 0, state: StreamState::Reading },
            job_lines(total, written, verified),
        ) == (
            ProgressReader { total_size: total, state: StreamState::Completed },
            write_progress_messages(total, written) + seq![MessageView::WriteComplete]
                + verify_progress_messages(total, verified) + seq![MessageView::VerifyComplete],
        ),
        outcome_of(
            after_lines(
                ProgressReader { total_size: 0, state: StreamState::Reading },
                job_lines(total, written, verified),
            ).0.state,
        ) == StreamOutcome::Success,
{
    let start = ProgressReader { total_size: 0, state: StreamState::Reading };
    let reading = ProgressReader { total_size: total, state: StreamState::Reading };
    let ready = encoded(EventView::Ready { total_bytes: total });
    let done = encoded(EventView::WriteDone);
    let verify_start = encoded(EventView::VerifyReady { total_bytes: total });
    let verify_done = encoded(EventView::VerifyDone);
    let l1 = seq![ready];
    let l2 = write_progress_lines(written);
    let l3 = seq![done];
    let l4 = seq![verify_start];
    let l5 = verify_progress_lines(verified);
    let l6 = seq![verify_done];
    lemma_parse_encoded(EventView::Ready { total_bytes: total });
    lemma_parse_encoded(EventView::WriteDone);
    lemma_parse_encoded(EventView::VerifyReady { total_bytes: total });
    lemma_parse_encoded(EventView::VerifyDone);
    lemma_after_one_line(start, ready);
    lemma_write_progress_run(reading, written);
    lemma_after_one_line(reading, done);
    lemma_after_one_line(reading, verify_start);
    lemma_verify_progress_run(reading, verified);
    lemma_after_one_line(reading, verify_done);
    assert(seq![done, verify_start] == l3 + l4);
    assert(job_lines(total, written, verified) == l1 + l2 + l3 + l4 + l5 + l6);
    lemma_after_lines_concat(start, l1, l2);
    lemma_after_lines_concat(start, l1 + l2, l3);
    lemma_after_lines_concat(start, l1 + l2 + l3, l4);
    lemma_after_lines_concat(start, l1 + l2 + l3 + l4, l5);
    lemma_after_lines_concat(start, l1 + l2 + l3 + l4 + l5, l6);
    let m2 = write_progress_messages(total, written);
    let m5 = verify_progress_messages(total, verified);
    assert(Seq::<MessageView>::empty() + m2 == m2);
    assert(m2 + seq![MessageView::WriteComplete] + Seq::<MessageView>::empty() == m2
        + seq![MessageView::WriteComplete]);
}

/// As long as no line says `VERIFY_DONE` or `ERROR`, the reader keeps
/// reading: a stream that closes then ended unexpectedly.
pub proof fn lemma_unfinished_stream(r: ProgressReader, lines: Seq<Seq<char>>)
    requires
        r.state == StreamState::Reading,
        forall|i: int|
            0 <= i < lines.len() ==> #[trigger] parsed(lines[i]) != Some(EventView::VerifyDone)
                && !(parsed(lines[i]) matches Some(EventView::Failure { .. })),
    ensures
        after_lines(r, lines).0.state == StreamState::Reading,
        outcome_of(after_lines(r, lines).0.state) == StreamOutcome::UnexpectedTermination,
    decreases lines.len(),
{
    if lines.len() > 0 {
        let init = lines.drop_last();
        assert forall|i: int| 0 <= i < init.len() implies #[trigger] parsed(init[i]) != Some(
            EventView::VerifyDone,
        ) && !(parsed(init[i]) matches Some(EventView::Failure { .. })) by {
            assert(init[i] == lines[i]);
        }
        lemma_unfinished_stream(r, init);
        let last = parsed(lines[lines.len() - 1]);
        assert(last != Some(EventView::VerifyDone));
    }
}

} // verus!

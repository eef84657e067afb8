//! The state behind the main window.

use crate::monitor::{MessageView, WorkMessage};
use crate::models::DeviceConnectionType;
use crate::text::{
    begins, chars_of, contains, holds, is_text, occurs_at, push_text, same_text, starts_with,
    string_of, text_occurs_at,
};
use crate::words::{text_trim, trim};
use vstd::prelude::*;

verus! {

/// What the action area of the window shows.
#[derive(Debug, Clone, PartialEq, Eq)]
pub enum ActionAreaState {
    /// Image or target is not chosen yet.
    Idle,
    /// Image and target are chosen; writing may start.
    Armed,
    Writing,
    Verifying,
    Done,
    Error(String),
}

/// The mathematical value of an `ActionAreaState`.
pub enum ActionView {
    Idle,
    Armed,
    Writing,
    Verifying,
    Done,
    Error(Seq<char>),
}

impl View for ActionAreaState {
    type V = ActionView;

    open spec fn view(&self) -> ActionView {
        match *self {
            ActionAreaState::Idle => ActionView::Idle,
            ActionAreaState::Armed => ActionView::Armed,
            ActionAreaState::Writing => ActionView::Writing,
            ActionAreaState::Verifying => ActionView::Verifying,
            ActionAreaState::Done => ActionView::Done,
            ActionAreaState::Error(text) => ActionView::Error(text@),
        }
    }
}

/// The state of the application: what is chosen, and whether a job runs.
/// It belongs to the window and lives as long as one job at most runs.
#[derive(Debug, Clone, PartialEq, Eq)]
pub struct AppState {
    pub selected_iso: Option<String>,
    pub selected_device_path: Option<String>,
    pub is_working: bool,
    pub action_state: ActionAreaState,
}

/// The action area after the choice of image or target changed: while a
/// job runs it stays; else it is armed when both are chosen and idle when
/// not.
pub open spec fn recomputed(state: AppState) -> ActionView {
    if state.is_working {
        state.action_state@
    } else if state.selected_iso is Some && state.selected_device_path is Some {
        ActionView::Armed
    } else {
        ActionView::Idle
    }
}

/// Brings the action area in line with what is chosen.
pub fn recompute_action_state(state: &mut AppState)
    ensures
        final(state).action_state@ == recomputed(*old(state)),
        final(state).selected_iso == old(state).selected_iso,
        final(state).selected_device_path == old(state).selected_device_path,
        final(state).is_working == old(state).is_working,
{
    if state.is_working {
        return;
    }
    if state.selected_iso.is_some() && state.selected_device_path.is_some() {
        state.action_state = ActionAreaState::Armed;
    } else {
        state.action_state = ActionAreaState::Idle;
    }
}

/// Whether a second job may start: not while one runs.
pub fn may_start(state: &AppState) -> (r: bool)
    ensures
        r == (!state.is_working && state.selected_iso is Some && state.selected_device_path
            is Some),
{
    !state.is_working && state.selected_iso.is_some() && state.selected_device_path.is_some()
}

/// Starts a job if none runs and image and target are chosen: the state
/// then says that a job runs, and the action area shows writing. The
/// result tells whether the job may be started.
pub fn begin_job(state: &mut AppState) -> (started: bool)
    ensures
        started == (!old(state).is_working && old(state).selected_iso is Some && old(
            state,
        ).selected_device_path is Some),
        final(state).selected_iso == old(state).selected_iso,
        final(state).selected_device_path == old(state).selected_device_path,
        started ==> final(state).is_working && final(state).action_state@ == ActionView::Writing,
        !started ==> *final(state) == *old(state),
{
    if !may_start(state) {
        return false;
    }
    state.is_working = true;
    state.action_state = ActionAreaState::Writing;
    true
}

/// What a message of the running job makes of the application's state:
/// whether a job still runs, and what the action area shows.
pub open spec fn after_message(working: bool, action: ActionView, m: MessageView) -> (
    bool,
    ActionView,
) {
    match m {
        MessageView::WriteProgress(..) => (working, action),
        MessageView::VerifyProgress(..) => (working, action),
        MessageView::WriteComplete => (working, ActionView::Verifying),
        MessageView::VerifyComplete => (false, ActionView::Done),
        MessageView::Error(text) => (false, ActionView::Error(text)),
    }
}

/// Whether a message is the last of its job.
pub open spec fn is_last(m: MessageView) -> bool {
    m is VerifyComplete || m is Error
}

/// Takes a message of the running job into the state. The result tells
/// whether the job is over.
pub fn apply_message(state: &mut AppState, message: &WorkMessage) -> (over: bool)
    ensures
        (final(state).is_working, final(state).action_state@) == after_message(
            old(state).is_working,
            old(state).action_state@,
            message@,
        ),
        final(state).selected_iso == old(state).selected_iso,
        final(state).selected_device_path == old(state).selected_device_path,
        over == is_last(message@),
{
    match message {
        WorkMessage::WriteProgress(_, _, _) => false,
        WorkMessage::VerifyProgress(_, _, _) => false,
        WorkMessage::WriteComplete => {
            state.action_state = ActionAreaState::Verifying;
            false
        },
        WorkMessage::VerifyComplete => {
            state.is_working = false;
            state.action_state = ActionAreaState::Done;
            true
        },
        WorkMessage::Error(text) => {
            state.is_working = false;
            state.action_state = ActionAreaState::Error(
                string_of(chars_of(text.as_str()).as_slice()),
            );
            true
        },
    }
}

/// What kind of failure an error text tells of.
#[derive(Debug, Clone, Copy, PartialEq, Eq, Structural)]
pub enum ErrorKind {
    /// Authorization was denied or the broker is missing.
    Permission,
    /// The target is mounted.
    Mounted,
    /// The target is too small.
    Space,
    /// The target does not hold what was written.
    Verification,
    /// Anything else.
    Other,
}

/// The kind of failure that an error text tells of; the tests come in this
/// order, and the first that holds decides.
pub open spec fn error_kind_of(err: Seq<char>) -> ErrorKind {
    if contains(err, "permission"@) || contains(err, "pkexec"@) {
        ErrorKind::Permission
    } else if contains(err, "mounted"@) {
        ErrorKind::Mounted
    } else if contains(err, "space"@) || contains(err, "full"@) {
        ErrorKind::Space
    } else if contains(err, "Verification failed"@) || contains(err, "mismatch"@) {
        ErrorKind::Verification
    } else {
        ErrorKind::Other
    }
}

/// Tells what kind of failure an error text reports, so that a defect of
/// the medium is not taken for one of the copy.
pub fn error_kind(err: &str) -> (kind: ErrorKind)
    ensures
        kind == error_kind_of(err@),
{
    let chars = chars_of(err);
    let s = chars.as_slice();
    if holds(s, "permission") || holds(s, "pkexec") {
        ErrorKind::Permission
    } else if holds(s, "mounted") {
        ErrorKind::Mounted
    } else if holds(s, "space") || holds(s, "full") {
        ErrorKind::Space
    } else if holds(s, "Verification failed") || holds(s, "mismatch") {
        ErrorKind::Verification
    } else {
        ErrorKind::Other
    }
}

/// The text shown to the user for an error of each kind.
pub open spec fn error_report(kind: ErrorKind, err: Seq<char>) -> Seq<char> {
    match kind {
        ErrorKind::Permission => "\u{26a0} USER ERROR: Permission denied\\nDetails: "@ + err
            + "\\nSolution: Ensure polkit is configured correctly"@,
        ErrorKind::Mounted => "\u{26a0} USER ERROR: Device is mounted\\nDetails: "@ + err
            + "\\nSolution: Unmount all partitions first"@,
        ErrorKind::Space => "\u{26a0} USER ERROR: Insufficient space\\nDetails: "@ + err
            + "\\nSolution: Use a larger device"@,
        ErrorKind::Verification => "\u{2717} VERIFICATION ERROR: Data mismatch detected\\nDetails: "@
            + err + "\\nCause: Device may be faulty or write operation interrupted"@,
        ErrorKind::Other => "\u{2717} ERROR: "@ + err,
    }
}

/// Words an error for the user.
pub fn describe_error(err: &str) -> (text: String)
    ensures
        text@ == error_report(error_kind_of(err@), err@),
{
    let mut out: Vec<char> = Vec::new();
    match error_kind(err) {
        ErrorKind::Permission => {
            push_text(&mut out, "\u{26a0} USER ERROR: Permission denied\\nDetails: ");
            push_text(&mut out, err);
            push_text(&mut out, "\\nSolution: Ensure polkit is configured correctly");
        },
        ErrorKind::Mounted => {
            push_text(&mut out, "\u{26a0} USER ERROR: Device is mounted\\nDetails: ");
            push_text(&mut out, err);
            push_text(&mut out, "\\nSolution: Unmount all partitions first");
        },
        ErrorKind::Space => {
            push_text(&mut out, "\u{26a0} USER ERROR: Insufficient space\\nDetails: ");
            push_text(&mut out, err);
            push_text(&mut out, "\\nSolution: Use a larger device");
        },
        ErrorKind::Verification => {
            push_text(&mut out, "\u{2717} VERIFICATION ERROR: Data mismatch detected\\nDetails: ");
            push_text(&mut out, err);
            push_text(&mut out, "\\nCause: Device may be faulty or write operation interrupted");
        },
        ErrorKind::Other => {
            push_text(&mut out, "\u{2717} ERROR: ");
            push_text(&mut out, err);
        },
    }
    string_of(out.as_slice())
}

/// How a line of the message log is styled.
#[derive(Debug, Clone, Copy, PartialEq, Eq, Structural)]
pub enum MessageKind {
    Success,
    Error,
    Warning,
    Metadata,
    Info,
    Default,
}

/// The kind of a message, told from its text; the tests come in this
/// order, and the first that holds decides.
pub open spec fn message_kind_of(message: Seq<char>) -> MessageKind {
    if contains(message, "\u{2713}"@) || contains(message, "complete"@) || contains(
        message,
        "success"@,
    ) {
        MessageKind::Success
    } else if contains(message, "\u{2717}"@) || contains(message, "ERROR"@) || contains(
        message,
        "failed"@,
    ) {
        MessageKind::Error
    } else if contains(message, "\u{26a0}"@) || contains(message, "WARNING"@) {
        MessageKind::Warning
    } else if starts_with(message, "DEV_"@) || starts_with(message, "ISO="@) || starts_with(
        message,
        "DEV="@,
    ) {
        MessageKind::Metadata
    } else if contains(message, "Starting"@) || contains(message, "INFO:"@) {
        MessageKind::Info
    } else {
        MessageKind::Default
    }
}

/// Tells the kind of a message from its text.
pub fn message_kind(message: &str) -> (kind: MessageKind)
    ensures
        kind == message_kind_of(message@),
{
    let chars = chars_of(message);
    let s = chars.as_slice();
    if holds(s, "\u{2713}") || holds(s, "complete") || holds(s, "success") {
        MessageKind::Success
    } else if holds(s, "\u{2717}") || holds(s, "ERROR") || holds(s, "failed") {
        MessageKind::Error
    } else if holds(s, "\u{26a0}") || holds(s, "WARNING") {
        MessageKind::Warning
    } else if begins(s, "DEV_") || begins(s, "ISO=") || begins(s, "DEV=") {
        MessageKind::Metadata
    } else if holds(s, "Starting") || holds(s, "INFO:") {
        MessageKind::Info
    } else {
        MessageKind::Default
    }
}

impl MessageKind {
    /// The name of the text tag that styles a kind; the default has none.
    pub open spec fn tag(self) -> Seq<char> {
        match self {
            MessageKind::Success => "success"@,
            MessageKind::Error => "error"@,
            MessageKind::Warning => "warning"@,
            MessageKind::Metadata => "metadata"@,
            MessageKind::Info => "info"@,
            MessageKind::Default => ""@,
        }
    }

    /// The name of the text tag that styles messages of this kind.
    pub fn tag_name(&self) -> (s: &'static str)
        ensures
            s@ == self.tag(),
    {
        match self {
            MessageKind::Success => "success",
            MessageKind::Error => "error",
            MessageKind::Warning => "warning",
            MessageKind::Metadata => "metadata",
            MessageKind::Info => "info",
            MessageKind::Default => "",
        }
    }
}

/// `s` without the occurrences of `pat`, taken from left to right.
pub open spec fn removed(s: Seq<char>, pat: Seq<char>) -> Seq<char>
    decreases s.len(),
{
    if pat.len() == 0 || s.len() == 0 {
        s
    } else if occurs_at(s, pat, 0) {
        removed(s.skip(pat.len() as int), pat)
    } else {
        seq![s[0]] + removed(s.drop_first(), pat)
    }
}

/// Takes the occurrences of `pattern` out of `s`.
pub fn remove_all(s: &[char], pattern: &str) -> (out: Vec<char>)
    ensures
        out@ == removed(s@, pattern@),
{
    let pat = chars_of(pattern);
    let mut out: Vec<char> = Vec::new();
    if pat.len() == 0 {
        let mut k: usize = 0;
        while k < s.len()
            invariant
                k <= s.len(),
                out@ == s@.take(k as int),
            decreases s.len() - k,
        {
            out.push(s[k]);
            k += 1;
        }
        assert(s@.take(s.len() as int) == s@);
        return out;
    }
    let mut i: usize = 0;
    assert(s@.skip(0) == s@);
    while i < s.len()
        invariant
            i <= s.len(),
            pat@ == pattern@,
            pat@.len() > 0,
            removed(s@, pattern@) == out@ + removed(s@.skip(i as int), pattern@),
        decreases s.len() - i,
    {
        let ghost rest = s@.skip(i as int);
        if text_occurs_at(s, pat.as_slice(), i) {
            assert(occurs_at(rest, pat@, 0)) by {
                assert(rest.subrange(0, pat@.len() as int) == s@.subrange(
                    i as int,
                    i + pat@.len(),
                ));
            }
            assert(rest.skip(pat@.len() as int) == s@.skip(i + pat@.len()));
            i += pat.len();
        } else {
            assert(!occurs_at(rest, pat@, 0)) by {
                if occurs_at(rest, pat@, 0) {
                    assert(rest.subrange(0, pat@.len() as int) == s@.subrange(
                        i as int,
                        i + pat@.len(),
                    ));
                }
            }
            assert(rest.drop_first() == s@.skip(i + 1));
            assert(rest[0] == s@[i as int]);
            out.push(s[i]);
            i += 1;
        }
    }
    out
}

/// The line of the message log that a message of a kind makes: its mark,
/// and the message without marks of its own and trimmed.
pub open spec fn log_line(message: Seq<char>, kind: MessageKind) -> Seq<char> {
    match kind {
        MessageKind::Success => "\u{2713} "@ + trim(removed(message, "\u{2713}"@)),
        MessageKind::Error => "\u{2717} "@ + trim(removed(message, "\u{2717}"@)),
        MessageKind::Warning => "\u{26a0} "@ + trim(removed(message, "\u{26a0}"@)),
        MessageKind::Info => "\u{25cf} "@ + trim(removed(message, "INFO:"@)),
        MessageKind::Metadata => "  "@ + message,
        MessageKind::Default => message,
    }
}

/// Appends `s` to `out`.
fn push_chars(out: &mut Vec<char>, s: &[char])
    ensures
        final(out)@ == old(out)@ + s@,
{
    let mut i: usize = 0;
    while i < s.len()
        invariant
            i <= s.len(),
            out@ == old(out)@ + s@.take(i as int),
        decreases s.len() - i,
    {
        out.push(s[i]);
        i += 1;
    }
    assert(s@.take(s.len() as int) == s@);
}

/// Words a message for the log.
pub fn format_message(message: &str, kind: MessageKind) -> (line: String)
    ensures
        line@ == log_line(message@, kind),
{
    let chars = chars_of(message);
    let s = chars.as_slice();
    let mut out: Vec<char> = Vec::new();
    match kind {
        MessageKind::Success => {
            push_text(&mut out, "\u{2713} ");
            let bare = remove_all(s, "\u{2713}");
            push_chars(&mut out, text_trim(bare.as_slice()));
        },
        MessageKind::Error => {
            push_text(&mut out, "\u{2717} ");
            let bare = remove_all(s, "\u{2717}");
            push_chars(&mut out, text_trim(bare.as_slice()));
        },
        MessageKind::Warning => {
            push_text(&mut out, "\u{26a0} ");
            let bare = remove_all(s, "\u{26a0}");
            push_chars(&mut out, text_trim(bare.as_slice()));
        },
        MessageKind::Info => {
            push_text(&mut out, "\u{25cf} ");
            let bare = remove_all(s, "INFO:");
            push_chars(&mut out, text_trim(bare.as_slice()));
        },
        MessageKind::Metadata => {
            push_text(&mut out, "  ");
            push_chars(&mut out, s);
        },
        MessageKind::Default => {
            push_chars(&mut out, s);
        },
    }
    string_of(out.as_slice())
}

/// The colour of the status dot.
#[derive(Debug, Clone, Copy, PartialEq, Eq, Structural)]
pub enum StatusDot {
    Idle,
    Active,
    Success,
}

/// The tone of the progress label.
#[derive(Debug, Clone, Copy, PartialEq, Eq, Structural)]
pub enum LabelTone {
    Plain,
    Success,
    Error,
}

/// How the action area looks. Where a field is `None`, what the widget
/// shows stays as it is.
#[derive(Debug, Clone, PartialEq, Eq)]
pub struct ActionArea {
    /// Whether the write button can be pressed.
    pub write_enabled: bool,
    /// The text of the progress label.
    pub label: String,
    /// The tone of the progress label.
    pub tone: LabelTone,
    /// Whether the progress bar is shown.
    pub bar_visible: bool,
    /// The percentage that the progress bar is set to.
    pub bar_percent: Option<u8>,
    /// Whether the progress bar shows its percentage as text.
    pub bar_text: bool,
    /// Whether the speed label is emptied.
    pub clear_speed: bool,
    /// The colour of the status dot.
    pub dot: StatusDot,
}

/// The mathematical value of an `ActionArea`.
pub struct AreaView {
    pub write_enabled: bool,
    pub label: Seq<char>,
    pub tone: LabelTone,
    pub bar_visible: bool,
    pub bar_percent: Option<u8>,
    pub bar_text: bool,
    pub clear_speed: bool,
    pub dot: StatusDot,
}

impl View for ActionArea {
    type V = AreaView;

    open spec fn view(&self) -> AreaView {
        AreaView {
            write_enabled: self.write_enabled,
            label: self.label@,
            tone: self.tone,
            bar_visible: self.bar_visible,
            bar_percent: self.bar_percent,
            bar_text: self.bar_text,
            clear_speed: self.clear_speed,
            dot: self.dot,
        }
    }
}

/// How the action area looks in each state.
pub open spec fn area_of(state: ActionView) -> AreaView {
    match state {
        ActionView::Idle => AreaView {
            write_enabled: false,
            label: "Select ISO and target"@,
            tone: LabelTone::Plain,
            bar_visible: false,
            bar_percent: Some(0u8),
            bar_text: false,
            clear_speed: true,
            dot: StatusDot::Idle,
        },
        ActionView::Armed => AreaView {
            write_enabled: true,
            label: "Ready to write"@,
            tone: LabelTone::Plain,
            bar_visible: true,
            bar_percent: Some(0u8),
            bar_text: true,
            clear_speed: true,
            dot: StatusDot::Idle,
        },
        ActionView::Writing => AreaView {
            write_enabled: false,
            label: "Writing..."@,
            tone: LabelTone::Plain,
            bar_visible: true,
            bar_percent: None,
            bar_text: false,
            clear_speed: false,
            dot: StatusDot::Active,
        },
        ActionView::Verifying => AreaView {
            write_enabled: false,
            label: "Verifying..."@,
            tone: LabelTone::Plain,
            bar_visible: true,
            bar_percent: None,
            bar_text: false,
            clear_speed: false,
            dot: StatusDot::Active,
        },
        ActionView::Done => AreaView {
            write_enabled: true,
            label: "Done"@,
            tone: LabelTone::Success,
            bar_visible: true,
            bar_percent: Some(100u8),
            bar_text: true,
            clear_speed: true,
            dot: StatusDot::Success,
        },
        ActionView::Error(text) => AreaView {
            write_enabled: true,
            label: text,
            tone: LabelTone::Error,
            bar_visible: true,
            bar_percent: Some(0u8),
            bar_text: true,
            clear_speed: true,
            dot: StatusDot::Idle,
        },
    }
}

/// Tells how the action area is to look in `state`.
pub fn update_action_area(state: &ActionAreaState) -> (area: ActionArea)
    ensures
        area@ == area_of(state@),
{
    match state {
        ActionAreaState::Idle => ActionArea {
            write_enabled: false,
            label: string_of(chars_of("Select ISO and target").as_slice()),
            tone: LabelTone::Plain,
            bar_visible: false,
            bar_percent: Some(0),
            bar_text: false,
            clear_speed: true,
            dot: StatusDot::Idle,
        },
        ActionAreaState::Armed => ActionArea {
            write_enabled: true,
            label: string_of(chars_of("Ready to write").as_slice()),
            tone: LabelTone::Plain,
            bar_visible: true,
            bar_percent: Some(0),
            bar_text: true,
            clear_speed: true,
            dot: StatusDot::Idle,
        },
        ActionAreaState::Writing => ActionArea {
            write_enabled: false,
            label: string_of(chars_of("Writing...").as_slice()),
            tone: LabelTone::Plain,
            bar_visible: true,
            bar_percent: None,
            bar_text: false,
            clear_speed: false,
            dot: StatusDot::Active,
        },
        ActionAreaState::Verifying => ActionArea {
            write_enabled: false,
            label: string_of(chars_of("Verifying...").as_slice()),
            tone: LabelTone::Plain,
            bar_visible: true,
            bar_percent: None,
            bar_text: false,
            clear_speed: false,
            dot: StatusDot::Active,
        },
        ActionAreaState::Done => ActionArea {
            write_enabled: true,
            label: string_of(chars_of("Done").as_slice()),
            tone: LabelTone::Success,
            bar_visible: true,
            bar_percent: Some(100),
            bar_text: true,
            clear_speed: true,
            dot: StatusDot::Success,
        },
        ActionAreaState::Error(text) => ActionArea {
            write_enabled: true,
            label: string_of(chars_of(text.as_str()).as_slice()),
            tone: LabelTone::Error,
            bar_visible: true,
            bar_percent: Some(0),
            bar_text: true,
            clear_speed: true,
            dot: StatusDot::Idle,
        },
    }
}

/// The text of the target chooser while no device is chosen.
pub fn selection_prompt(no_devices: bool) -> (s: &'static str)
    ensures
        s@ == if no_devices {
            "No removable devices detected"@
        } else {
            "Select device"@
        },
{
    if no_devices {
        "No removable devices detected"
    } else {
        "Select device"
    }
}

/// The line that describes a chosen device: its path, vendor and model,
/// capacity and connection, with dots between.
pub open spec fn device_line_of(
    path: Seq<char>,
    vendor: Seq<char>,
    model: Seq<char>,
    capacity: Seq<char>,
    connection: DeviceConnectionType,
) -> Seq<char> {
    path + " \u{b7} "@ + vendor + seq![' '] + model + " \u{b7} "@ + capacity + " \u{b7} "@
        + connection.label()
}

/// Words the line that describes a chosen device. `capacity` is its
/// capacity as text.
pub fn device_line(
    path: &str,
    vendor: &str,
    model: &str,
    capacity: &str,
    connection: DeviceConnectionType,
) -> (line: String)
    ensures
        line@ == device_line_of(path@, vendor@, model@, capacity@, connection),
{
    let mut out: Vec<char> = Vec::new();
    push_text(&mut out, path);
    push_text(&mut out, " \u{b7} ");
    push_text(&mut out, vendor);
    out.push(' ');
    push_text(&mut out, model);
    push_text(&mut out, " \u{b7} ");
    push_text(&mut out, capacity);
    push_text(&mut out, " \u{b7} ");
    push_text(&mut out, connection.as_str());
    string_of(out.as_slice())
}

/// The line that logs a choice of target.
pub open spec fn selection_log_of(path: Option<Seq<char>>) -> Seq<char> {
    match path {
        Some(p) => "DEV_SELECTED="@ + p,
        None => "DEV_SELECTED=NONE"@,
    }
}

/// Words the line that logs a choice of target.
pub fn selection_log(path: Option<&str>) -> (line: String)
    ensures
        line@ == selection_log_of(
            match path {
                Some(p) => Some(p@),
                None => None,
            },
        ),
{
    let mut out: Vec<char> = Vec::new();
    match path {
        Some(p) => {
            push_text(&mut out, "DEV_SELECTED=");
            push_text(&mut out, p);
        },
        None => {
            push_text(&mut out, "DEV_SELECTED=NONE");
        },
    }
    string_of(out.as_slice())
}

/// The view of an optional owned text.
pub open spec fn choice_view(o: Option<String>) -> Option<Seq<char>> {
    match o {
        Some(s) => Some(s@),
        None => None,
    }
}

/// Takes a choice of target into the state and brings the action area in
/// line. The result tells whether the choice changed.
pub fn sync_device_selection(state: &mut AppState, path: Option<String>) -> (changed: bool)
    ensures
        changed == (choice_view(old(state).selected_device_path) != choice_view(path)),
        choice_view(final(state).selected_device_path) == choice_view(path),
        final(state).selected_iso == old(state).selected_iso,
        final(state).is_working == old(state).is_working,
        final(state).action_state@ == if old(state).is_working {
            old(state).action_state@
        } else if old(state).selected_iso is Some && path is Some {
            ActionView::Armed
        } else {
            ActionView::Idle
        },
{
    let changed = match (&state.selected_device_path, &path) {
        (Some(a), Some(b)) => !same_text(
            chars_of(a.as_str()).as_slice(),
            chars_of(b.as_str()).as_slice(),
        ),
        (None, None) => false,
        _ => true,
    };
    state.selected_device_path = path;
    recompute_action_state(state);
    changed
}

/// The name of the release channel that a branch belongs to.
pub open spec fn channel_of(branch: Seq<char>) -> Seq<char> {
    if branch == "main"@ || branch == "master"@ {
        "STABLE"@
    } else if contains(branch, "nightly"@) {
        "NIGHTLY"@
    } else if contains(branch, "dev"@) {
        "DEV"@
    } else {
        branch
    }
}

/// The full version text: version, channel and the first seven characters
/// of the commit.
pub open spec fn version_text(version: Seq<char>, branch: Seq<char>, hash: Seq<char>) -> Seq<
    char,
> {
    version + " \u{b7} "@ + channel_of(branch) + " ("@ + hash.take(
        if hash.len() < 7 {
            hash.len() as int
        } else {
            7
        },
    ) + ")"@
}

/// Composes the full version text for display.
pub fn version_info(version: &str, branch: &str, hash: &str) -> (text: String)
    ensures
        text@ == version_text(version@, branch@, hash@),
{
    let b = chars_of(branch);
    let h = chars_of(hash);
    let mut out: Vec<char> = Vec::new();
    push_text(&mut out, version);
    push_text(&mut out, " \u{b7} ");
    if is_text(b.as_slice(), "main") || is_text(b.as_slice(), "master") {
        push_text(&mut out, "STABLE");
    } else if holds(b.as_slice(), "nightly") {
        push_text(&mut out, "NIGHTLY");
    } else if holds(b.as_slice(), "dev") {
        push_text(&mut out, "DEV");
    } else {
        push_chars(&mut out, b.as_slice());
    }
    push_text(&mut out, " (");
    let n: usize = if h.len() < 7 {
        h.len()
    } else {
        7
    };
    push_chars(&mut out, vstd::slice::slice_subrange(h.as_slice(), 0, n));
    push_text(&mut out, ")");
    string_of(out.as_slice())
}

} // verus!

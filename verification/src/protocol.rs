//! The progress protocol: one line of text per event, written by the
//! privileged process on its standard output and read back by its caller.
//!
//! ```text
//! READY <total_bytes>
//! PROGRESS <bytes_written> <bytes_per_second>
//! DONE
//! VERIFY_START <total_bytes>
//! VERIFY_PROGRESS <bytes_verified> <bytes_per_second>
//! VERIFY_DONE
//! METRICS total_time=<seconds>s avg_speed=<MBps>MB/s total_bytes=<n> version=<v>
//! ERROR <free-text message>
//! ```
//!
//! A line is read as its whitespace-separated words. The first word is the
//! keyword; a line whose keyword is unknown, or that lacks an operand, is
//! ignored. An operand that is not a number reads as zero. The figures
//! of `METRICS` have two decimal places; a `METRICS` line with a field
//! that does not read is ignored.

use crate::decimal::{
    decimal, lemma_decimal_digits, lemma_parse_decimal, parse_decimal, parse_unsigned,
    push_decimal,
};
use crate::metrics::{
    fixed2, fixed2_value, lemma_decimal_no_spaces, lemma_fixed2_reads, lemma_no_spaces_concat,
    lemma_strip_affixes, no_spaces, parse_fixed2, push_fixed2, strip_affixes,
    text_strip_affixes,
};
use crate::text::{chars_of, is_space, push_text, same_text, string_of};
use crate::words::{
    lemma_words_after_space, lemma_words_empty, lemma_words_first, next_word, words,
};
use vstd::prelude::*;
use vstd::slice::slice_subrange;

verus! {

/// One event of an imaging job, as the privileged process reports it.
#[derive(Debug, Clone, PartialEq, Eq)]
pub enum ProgressEvent {
    /// The write phase starts; the source holds `total_bytes`.
    Ready { total_bytes: u64 },
    /// `bytes_done` bytes are written so far.
    WriteProgress { bytes_done: u64, bytes_per_second: u64 },
    /// Every byte is written and synced.
    WriteDone,
    /// The verify phase starts; `total_bytes` are to be read back.
    VerifyReady { total_bytes: u64 },
    /// `bytes_done` bytes are read back and equal so far.
    VerifyProgress { bytes_done: u64, bytes_per_second: u64 },
    /// The target equals the source.
    VerifyDone,
    /// The figures of a job that ran through: its duration in hundredths
    /// of a second, its average speed in hundredths of a megabyte per
    /// second, its size, and the version of the process that ran it.
    Metrics { elapsed_centis: u64, avg_speed_centis: u64, total_bytes: u64, version: String },
    /// The job failed; nothing follows.
    Failure { message: String },
}

/// The mathematical value of a `ProgressEvent`.
pub enum EventView {
    Ready { total_bytes: u64 },
    WriteProgress { bytes_done: u64, bytes_per_second: u64 },
    WriteDone,
    VerifyReady { total_bytes: u64 },
    VerifyProgress { bytes_done: u64, bytes_per_second: u64 },
    VerifyDone,
    Metrics { elapsed_centis: u64, avg_speed_centis: u64, total_bytes: u64, version: Seq<char> },
    Failure { message: Seq<char> },
}

impl View for ProgressEvent {
    type V = EventView;

    open spec fn view(&self) -> EventView {
        match *self {
            ProgressEvent::Ready { total_bytes } => EventView::Ready { total_bytes },
            ProgressEvent::WriteProgress { bytes_done, bytes_per_second } => {
                EventView::WriteProgress { bytes_done, bytes_per_second }
            },
            ProgressEvent::WriteDone => EventView::WriteDone,
            ProgressEvent::VerifyReady { total_bytes } => EventView::VerifyReady { total_bytes },
            ProgressEvent::VerifyProgress { bytes_done, bytes_per_second } => {
                EventView::VerifyProgress { bytes_done, bytes_per_second }
            },
            ProgressEvent::VerifyDone => EventView::VerifyDone,
            ProgressEvent::Metrics { elapsed_centis, avg_speed_centis, total_bytes, version } => {
                EventView::Metrics {
                    elapsed_centis,
                    avg_speed_centis,
                    total_bytes,
                    version: version@,
                }
            },
            ProgressEvent::Failure { message } => EventView::Failure { message: message@ },
        }
    }
}

/// Each word of `ws` with a space in front of it, all in one text.
pub open spec fn spaced(ws: Seq<Seq<char>>) -> Seq<char>
    decreases ws.len(),
{
    if ws.len() == 0 {
        Seq::empty()
    } else {
        seq![' '] + ws[0] + spaced(ws.skip(1))
    }
}

/// The words of `ws` with one space between neighbours.
pub open spec fn joined(ws: Seq<Seq<char>>) -> Seq<char> {
    if ws.len() == 0 {
        Seq::empty()
    } else {
        ws[0] + spaced(ws.skip(1))
    }
}

/// The number an operand stands for: what it denotes in decimal, or zero.
pub open spec fn operand(word: Seq<char>) -> u64 {
    match parse_unsigned(word, u64::MAX as int) {
        Some(n) => n as u64,
        None => 0,
    }
}

/// The event that the words of a line stand for, if any.
pub open spec fn event_of_words(w: Seq<Seq<char>>) -> Option<EventView> {
    if w.len() == 0 {
        None
    } else if w[0] == "READY"@ {
        if w.len() >= 2 {
            Some(EventView::Ready { total_bytes: operand(w[1]) })
        } else {
            None
        }
    } else if w[0] == "PROGRESS"@ {
        if w.len() >= 3 {
            Some(
                EventView::WriteProgress {
                    bytes_done: operand(w[1]),
                    bytes_per_second: operand(w[2]),
                },
            )
        } else {
            None
        }
    } else if w[0] == "DONE"@ {
        Some(EventView::WriteDone)
    } else if w[0] == "VERIFY_START"@ {
        if w.len() >= 2 {
            Some(EventView::VerifyReady { total_bytes: operand(w[1]) })
        } else {
            None
        }
    } else if w[0] == "VERIFY_PROGRESS"@ {
        if w.len() >= 3 {
            Some(
                EventView::VerifyProgress {
                    bytes_done: operand(w[1]),
                    bytes_per_second: operand(w[2]),
                },
            )
        } else {
            None
        }
    } else if w[0] == "VERIFY_DONE"@ {
        Some(EventView::VerifyDone)
    } else if w[0] == "METRICS"@ {
        if w.len() >= 5 {
            metrics_of_fields(w[1], w[2], w[3], w[4])
        } else {
            None
        }
    } else if w[0] == "ERROR"@ {
        Some(EventView::Failure { message: joined(w.skip(1)) })
    } else {
        None
    }
}

/// The figure with two decimal places that a field holds between `key` and
/// `unit`.
pub open spec fn figure_field(word: Seq<char>, key: Seq<char>, unit: Seq<char>) -> Option<int> {
    match strip_affixes(word, key, unit) {
        Some(body) => fixed2_value(body),
        None => None,
    }
}

/// The number that a field holds after `key`.
pub open spec fn number_field(word: Seq<char>, key: Seq<char>) -> Option<int> {
    match strip_affixes(word, key, Seq::empty()) {
        Some(body) => parse_unsigned(body, u64::MAX as int),
        None => None,
    }
}

/// The `METRICS` event that four fields stand for, if each of them reads.
pub open spec fn metrics_of_fields(
    time: Seq<char>,
    speed: Seq<char>,
    bytes: Seq<char>,
    version: Seq<char>,
) -> Option<EventView> {
    match (
        figure_field(time, "total_time="@, "s"@),
        figure_field(speed, "avg_speed="@, "MB/s"@),
        number_field(bytes, "total_bytes="@),
        strip_affixes(version, "version="@, Seq::empty()),
    ) {
        (Some(e), Some(a), Some(t), Some(v)) => Some(
            EventView::Metrics {
                elapsed_centis: e as u64,
                avg_speed_centis: a as u64,
                total_bytes: t as u64,
                version: v,
            },
        ),
        _ => None,
    }
}

/// The event that a line stands for, if any.
pub open spec fn parsed(line: Seq<char>) -> Option<EventView> {
    event_of_words(words(line))
}

/// The line that reports an event, without its line ending.
pub open spec fn encoded(e: EventView) -> Seq<char> {
    match e {
        EventView::Ready { total_bytes } => "READY "@ + decimal(total_bytes as nat),
        EventView::WriteProgress { bytes_done, bytes_per_second } => "PROGRESS "@ + decimal(
            bytes_done as nat,
        ) + seq![' '] + decimal(bytes_per_second as nat),
        EventView::WriteDone => "DONE"@,
        EventView::VerifyReady { total_bytes } => "VERIFY_START "@ + decimal(total_bytes as nat),
        EventView::VerifyProgress { bytes_done, bytes_per_second } => "VERIFY_PROGRESS "@
            + decimal(bytes_done as nat) + seq![' '] + decimal(bytes_per_second as nat),
        EventView::VerifyDone => "VERIFY_DONE"@,
        EventView::Metrics { elapsed_centis, avg_speed_centis, total_bytes, version } => {
            "METRICS total_time="@ + fixed2(elapsed_centis as nat) + "s avg_speed="@ + fixed2(
                avg_speed_centis as nat,
            ) + "MB/s total_bytes="@ + decimal(total_bytes as nat) + " version="@ + version
        },
        EventView::Failure { message } => "ERROR "@ + message,
    }
}

impl ProgressEvent {
    /// Writes the event as its protocol line, without a line ending.
    pub fn encode(&self) -> (line: String)
        ensures
            line@ == encoded(self@),
    {
        let mut out: Vec<char> = Vec::new();
        match self {
            ProgressEvent::Ready { total_bytes } => {
                push_text(&mut out, "READY ");
                push_decimal(&mut out, *total_bytes);
            },
            ProgressEvent::WriteProgress { bytes_done, bytes_per_second } => {
                push_text(&mut out, "PROGRESS ");
                push_decimal(&mut out, *bytes_done);
                out.push(' ');
                push_decimal(&mut out, *bytes_per_second);
            },
            ProgressEvent::WriteDone => {
                push_text(&mut out, "DONE");
            },
            ProgressEvent::VerifyReady { total_bytes } => {
                push_text(&mut out, "VERIFY_START ");
                push_decimal(&mut out, *total_bytes);
            },
            ProgressEvent::VerifyProgress { bytes_done, bytes_per_second } => {
                push_text(&mut out, "VERIFY_PROGRESS ");
                push_decimal(&mut out, *bytes_done);
                out.push(' ');
                push_decimal(&mut out, *bytes_per_second);
            },
            ProgressEvent::VerifyDone => {
                push_text(&mut out, "VERIFY_DONE");
            },
            ProgressEvent::Metrics { elapsed_centis, avg_speed_centis, total_bytes, version } => {
                push_text(&mut out, "METRICS total_time=");
                push_fixed2(&mut out, *elapsed_centis);
                push_text(&mut out, "s avg_speed=");
                push_fixed2(&mut out, *avg_speed_centis);
                push_text(&mut out, "MB/s total_bytes=");
                push_decimal(&mut out, *total_bytes);
                push_text(&mut out, " version=");
                push_text(&mut out, version.as_str());
            },
            ProgressEvent::Failure { message } => {
                push_text(&mut out, "ERROR ");
                push_text(&mut out, message.as_str());
            },
        }
        string_of(out.as_slice())
    }
}

/// Whether the word of `s` between `a` and `b` is `keyword`.
fn word_is(s: &[char], a: usize, b: usize, keyword: &str) -> (r: bool)
    requires
        a <= b <= s.len(),
    ensures
        r == (s@.subrange(a as int, b as int) == keyword@),
{
    let expected = chars_of(keyword);
    same_text(slice_subrange(s, a, b), expected.as_slice())
}

/// The number that the word of `s` between `a` and `b` stands for.
fn operand_at(s: &[char], a: usize, b: usize) -> (n: u64)
    requires
        a <= b <= s.len(),
    ensures
        n == operand(s@.subrange(a as int, b as int)),
{
    match parse_decimal(slice_subrange(s, a, b), u64::MAX) {
        Some(n) => n,
        None => 0,
    }
}

/// The words of `s` from position `from` on, with one space between
/// neighbours.
pub fn join_words(s: &[char], from: usize) -> (out: Vec<char>)
    requires
        from <= s.len(),
    ensures
        out@ == joined(words(s@.skip(from as int))),
{
    let mut out: Vec<char> = Vec::new();
    let mut pos: usize = from;
    match next_word(s, pos) {
        None => {
            return out;
        },
        Some((a, b)) => {
            let mut i: usize = a;
            while i < b
                invariant
                    a <= i <= b <= s.len(),
                    out@ == s@.subrange(a as int, i as int),
                decreases b - i,
            {
                out.push(s[i]);
                i += 1;
            }
            assert((seq![s@.subrange(a as int, b as int)] + words(s@.skip(b as int))).skip(1)
                == words(s@.skip(b as int)));
            pos = b;
        },
    }
    loop
        invariant
            pos <= s.len(),
            joined(words(s@.skip(from as int))) == out@ + spaced(words(s@.skip(pos as int))),
        decreases s.len() - pos,
    {
        match next_word(s, pos) {
            None => {
                return out;
            },
            Some((a, b)) => {
                let ghost before = out@;
                out.push(' ');
                let mut i: usize = a;
                while i < b
                    invariant
                        a <= i <= b <= s.len(),
                        out@ == before + seq![' '] + s@.subrange(a as int, i as int),
                    decreases b - i,
                {
                    out.push(s[i]);
                    i += 1;
                }
                assert((seq![s@.subrange(a as int, b as int)] + words(s@.skip(b as int))).skip(
                    1,
                ) == words(s@.skip(b as int)));
                pos = b;
            },
        }
    }
}

/// The operands that follow the keyword of a line: how many there are, up
/// to two, and what the first two stand for.
fn operands(s: &[char], from: usize) -> (r: (usize, u64, u64))
    requires
        from <= s.len(),
    ensures
        ({
            let w = words(s@.skip(from as int));
            &&& r.0 <= 2
            &&& (r.0 < 2 ==> w.len() == r.0)
            &&& (r.0 == 2 ==> w.len() >= 2)
            &&& (r.0 >= 1 ==> r.1 == operand(w[0]))
            &&& (r.0 >= 2 ==> r.2 == operand(w[1]))
        }),
{
    match next_word(s, from) {
        None => (0, 0, 0),
        Some((a1, b1)) => {
            let first = operand_at(s, a1, b1);
            match next_word(s, b1) {
                None => (1, first, 0),
                Some((a2, b2)) => {
                    let second = operand_at(s, a2, b2);
                    (2, first, second)
                },
            }
        },
    }
}

/// Reads the figure that `word` holds between `key` and `unit`.
fn read_figure(word: &[char], key: &str, unit: &str) -> (r: Option<u64>)
    ensures
        match r {
            Some(n) => figure_field(word@, key@, unit@) == Some(n as int),
            None => figure_field(word@, key@, unit@) is None,
        },
{
    let k = chars_of(key);
    let u = chars_of(unit);
    match text_strip_affixes(word, k.as_slice(), u.as_slice()) {
        Some(body) => parse_fixed2(body),
        None => None,
    }
}

/// Reads the fields of a `METRICS` line, which start at position `from`.
fn parse_metrics(s: &[char], from: usize) -> (r: Option<ProgressEvent>)
    requires
        from <= s.len(),
    ensures
        ({
            let w = words(s@.skip(from as int));
            let expected = if w.len() >= 4 {
                metrics_of_fields(w[0], w[1], w[2], w[3])
            } else {
                None
            };
            match r {
                Some(e) => expected == Some(e@),
                None => expected is None,
            }
        }),
{
    let ghost w = words(s@.skip(from as int));
    let (a1, b1) = match next_word(s, from) {
        None => {
            return None;
        },
        Some(range) => range,
    };
    let ghost w1 = words(s@.skip(b1 as int));
    assert(w == seq![s@.subrange(a1 as int, b1 as int)] + w1);
    let (a2, b2) = match next_word(s, b1) {
        None => {
            return None;
        },
        Some(range) => range,
    };
    let ghost w2 = words(s@.skip(b2 as int));
    assert(w1 == seq![s@.subrange(a2 as int, b2 as int)] + w2);
    let (a3, b3) = match next_word(s, b2) {
        None => {
            return None;
        },
        Some(range) => range,
    };
    let ghost w3 = words(s@.skip(b3 as int));
    assert(w2 == seq![s@.subrange(a3 as int, b3 as int)] + w3);
    let (a4, b4) = match next_word(s, b3) {
        None => {
            return None;
        },
        Some(range) => range,
    };
    assert(w.len() >= 4);
    assert(w[0] == s@.subrange(a1 as int, b1 as int));
    assert(w[1] == s@.subrange(a2 as int, b2 as int));
    assert(w[2] == s@.subrange(a3 as int, b3 as int));
    assert(w[3] == s@.subrange(a4 as int, b4 as int));
    let elapsed_centis = match read_figure(slice_subrange(s, a1, b1), "total_time=", "s") {
        Some(n) => n,
        None => {
            return None;
        },
    };
    let avg_speed_centis = match read_figure(slice_subrange(s, a2, b2), "avg_speed=", "MB/s") {
        Some(n) => n,
        None => {
            return None;
        },
    };
    let bytes_key = chars_of("total_bytes=");
    let version_key = chars_of("version=");
    let nothing: Vec<char> = Vec::new();
    assert(nothing@ == Seq::<char>::empty());
    let total_bytes = match text_strip_affixes(
        slice_subrange(s, a3, b3),
        bytes_key.as_slice(),
        nothing.as_slice(),
    ) {
        Some(body) => match parse_decimal(body, u64::MAX) {
            Some(n) => n,
            None => {
                return None;
            },
        },
        None => {
            return None;
        },
    };
    let version = match text_strip_affixes(
        slice_subrange(s, a4, b4),
        version_key.as_slice(),
        nothing.as_slice(),
    ) {
        Some(body) => string_of(body),
        None => {
            return None;
        },
    };
    Some(ProgressEvent::Metrics { elapsed_centis, avg_speed_centis, total_bytes, version })
}

/// Reads one line of the protocol. `None` means that the line is to be
/// ignored.
pub fn parse_line(line: &str) -> (r: Option<ProgressEvent>)
    ensures
        match r {
            Some(e) => parsed(line@) == Some(e@),
            None => parsed(line@) is None,
        },
{
    let chars = chars_of(line);
    let s = chars.as_slice();
    assert(s@.skip(0) == s@);
    let (a, b) = match next_word(s, 0) {
        None => {
            return None;
        },
        Some(range) => range,
    };
    let ghost w = words(line@);
    let ghost rest = words(s@.skip(b as int));
    assert(w == seq![s@.subrange(a as int, b as int)] + rest);
    assert(w.skip(1) == rest);
    assert(w[0] == s@.subrange(a as int, b as int));
    assert(rest.len() >= 1 ==> w[1] == rest[0]);
    assert(rest.len() >= 2 ==> w[2] == rest[1]);
    assert(rest.len() >= 3 ==> w[3] == rest[2]);
    assert(rest.len() >= 4 ==> w[4] == rest[3]);
    if word_is(s, a, b, "READY") {
        let (n, first, _) = operands(s, b);
        if n >= 1 {
            Some(ProgressEvent::Ready { total_bytes: first })
        } else {
            None
        }
    } else if word_is(s, a, b, "PROGRESS") {
        let (n, first, second) = operands(s, b);
        if n >= 2 {
            Some(ProgressEvent::WriteProgress { bytes_done: first, bytes_per_second: second })
        } else {
            None
        }
    } else if word_is(s, a, b, "DONE") {
        Some(ProgressEvent::WriteDone)
    } else if word_is(s, a, b, "VERIFY_START") {
        let (n, first, _) = operands(s, b);
        if n >= 1 {
            Some(ProgressEvent::VerifyReady { total_bytes: first })
        } else {
            None
        }
    } else if word_is(s, a, b, "VERIFY_PROGRESS") {
        let (n, first, second) = operands(s, b);
        if n >= 2 {
            Some(ProgressEvent::VerifyProgress { bytes_done: first, bytes_per_second: second })
        } else {
            None
        }
    } else if word_is(s, a, b, "VERIFY_DONE") {
        Some(ProgressEvent::VerifyDone)
    } else if word_is(s, a, b, "METRICS") {
        parse_metrics(s, b)
    } else if word_is(s, a, b, "ERROR") {
        let message = join_words(s, b);
        Some(ProgressEvent::Failure { message: string_of(message.as_slice()) })
    } else {
        None
    }
}

/// An event that its line reports without loss: the message of a failure
/// is made of words with one space between neighbours, and the version in
/// the figures of a job holds no whitespace.
pub open spec fn survives_encoding(e: EventView) -> bool {
    match e {
        EventView::Failure { message } => joined(words(message)) == message,
        EventView::Metrics { version, .. } => no_spaces(version),
        _ => true,
    }
}

/// What the keywords are made of.
proof fn lemma_keywords()
    ensures
        "READY "@ == "READY"@ + seq![' '],
        "PROGRESS "@ == "PROGRESS"@ + seq![' '],
        "VERIFY_START "@ == "VERIFY_START"@ + seq![' '],
        "VERIFY_PROGRESS "@ == "VERIFY_PROGRESS"@ + seq![' '],
        "ERROR "@ == "ERROR"@ + seq![' '],
        "READY"@ == seq!['R', 'E', 'A', 'D', 'Y'],
        "PROGRESS"@ == seq!['P', 'R', 'O', 'G', 'R', 'E', 'S', 'S'],
        "DONE"@ == seq!['D', 'O', 'N', 'E'],
        "VERIFY_START"@ == seq!['V', 'E', 'R', 'I', 'F', 'Y', '_', 'S', 'T', 'A', 'R', 'T'],
        "VERIFY_PROGRESS"@ == seq![
            'V',
            'E',
            'R',
            'I',
            'F',
            'Y',
            '_',
            'P',
            'R',
            'O',
            'G',
            'R',
            'E',
            'S',
            'S',
        ],
        "VERIFY_DONE"@ == seq!['V', 'E', 'R', 'I', 'F', 'Y', '_', 'D', 'O', 'N', 'E'],
        "ERROR"@ == seq!['E', 'R', 'R', 'O', 'R'],
        "METRICS"@ == seq!['M', 'E', 'T', 'R', 'I', 'C', 'S'],
{
    reveal_strlit("METRICS");
    assert("METRICS"@ =~= seq!['M', 'E', 'T', 'R', 'I', 'C', 'S']);
    reveal_strlit("READY ");
    reveal_strlit("PROGRESS ");
    reveal_strlit("VERIFY_START ");
    reveal_strlit("VERIFY_PROGRESS ");
    reveal_strlit("ERROR ");
    reveal_strlit("READY");
    reveal_strlit("PROGRESS");
    reveal_strlit("DONE");
    reveal_strlit("VERIFY_START");
    reveal_strlit("VERIFY_PROGRESS");
    reveal_strlit("VERIFY_DONE");
    reveal_strlit("ERROR");
    assert("READY "@ =~= "READY"@ + seq![' ']);
    assert("PROGRESS "@ =~= "PROGRESS"@ + seq![' ']);
    assert("VERIFY_START "@ =~= "VERIFY_START"@ + seq![' ']);
    assert("VERIFY_PROGRESS "@ =~= "VERIFY_PROGRESS"@ + seq![' ']);
    assert("ERROR "@ =~= "ERROR"@ + seq![' ']);
    assert("READY"@ =~= seq!['R', 'E', 'A', 'D', 'Y']);
    assert("PROGRESS"@ =~= seq!['P', 'R', 'O', 'G', 'R', 'E', 'S', 'S']);
    assert("DONE"@ =~= seq!['D', 'O', 'N', 'E']);
    assert("VERIFY_START"@ =~= seq!['V', 'E', 'R', 'I', 'F', 'Y', '_', 'S', 'T', 'A', 'R', 'T']);
    assert("VERIFY_PROGRESS"@ =~= seq![
        'V',
        'E',
        'R',
        'I',
        'F',
        'Y',
        '_',
        'P',
        'R',
        'O',
        'G',
        'R',
        'E',
        'S',
        'S',
    ]);
    assert("VERIFY_DONE"@ =~= seq!['V', 'E', 'R', 'I', 'F', 'Y', '_', 'D', 'O', 'N', 'E']);
    assert("ERROR"@ =~= seq!['E', 'R', 'R', 'O', 'R']);
}

/// The words of a keyword, a space and what follows are the keyword and the
/// words of what follows.
proof fn lemma_words_after_keyword(keyword: Seq<char>, rest: Seq<char>)
    requires
        keyword.len() > 0,
        forall|i: int| 0 <= i < keyword.len() ==> !is_space(#[trigger] keyword[i]),
    ensures
        words(keyword + seq![' '] + rest) == seq![keyword] + words(rest),
{
    assert(keyword + seq![' '] + rest == keyword + (seq![' '] + rest));
    lemma_words_first(keyword, seq![' '] + rest);
    lemma_words_after_space(' ', rest);
}

/// A number in decimal, followed by nothing or by whitespace, is one word.
proof fn lemma_words_number(n: nat, rest: Seq<char>)
    requires
        rest.len() > 0 ==> is_space(rest[0]),
    ensures
        words(decimal(n) + rest) == seq![decimal(n)] + words(rest),
{
    lemma_decimal_digits(n);
    lemma_words_first(decimal(n), rest);
}

/// A line with one operand reads as its keyword and that operand.
proof fn lemma_one_operand(keyword: Seq<char>, n: u64)
    requires
        keyword.len() > 0,
        forall|i: int| 0 <= i < keyword.len() ==> !is_space(#[trigger] keyword[i]),
    ensures
        words(keyword + seq![' '] + decimal(n as nat)) == seq![keyword, decimal(n as nat)],
        operand(decimal(n as nat)) == n,
{
    let d = decimal(n as nat);
    lemma_words_after_keyword(keyword, d);
    lemma_words_number(n as nat, Seq::empty());
    lemma_words_empty();
    assert(d + Seq::<char>::empty() == d);
    lemma_parse_decimal(n as nat, u64::MAX as int);
}

/// A line with two operands reads as its keyword and those operands.
proof fn lemma_two_operands(keyword: Seq<char>, n: u64, m: u64)
    requires
        keyword.len() > 0,
        forall|i: int| 0 <= i < keyword.len() ==> !is_space(#[trigger] keyword[i]),
    ensures
        words(keyword + seq![' '] + decimal(n as nat) + seq![' '] + decimal(m as nat)) == seq![
            keyword,
            decimal(n as nat),
            decimal(m as nat),
        ],
        operand(decimal(n as nat)) == n,
        operand(decimal(m as nat)) == m,
{
    let dn = decimal(n as nat);
    let dm = decimal(m as nat);
    assert(keyword + seq![' '] + dn + seq![' '] + dm == keyword + seq![' '] + (dn + (seq![' ']
        + dm)));
    lemma_words_after_keyword(keyword, dn + (seq![' '] + dm));
    lemma_words_number(n as nat, seq![' '] + dm);
    lemma_words_after_space(' ', dm);
    lemma_words_number(m as nat, Seq::empty());
    lemma_words_empty();
    assert(dm + Seq::<char>::empty() == dm);
    lemma_parse_decimal(n as nat, u64::MAX as int);
    lemma_parse_decimal(m as nat, u64::MAX as int);
}

/// Reading the line of an event gives the event back.
pub proof fn lemma_parse_encoded(e: EventView)
    requires
        survives_encoding(e),
    ensures
        parsed(encoded(e)) == Some(e),
{
    lemma_keywords();
    match e {
        EventView::Ready { total_bytes } => {
            lemma_one_operand("READY"@, total_bytes);
        },
        EventView::WriteProgress { bytes_done, bytes_per_second } => {
            lemma_two_operands("PROGRESS"@, bytes_done, bytes_per_second);
        },
        EventView::WriteDone => {
            lemma_words_first("DONE"@, Seq::empty());
            lemma_words_empty();
            assert("DONE"@ + Seq::<char>::empty() == "DONE"@);
        },
        EventView::VerifyReady { total_bytes } => {
            lemma_one_operand("VERIFY_START"@, total_bytes);
        },
        EventView::VerifyProgress { bytes_done, bytes_per_second } => {
            lemma_two_operands("VERIFY_PROGRESS"@, bytes_done, bytes_per_second);
        },
        EventView::VerifyDone => {
            lemma_words_first("VERIFY_DONE"@, Seq::empty());
            lemma_words_empty();
            assert("VERIFY_DONE"@ + Seq::<char>::empty() == "VERIFY_DONE"@);
        },
        EventView::Metrics { elapsed_centis, avg_speed_centis, total_bytes, version } => {
            lemma_parse_metrics(elapsed_centis, avg_speed_centis, total_bytes, version);
        },
        EventView::Failure { message } => {
            lemma_words_after_keyword("ERROR"@, message);
            let w = words(encoded(e));
            assert(w.skip(1) == words(message));
        },
    }
}

/// The line of a failure reads as a failure whatever its message is; the
/// message comes back with its whitespace brought down to single spaces.
pub proof fn lemma_failure_line(message: Seq<char>)
    ensures
        parsed(encoded(EventView::Failure { message })) == Some(
            EventView::Failure { message: joined(words(message)) },
        ),
{
    lemma_keywords();
    lemma_words_after_keyword("ERROR"@, message);
    let w = words(encoded(EventView::Failure { message }));
    assert(w.skip(1) == words(message));
}

/// The field that holds the duration of a job.
pub open spec fn time_field(elapsed_centis: u64) -> Seq<char> {
    "total_time="@ + fixed2(elapsed_centis as nat) + "s"@
}

/// The field that holds the average speed of a job.
pub open spec fn speed_field(avg_speed_centis: u64) -> Seq<char> {
    "avg_speed="@ + fixed2(avg_speed_centis as nat) + "MB/s"@
}

/// The field that holds the size of a job.
pub open spec fn bytes_field(total_bytes: u64) -> Seq<char> {
    "total_bytes="@ + decimal(total_bytes as nat)
}

/// The field that holds the version of the process that ran a job.
pub open spec fn version_field(version: Seq<char>) -> Seq<char> {
    "version="@ + version
}

/// The line of the figures of a job is its keyword and its four fields
/// with one space between neighbours.
proof fn lemma_metrics_line(
    elapsed_centis: u64,
    avg_speed_centis: u64,
    total_bytes: u64,
    version: Seq<char>,
)
    ensures
        encoded(EventView::Metrics { elapsed_centis, avg_speed_centis, total_bytes, version })
            == "METRICS"@ + seq![' '] + (time_field(elapsed_centis) + seq![' '] + (speed_field(
            avg_speed_centis,
        ) + seq![' '] + (bytes_field(total_bytes) + seq![' '] + version_field(version)))),
{
    reveal_strlit("METRICS total_time=");
    reveal_strlit("s avg_speed=");
    reveal_strlit("MB/s total_bytes=");
    reveal_strlit(" version=");
    reveal_strlit("METRICS");
    reveal_strlit("total_time=");
    reveal_strlit("s");
    reveal_strlit("avg_speed=");
    reveal_strlit("MB/s");
    reveal_strlit("total_bytes=");
    reveal_strlit("version=");
    assert("METRICS total_time="@ =~= "METRICS"@ + seq![' '] + "total_time="@);
    assert("s avg_speed="@ =~= "s"@ + seq![' '] + "avg_speed="@);
    assert("MB/s total_bytes="@ =~= "MB/s"@ + seq![' '] + "total_bytes="@);
    assert(" version="@ =~= seq![' '] + "version="@);
    assert(encoded(EventView::Metrics { elapsed_centis, avg_speed_centis, total_bytes, version })
        =~= "METRICS"@ + seq![' '] + (time_field(elapsed_centis) + seq![' '] + (speed_field(
        avg_speed_centis,
    ) + seq![' '] + (bytes_field(total_bytes) + seq![' '] + version_field(version)))));
}

/// The fields of the figures hold no whitespace.
proof fn lemma_metrics_fields_are_words(
    elapsed_centis: u64,
    avg_speed_centis: u64,
    total_bytes: u64,
    version: Seq<char>,
)
    requires
        no_spaces(version),
    ensures
        no_spaces("METRICS"@) && "METRICS"@.len() > 0,
        no_spaces(time_field(elapsed_centis)) && time_field(elapsed_centis).len() > 0,
        no_spaces(speed_field(avg_speed_centis)) && speed_field(avg_speed_centis).len() > 0,
        no_spaces(bytes_field(total_bytes)) && bytes_field(total_bytes).len() > 0,
        no_spaces(version_field(version)) && version_field(version).len() > 0,
{
    reveal_strlit("METRICS");
    reveal_strlit("total_time=");
    reveal_strlit("s");
    reveal_strlit("avg_speed=");
    reveal_strlit("MB/s");
    reveal_strlit("total_bytes=");
    reveal_strlit("version=");
    lemma_fixed2_reads(elapsed_centis);
    lemma_fixed2_reads(avg_speed_centis);
    lemma_decimal_no_spaces(total_bytes as nat);
    assert(no_spaces("total_time="@));
    assert(no_spaces("s"@));
    assert(no_spaces("avg_speed="@));
    assert(no_spaces("MB/s"@));
    assert(no_spaces("total_bytes="@));
    assert(no_spaces("version="@));
    assert(no_spaces("METRICS"@));
    lemma_no_spaces_concat("total_time="@, fixed2(elapsed_centis as nat));
    lemma_no_spaces_concat("total_time="@ + fixed2(elapsed_centis as nat), "s"@);
    lemma_no_spaces_concat("avg_speed="@, fixed2(avg_speed_centis as nat));
    lemma_no_spaces_concat("avg_speed="@ + fixed2(avg_speed_centis as nat), "MB/s"@);
    lemma_no_spaces_concat("total_bytes="@, decimal(total_bytes as nat));
    lemma_no_spaces_concat("version="@, version);
}

/// The words of the line of the figures are its keyword and its fields.
proof fn lemma_metrics_words(
    elapsed_centis: u64,
    avg_speed_centis: u64,
    total_bytes: u64,
    version: Seq<char>,
)
    requires
        no_spaces(version),
    ensures
        words(
            encoded(
                EventView::Metrics { elapsed_centis, avg_speed_centis, total_bytes, version },
            ),
        ) == seq![
            "METRICS"@,
            time_field(elapsed_centis),
            speed_field(avg_speed_centis),
            bytes_field(total_bytes),
            version_field(version),
        ],
{
    lemma_metrics_line(elapsed_centis, avg_speed_centis, total_bytes, version);
    lemma_metrics_fields_are_words(elapsed_centis, avg_speed_centis, total_bytes, version);
    let k = "METRICS"@;
    let w1 = time_field(elapsed_centis);
    let w2 = speed_field(avg_speed_centis);
    let w3 = bytes_field(total_bytes);
    let w4 = version_field(version);
    let sp = seq![' '];
    let r3 = w3 + sp + w4;
    let r2 = w2 + sp + r3;
    let r1 = w1 + sp + r2;
    lemma_words_after_keyword(k, r1);
    lemma_words_after_keyword(w1, r2);
    lemma_words_after_keyword(w2, r3);
    lemma_words_after_keyword(w3, w4);
    lemma_words_first(w4, Seq::empty());
    lemma_words_empty();
    assert(w4 + Seq::<char>::empty() == w4);
    assert(words(w4) == seq![w4]);
    assert(words(r3) == seq![w3, w4]);
    assert(words(r2) == seq![w2, w3, w4]);
    assert(words(r1) == seq![w1, w2, w3, w4]);
    assert(words(k + sp + r1) == seq![k, w1, w2, w3, w4]);
}

/// The fields of the figures read back as the figures.
proof fn lemma_metrics_fields_read(
    elapsed_centis: u64,
    avg_speed_centis: u64,
    total_bytes: u64,
    version: Seq<char>,
)
    ensures
        metrics_of_fields(
            time_field(elapsed_centis),
            speed_field(avg_speed_centis),
            bytes_field(total_bytes),
            version_field(version),
        ) == Some(EventView::Metrics { elapsed_centis, avg_speed_centis, total_bytes, version }),
{
    let nothing = Seq::<char>::empty();
    lemma_fixed2_reads(elapsed_centis);
    lemma_fixed2_reads(avg_speed_centis);
    lemma_parse_decimal(total_bytes as nat, u64::MAX as int);
    lemma_strip_affixes("total_time="@, fixed2(elapsed_centis as nat), "s"@);
    lemma_strip_affixes("avg_speed="@, fixed2(avg_speed_centis as nat), "MB/s"@);
    lemma_strip_affixes("total_bytes="@, decimal(total_bytes as nat), nothing);
    lemma_strip_affixes("version="@, version, nothing);
    assert(bytes_field(total_bytes) + nothing == bytes_field(total_bytes));
    assert(version_field(version) + nothing == version_field(version));
}

/// The line of the figures of a job reads back as those figures.
proof fn lemma_parse_metrics(
    elapsed_centis: u64,
    avg_speed_centis: u64,
    total_bytes: u64,
    version: Seq<char>,
)
    requires
        no_spaces(version),
    ensures
        parsed(
            encoded(
                EventView::Metrics { elapsed_centis, avg_speed_centis, total_bytes, version },
            ),
        ) == Some(EventView::Metrics { elapsed_centis, avg_speed_centis, total_bytes, version }),
{
    lemma_keywords();
    lemma_metrics_words(elapsed_centis, avg_speed_centis, total_bytes, version);
    lemma_metrics_fields_read(elapsed_centis, avg_speed_centis, total_bytes, version);
}

} // verus!

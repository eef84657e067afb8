//! One job seen from both sides: what the privileged process prints, its
//! caller reads, and the two agree on how the job ended.

use crate::helper::{metrics_event, next, version, Engine, InputView, Phase};
use crate::metrics::no_spaces;
use crate::monitor::{
    after_line, after_lines, lemma_after_lines_concat, lemma_after_one_line, ProgressReader,
    StreamState,
};
use crate::protocol::{encoded, lemma_failure_line, lemma_parse_encoded, parsed, EventView};
use vstd::prelude::*;

verus! {

/// The lines of a run of events.
pub open spec fn lines_of(events: Seq<EventView>) -> Seq<Seq<char>> {
    Seq::new(events.len(), |i: int| encoded(events[i]))
}

/// Whether a reader has followed an engine: it has read `VERIFY_DONE` just
/// when the engine is done, and `ERROR` just when the engine has failed.
pub open spec fn in_step(e: Engine, r: ProgressReader) -> bool {
    &&& r.state == StreamState::Completed <==> e.phase == Phase::VerifyDone
    &&& r.state == StreamState::Failed <==> e.phase == Phase::Failed
}

/// What the engine prints of itself holds no whitespace.
proof fn lemma_version_is_a_word()
    ensures
        no_spaces(version()),
{
    reveal_strlit("1.0.0");
}

/// The line of any event that the engine prints reads as an event of the
/// same kind, and as the same event but for the wording of a failure.
proof fn lemma_printed_line(e: Engine, input: InputView, i: int)
    requires
        0 <= i < next(e, input).1.len(),
    ensures
        ({
            let event = next(e, input).1[i];
            match event {
                EventView::Failure { .. } => parsed(encoded(event)) matches Some(
                    EventView::Failure { .. },
                ),
                _ => parsed(encoded(event)) == Some(event),
            }
        }),
{
    let event = next(e, input).1[i];
    match event {
        EventView::Failure { message } => {
            lemma_failure_line(message);
        },
        EventView::Metrics { .. } => {
            lemma_version_is_a_word();
            assert(event == metrics_event(e.write, input->SourceEnd_now));
            lemma_parse_encoded(event);
        },
        _ => {
            lemma_parse_encoded(event);
        },
    }
}

/// A reader that has followed the engine so far follows it through the
/// lines of its next step: the caller learns of success just when the
/// privileged process has verified the target, and of a failure just when
/// it has failed.
pub proof fn lemma_reader_follows_engine(e: Engine, r: ProgressReader, input: InputView)
    requires
        in_step(e, r),
    ensures
        in_step(next(e, input).0, after_lines(r, lines_of(next(e, input).1)).0),
{
    let (e2, events) = next(e, input);
    let lines = lines_of(events);
    if events.len() == 0 {
        assert(lines == Seq::<Seq<char>>::empty());
    } else if events.len() == 1 {
        assert(lines == seq![encoded(events[0])]);
        lemma_after_one_line(r, encoded(events[0]));
        lemma_printed_line(e, input, 0);
    } else {
        assert(events.len() == 2);
        assert(lines == seq![encoded(events[0])] + seq![encoded(events[1])]);
        lemma_after_lines_concat(r, seq![encoded(events[0])], seq![encoded(events[1])]);
        lemma_after_one_line(r, encoded(events[0]));
        lemma_after_one_line(after_line(r, encoded(events[0])).0, encoded(events[1]));
        lemma_printed_line(e, input, 0);
        lemma_printed_line(e, input, 1);
    }
}

/// A fresh reader has followed a fresh engine.
pub proof fn lemma_fresh_in_step(e: Engine, r: ProgressReader)
    requires
        e.phase == Phase::Idle,
        r.state == StreamState::Reading,
    ensures
        in_step(e, r),
{
}

} // verus!

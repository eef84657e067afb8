use etch::monitor::{
    launch_command, ExitReport, ProgressReader, StreamOutcome, StreamState, WorkMessage,
};
use etch::protocol::ProgressEvent;

#[test]
fn a_complete_stream_gives_every_event_and_success() {
    let lines = [
        "READY 3000",
        "PROGRESS 1000 500",
        "PROGRESS 3000 750",
        "DONE",
        "VERIFY_START 3000",
        "VERIFY_PROGRESS 2000 900",
        "VERIFY_PROGRESS 3000 950",
        "VERIFY_DONE",
    ];
    let mut reader = ProgressReader::new();
    let mut messages = Vec::new();
    for line in lines {
        assert!(!reader.is_finished());
        if let Some(m) = reader.read_line(line) {
            messages.push(m);
        }
    }
    assert_eq!(
        messages,
        vec![
            WorkMessage::WriteProgress(1000, 3000, 500),
            WorkMessage::WriteProgress(3000, 3000, 750),
            WorkMessage::WriteComplete,
            WorkMessage::VerifyProgress(2000, 3000, 900),
            WorkMessage::VerifyProgress(3000, 3000, 950),
            WorkMessage::VerifyComplete,
        ]
    );
    assert!(reader.is_finished());
    assert_eq!(reader.outcome(), StreamOutcome::Success);
    assert_eq!(reader, ProgressReader { total_size: 3000, state: StreamState::Completed });
}

#[test]
fn a_stream_that_ends_after_done_ended_unexpectedly() {
    let mut reader = ProgressReader::new();
    for line in ["READY 10", "PROGRESS 10 0", "DONE"] {
        reader.read_line(line);
    }
    assert!(!reader.is_finished());
    assert_eq!(reader.outcome(), StreamOutcome::UnexpectedTermination);
    for line in ["VERIFY_START 10", "VERIFY_PROGRESS 5 1", "METRICS a b c d", "noise"] {
        reader.read_line(line);
    }
    assert_eq!(reader.outcome(), StreamOutcome::UnexpectedTermination);
}

#[test]
fn an_empty_stream_ended_unexpectedly() {
    assert_eq!(ProgressReader::new().outcome(), StreamOutcome::UnexpectedTermination);
}

#[test]
fn an_error_line_is_a_reported_failure() {
    let mut reader = ProgressReader::new();
    reader.read_line("READY 10");
    assert_eq!(
        reader.read_line("ERROR Failed to write to device"),
        Some(WorkMessage::Error("Helper error: Failed to write to device".to_string()))
    );
    assert!(reader.is_finished());
    assert_eq!(reader.outcome(), StreamOutcome::ReportedFailure);
    // Nothing that follows changes the outcome.
    assert_eq!(reader.read_line("VERIFY_DONE"), None);
    assert_eq!(reader.outcome(), StreamOutcome::ReportedFailure);
}

#[test]
fn nothing_is_read_after_verify_done() {
    let mut reader = ProgressReader::new();
    reader.read_line("VERIFY_DONE");
    assert_eq!(reader.read_line("ERROR late"), None);
    assert_eq!(reader.read_line("PROGRESS 1 1"), None);
    assert_eq!(reader.outcome(), StreamOutcome::Success);
}

#[test]
fn progress_carries_the_total_that_was_announced_last() {
    let mut reader = ProgressReader::new();
    assert_eq!(reader.read_line("PROGRESS 5 1"), Some(WorkMessage::WriteProgress(5, 0, 1)));
    reader.read_line("READY 100");
    assert_eq!(reader.read_line("PROGRESS 5 1"), Some(WorkMessage::WriteProgress(5, 100, 1)));
    reader.read_line("VERIFY_START 200");
    assert_eq!(reader.read_line("VERIFY_PROGRESS 5 1"), Some(WorkMessage::VerifyProgress(5, 200, 1)));
    assert_eq!(reader.read_line("READY"), None);
    assert_eq!(reader.total_size, 200);
}

#[test]
fn unknown_lines_and_metrics_hand_nothing_on() {
    let mut reader = ProgressReader::new();
    assert_eq!(reader.read_line("SOMETHING_NEW 1 2 3"), None);
    assert_eq!(
        reader.read_line("METRICS total_time=0.10s avg_speed=1.00MB/s total_bytes=5 version=1.0.0"),
        None
    );
    assert_eq!(reader, ProgressReader::new());
}

#[test]
fn accept_takes_events_as_read_line_takes_lines() {
    let mut by_event = ProgressReader::new();
    let mut by_line = ProgressReader::new();
    let events = [
        ProgressEvent::Ready { total_bytes: 8 },
        ProgressEvent::WriteProgress { bytes_done: 8, bytes_per_second: 2 },
        ProgressEvent::WriteDone,
        ProgressEvent::VerifyReady { total_bytes: 8 },
        ProgressEvent::VerifyDone,
    ];
    for event in events {
        assert_eq!(by_event.accept(&event), by_line.read_line(&event.encode()));
        assert_eq!(by_event, by_line);
    }
}

#[test]
fn the_launch_command_has_the_two_paths_as_its_only_arguments() {
    assert_eq!(
        launch_command("/usr/bin/etch-helper", "/home/u/a b.iso", "/dev/sdb"),
        vec!["pkexec", "/usr/bin/etch-helper", "/home/u/a b.iso", "/dev/sdb"]
    );
}

#[test]
fn a_stream_is_closed_with_a_word_on_how_the_process_ended() {
    let failure = ExitReport::Failure { status: "exit status: 1".to_string() };
    let unknown = ExitReport::Unknown { reason: "no child".to_string() };
    let error = |text: &str| Some(WorkMessage::Error(text.to_string()));

    let reading = ProgressReader::new();
    assert_eq!(reading.close(&failure), error("Helper exited with status: exit status: 1"));
    assert_eq!(reading.close(&unknown), error("Failed to wait for helper: no child"));
    // A process that ends well without VERIFY_DONE is no success.
    assert_eq!(
        reading.close(&ExitReport::Success),
        error("Helper output ended before verification was done")
    );

    let mut done = ProgressReader::new();
    done.read_line("VERIFY_DONE");
    assert_eq!(done.close(&ExitReport::Success), None);
    assert_eq!(done.close(&failure), error("Helper exited with status: exit status: 1"));

    let mut failed = ProgressReader::new();
    failed.read_line("ERROR x");
    assert_eq!(failed.close(&failure), None);
    assert_eq!(failed.close(&ExitReport::Success), None);
    assert_eq!(failed.close(&unknown), None);
}

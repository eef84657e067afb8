use etch::protocol::{parse_line, ProgressEvent};

fn failure(message: &str) -> ProgressEvent {
    ProgressEvent::Failure { message: message.to_string() }
}

#[test]
fn encode_writes_each_line_of_the_grammar() {
    assert_eq!(ProgressEvent::Ready { total_bytes: 10485760 }.encode(), "READY 10485760");
    assert_eq!(
        ProgressEvent::WriteProgress { bytes_done: 1048576, bytes_per_second: 52428800 }.encode(),
        "PROGRESS 1048576 52428800"
    );
    assert_eq!(ProgressEvent::WriteDone.encode(), "DONE");
    assert_eq!(ProgressEvent::VerifyReady { total_bytes: 0 }.encode(), "VERIFY_START 0");
    assert_eq!(
        ProgressEvent::VerifyProgress { bytes_done: 7, bytes_per_second: 0 }.encode(),
        "VERIFY_PROGRESS 7 0"
    );
    assert_eq!(ProgressEvent::VerifyDone.encode(), "VERIFY_DONE");
    assert_eq!(failure("Failed to sync device").encode(), "ERROR Failed to sync device");
    assert_eq!(
        ProgressEvent::Metrics {
            elapsed_centis: 1234,
            avg_speed_centis: 8491,
            total_bytes: 1048576000,
            version: "1.0.0".to_string(),
        }
        .encode(),
        "METRICS total_time=12.34s avg_speed=84.91MB/s total_bytes=1048576000 version=1.0.0"
    );
}

#[test]
fn encode_pads_the_decimal_places() {
    assert_eq!(
        ProgressEvent::Metrics {
            elapsed_centis: 5,
            avg_speed_centis: 100,
            total_bytes: 0,
            version: String::new(),
        }
        .encode(),
        "METRICS total_time=0.05s avg_speed=1.00MB/s total_bytes=0 version="
    );
}

#[test]
fn encode_writes_the_largest_numbers() {
    assert_eq!(
        ProgressEvent::Ready { total_bytes: u64::MAX }.encode(),
        "READY 18446744073709551615"
    );
}

#[test]
fn parse_reads_each_line_of_the_grammar() {
    assert_eq!(parse_line("READY 10485760"), Some(ProgressEvent::Ready { total_bytes: 10485760 }));
    assert_eq!(
        parse_line("PROGRESS 1048576 52428800"),
        Some(ProgressEvent::WriteProgress { bytes_done: 1048576, bytes_per_second: 52428800 })
    );
    assert_eq!(parse_line("DONE"), Some(ProgressEvent::WriteDone));
    assert_eq!(parse_line("VERIFY_START 42"), Some(ProgressEvent::VerifyReady { total_bytes: 42 }));
    assert_eq!(
        parse_line("VERIFY_PROGRESS 41 9"),
        Some(ProgressEvent::VerifyProgress { bytes_done: 41, bytes_per_second: 9 })
    );
    assert_eq!(parse_line("VERIFY_DONE"), Some(ProgressEvent::VerifyDone));
    assert_eq!(parse_line("ERROR Failed to read from ISO"), Some(failure("Failed to read from ISO")));
    assert_eq!(
        parse_line("METRICS total_time=12.34s avg_speed=84.91MB/s total_bytes=1048576000 version=1.0.0"),
        Some(ProgressEvent::Metrics {
            elapsed_centis: 1234,
            avg_speed_centis: 8491,
            total_bytes: 1048576000,
            version: "1.0.0".to_string(),
        })
    );
}

#[test]
fn parse_ignores_what_is_no_event() {
    assert_eq!(parse_line(""), None);
    assert_eq!(parse_line("   \t "), None);
    assert_eq!(parse_line("HELLO 1 2"), None);
    assert_eq!(parse_line("ready 5"), None);
    assert_eq!(parse_line("READY"), None);
    assert_eq!(parse_line("PROGRESS 5"), None);
    assert_eq!(parse_line("VERIFY_START"), None);
    assert_eq!(parse_line("VERIFY_PROGRESS 1"), None);
    assert_eq!(parse_line("METRICS total_time=1.00s"), None);
    assert_eq!(
        parse_line("METRICS total_time=1.0s avg_speed=1.00MB/s total_bytes=1 version=1"),
        None
    );
    assert_eq!(
        parse_line("METRICS total_time=1.00s avg_speed=1.00MB total_bytes=1 version=1"),
        None
    );
    assert_eq!(
        parse_line("METRICS total_time=1.00s avg_speed=1.00MB/s total_bytes=x version=1"),
        None
    );
    assert_eq!(
        parse_line("METRICS total_time=1.00s avg_speed=1.00MB/s total_bytes=1 release=1"),
        None
    );
}

#[test]
fn parse_reads_operands_that_are_no_numbers_as_zero() {
    assert_eq!(parse_line("READY lots"), Some(ProgressEvent::Ready { total_bytes: 0 }));
    assert_eq!(parse_line("READY -5"), Some(ProgressEvent::Ready { total_bytes: 0 }));
    assert_eq!(
        parse_line("READY 18446744073709551616"),
        Some(ProgressEvent::Ready { total_bytes: 0 })
    );
    assert_eq!(
        parse_line("READY 18446744073709551615"),
        Some(ProgressEvent::Ready { total_bytes: u64::MAX })
    );
    assert_eq!(parse_line("READY +7"), Some(ProgressEvent::Ready { total_bytes: 7 }));
    assert_eq!(parse_line("READY 007"), Some(ProgressEvent::Ready { total_bytes: 7 }));
    assert_eq!(
        parse_line("PROGRESS 12 fast"),
        Some(ProgressEvent::WriteProgress { bytes_done: 12, bytes_per_second: 0 })
    );
}

#[test]
fn parse_splits_at_any_whitespace_and_passes_over_what_is_left() {
    assert_eq!(
        parse_line("  PROGRESS\t12   34  trailing words "),
        Some(ProgressEvent::WriteProgress { bytes_done: 12, bytes_per_second: 34 })
    );
    assert_eq!(parse_line("DONE now"), Some(ProgressEvent::WriteDone));
    assert_eq!(parse_line("READY\u{a0}9"), Some(ProgressEvent::Ready { total_bytes: 9 }));
}

#[test]
fn parse_joins_the_words_of_an_error() {
    assert_eq!(parse_line("ERROR"), Some(failure("")));
    assert_eq!(parse_line("ERROR   two   spaces  "), Some(failure("two spaces")));
    assert_eq!(
        parse_line("ERROR Verification failed: data mismatch at byte offset 5242880. Source: 0x00, Target: 0x01"),
        Some(failure("Verification failed: data mismatch at byte offset 5242880. Source: 0x00, Target: 0x01"))
    );
}

#[test]
fn every_event_survives_its_line() {
    let events = vec![
        ProgressEvent::Ready { total_bytes: 0 },
        ProgressEvent::Ready { total_bytes: u64::MAX },
        ProgressEvent::WriteProgress { bytes_done: 10, bytes_per_second: 9 },
        ProgressEvent::WriteDone,
        ProgressEvent::VerifyReady { total_bytes: 100 },
        ProgressEvent::VerifyProgress { bytes_done: u64::MAX, bytes_per_second: u64::MAX },
        ProgressEvent::VerifyDone,
        ProgressEvent::Metrics {
            elapsed_centis: u64::MAX,
            avg_speed_centis: 7,
            total_bytes: 99,
            version: "1.0.0".to_string(),
        },
        failure("Failed to open device for writing"),
    ];
    for event in events {
        assert_eq!(parse_line(&event.encode()), Some(event));
    }
}

use etch::models::{OperationState, Progress};

#[test]
fn the_time_left_is_what_is_left_over_the_throughput() {
    let p = Progress { bytes_processed: 250, total_bytes: 1000, bytes_per_second: 100 };
    assert_eq!(p.eta_seconds(), Some(7));
    let stalled = Progress { bytes_processed: 250, total_bytes: 1000, bytes_per_second: 0 };
    assert_eq!(stalled.eta_seconds(), None);
    let over = Progress { bytes_processed: 2000, total_bytes: 1000, bytes_per_second: 3 };
    assert_eq!(over.eta_seconds(), Some(0));
    let large = Progress { bytes_processed: 0, total_bytes: u64::MAX, bytes_per_second: 1 };
    assert_eq!(large.eta_seconds(), Some(u64::MAX));
}

#[test]
fn operation_states_compare() {
    assert_eq!(OperationState::Failed("x".to_string()), OperationState::Failed("x".to_string()));
    assert_ne!(OperationState::Idle, OperationState::Writing);
    assert_ne!(OperationState::Verifying, OperationState::Complete);
}

use etch::io::writer::{calculate_buffer_size, WriteJob, CHUNK_SIZE, MAX_CHUNK_SIZE, MIN_CHUNK_SIZE};
use etch::models::Progress;

#[test]
fn test_calculate_buffer_size_small_file() {
    assert_eq!(calculate_buffer_size(1024), MIN_CHUNK_SIZE);
    assert_eq!(calculate_buffer_size(MIN_CHUNK_SIZE as u64), MIN_CHUNK_SIZE);
}

#[test]
fn test_calculate_buffer_size_medium_file() {
    assert_eq!(calculate_buffer_size(CHUNK_SIZE as u64), CHUNK_SIZE);
    assert_eq!(calculate_buffer_size((CHUNK_SIZE * 50) as u64), CHUNK_SIZE);
}

#[test]
fn test_calculate_buffer_size_large_file() {
    let large_file_size = CHUNK_SIZE as u64 * 200;
    let expected_size = (large_file_size / 100) as usize;
    assert_eq!(calculate_buffer_size(large_file_size), expected_size);

    let very_large_file_size = CHUNK_SIZE as u64 * 100000;
    let max_size = 4 * CHUNK_SIZE;
    assert_eq!(calculate_buffer_size(very_large_file_size), max_size);
}

#[test]
fn buffer_size_at_the_edges() {
    assert_eq!(calculate_buffer_size(0), MIN_CHUNK_SIZE);
    assert_eq!(calculate_buffer_size(MIN_CHUNK_SIZE as u64 + 1), CHUNK_SIZE);
    assert_eq!(calculate_buffer_size(u64::MAX), MAX_CHUNK_SIZE);
    assert_eq!(calculate_buffer_size(400 * 1024 * 1024), MAX_CHUNK_SIZE);
    assert_eq!(calculate_buffer_size(400 * 1024 * 1024 - 100), MAX_CHUNK_SIZE - 1);
}

#[test]
fn buffer_size_never_shrinks() {
    let sizes: [u64; 9] = [0, 1, 65536, 65537, 1048576, 1048577, 150000000, 500000000, u64::MAX];
    let mut last = 0usize;
    for size in sizes {
        let b = calculate_buffer_size(size);
        assert!(b >= last);
        assert!(b >= MIN_CHUNK_SIZE && b <= MAX_CHUNK_SIZE);
        last = b;
    }
}

#[test]
fn write_job_reports_on_the_interval_and_at_the_end() {
    let mut job = WriteJob::start(3000, 1_000);
    assert_eq!(job.buffer_size(), MIN_CHUNK_SIZE);
    // 50 ms later: no report yet.
    assert_eq!(job.record(1000, 1_000 + 50_000_000), None);
    assert_eq!(job.written, 1000);
    assert_eq!(job.last_report_at, 1_000);
    // 100 ms after the start: a report, at 2000 bytes in 0.1 s.
    assert_eq!(
        job.record(1000, 1_000 + 100_000_000),
        Some(Progress { bytes_processed: 2000, total_bytes: 3000, bytes_per_second: 20000 })
    );
    assert_eq!(job.last_report_at, 1_000 + 100_000_000);
    // The last chunk reports at once.
    assert_eq!(
        job.record(1000, 1_000 + 100_000_001),
        Some(Progress { bytes_processed: 3000, total_bytes: 3000, bytes_per_second: 29999 })
    );
    assert_eq!(
        job.finish(1_000 + 200_000_000),
        Some(Progress { bytes_processed: 3000, total_bytes: 3000, bytes_per_second: 15000 })
    );
}

#[test]
fn write_job_without_elapsed_time_reports_zero_throughput() {
    let mut job = WriteJob::start(10, 500);
    assert_eq!(
        job.record(10, 500),
        Some(Progress { bytes_processed: 10, total_bytes: 10, bytes_per_second: 0 })
    );
    // A clock that went backwards counts as no time.
    assert_eq!(
        job.finish(400),
        Some(Progress { bytes_processed: 10, total_bytes: 10, bytes_per_second: 0 })
    );
    assert_eq!(WriteJob::start(0, 0).finish(10), None);
}

//! Write phase of an imaging job: buffer sizing, byte accounting and the
//! cadence of progress reports.

use crate::cadence::{bytes_per_second, elapsed, is_report_due, report_due, throughput};
use crate::models::Progress;
use vstd::prelude::*;

verus! {

/// Standard chunk size: 1 MiB.
pub const CHUNK_SIZE: usize = 1048576;

/// Smallest buffer ever used: 64 KiB.
pub const MIN_CHUNK_SIZE: usize = 65536;

/// Largest buffer ever used: 4 MiB.
pub const MAX_CHUNK_SIZE: usize = 4194304;

/// The buffer size chosen for a source of `file_size` bytes.
///
/// Sources up to the minimum get the minimum, sources up to the standard
/// chunk get the standard chunk, and larger sources get one hundredth of
/// their size, held between the standard chunk and the maximum.
pub open spec fn buffer_size_for(file_size: int) -> int {
    if file_size <= MIN_CHUNK_SIZE as int {
        MIN_CHUNK_SIZE as int
    } else if file_size / 100 <= CHUNK_SIZE as int {
        CHUNK_SIZE as int
    } else if file_size / 100 >= MAX_CHUNK_SIZE as int {
        MAX_CHUNK_SIZE as int
    } else {
        file_size / 100
    }
}

/// Picks the copy buffer size for a source of `file_size` bytes.
pub fn calculate_buffer_size(file_size: u64) -> (size: usize)
    ensures
        size as int == buffer_size_for(file_size as int),
        MIN_CHUNK_SIZE <= size <= MAX_CHUNK_SIZE,
{
    if file_size <= MIN_CHUNK_SIZE as u64 {
        return MIN_CHUNK_SIZE;
    }
    if file_size <= CHUNK_SIZE as u64 {
        return CHUNK_SIZE;
    }
    let hundredth: u64 = file_size / 100;
    if hundredth <= CHUNK_SIZE as u64 {
        CHUNK_SIZE
    } else if hundredth >= MAX_CHUNK_SIZE as u64 {
        MAX_CHUNK_SIZE
    } else {
        hundredth as usize
    }
}

/// The buffer size never shrinks as the source grows, and always lies
/// between the minimum and the maximum.
pub proof fn lemma_buffer_size_monotonic(a: int, b: int)
    requires
        a <= b,
    ensures
        buffer_size_for(a) <= buffer_size_for(b),
        MIN_CHUNK_SIZE as int <= buffer_size_for(a) <= MAX_CHUNK_SIZE as int,
{
}

/// The write phase of one job: how much is written, and when the phase
/// started and last reported.
#[derive(Debug, Clone, Copy, PartialEq, Eq, Structural)]
pub struct WriteJob {
    /// Size of the source in bytes.
    pub total_size: u64,
    /// Bytes written to the target so far.
    pub written: u64,
    /// When the phase started.
    pub started_at: u64,
    /// When progress was last reported; the start, before the first report.
    pub last_report_at: u64,
}

/// The progress of a write phase at the instant `now`.
pub open spec fn write_progress(job: WriteJob, now: u64) -> Progress {
    Progress {
        bytes_processed: job.written,
        total_bytes: job.total_size,
        bytes_per_second: throughput(job.written, elapsed(job.started_at, now)) as u64,
    }
}

/// The job after `bytes` more bytes reached the target at the instant
/// `now`, and the progress to report, if a report is due.
pub open spec fn after_chunk(job: WriteJob, bytes: usize, now: u64) -> (WriteJob, Option<Progress>) {
    let written = (job.written + bytes) as u64;
    let moved = WriteJob { written, ..job };
    if report_due(job.last_report_at, now, written, job.total_size) {
        (WriteJob { last_report_at: now, ..moved }, Some(write_progress(moved, now)))
    } else {
        (moved, None)
    }
}

impl WriteJob {
    /// A write phase that starts at the instant `now` on a source of
    /// `total_size` bytes.
    pub fn start(total_size: u64, now: u64) -> (job: Self)
        ensures
            job == (WriteJob { total_size, written: 0, started_at: now, last_report_at: now }),
    {
        WriteJob { total_size, written: 0, started_at: now, last_report_at: now }
    }

    /// The size of the buffer to copy with.
    pub fn buffer_size(&self) -> (size: usize)
        ensures
            size as int == buffer_size_for(self.total_size as int),
    {
        calculate_buffer_size(self.total_size)
    }

    /// Records that `bytes` more bytes were written at the instant `now`,
    /// and returns the progress to report, if a report is due.
    pub fn record(&mut self, bytes: usize, now: u64) -> (report: Option<Progress>)
        requires
            old(self).written + bytes <= u64::MAX,
        ensures
            (*final(self), report) == after_chunk(*old(self), bytes, now),
    {
        self.written = self.written + bytes as u64;
        if is_report_due(self.last_report_at, now, self.written, self.total_size) {
            self.last_report_at = now;
            Some(self.progress(now))
        } else {
            None
        }
    }

    /// The progress of the phase at the instant `now`.
    pub fn progress(&self, now: u64) -> (p: Progress)
        ensures
            p == write_progress(*self, now),
    {
        Progress {
            bytes_processed: self.written,
            total_bytes: self.total_size,
            bytes_per_second: bytes_per_second(self.written, self.started_at, now),
        }
    }

    /// The last report of a phase that has synced its target: the progress
    /// at `now`, unless nothing was written.
    pub fn finish(&self, now: u64) -> (report: Option<Progress>)
        ensures
            report == if self.written > 0 {
                Some(write_progress(*self, now))
            } else {
                None
            },
    {
        if self.written > 0 {
            Some(self.progress(now))
        } else {
            None
        }
    }
}

} // verus!

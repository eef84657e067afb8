//! The verify phase: the target is read back and compared with the source,
//! chunk by chunk.

use crate::cadence::{bytes_per_second, elapsed, is_report_due, report_due, throughput};
use crate::decimal::{decimal, hex2, push_decimal, push_hex2};
use crate::models::Progress;
use crate::text::{push_text, string_of};
use vstd::prelude::*;

verus! {

/// Size of the chunks in which source and target are read back: 1 MiB.
pub const VERIFY_CHUNK_SIZE: usize = 1048576;

/// Why a target does not equal its source.
#[derive(Debug, Clone, Copy, PartialEq, Eq, Structural)]
pub enum VerifyError {
    /// The target gave `got` bytes where the source gave `expected`, in the
    /// chunk that starts at `offset`.
    SizeMismatch { offset: u64, expected: usize, got: usize },
    /// The byte at `offset` is `source_byte` in the source and `target_byte`
    /// in the target; every byte before it is equal.
    DataMismatch { offset: u64, source_byte: u8, target_byte: u8 },
}

/// The text that reports a mismatch.
pub open spec fn mismatch_text(e: VerifyError) -> Seq<char> {
    match e {
        VerifyError::SizeMismatch { offset, expected, got } => {
            "Verification failed: size mismatch at offset "@ + decimal(offset as nat)
                + ". Expected "@ + decimal(expected as nat) + " bytes, got "@ + decimal(
                got as nat,
            ) + " bytes"@
        },
        VerifyError::DataMismatch { offset, source_byte, target_byte } => {
            "Verification failed: data mismatch at byte offset "@ + decimal(offset as nat)
                + ". Source: 0x"@ + hex2(source_byte) + ", Target: 0x"@ + hex2(target_byte)
        },
    }
}

impl VerifyError {
    /// The text that reports the mismatch: its offset and, for bytes that
    /// differ, the two bytes in hexadecimal.
    pub fn message(&self) -> (text: String)
        ensures
            text@ == mismatch_text(*self),
    {
        let mut out: Vec<char> = Vec::new();
        match self {
            VerifyError::SizeMismatch { offset, expected, got } => {
                push_text(&mut out, "Verification failed: size mismatch at offset ");
                push_decimal(&mut out, *offset);
                push_text(&mut out, ". Expected ");
                push_decimal(&mut out, *expected as u64);
                push_text(&mut out, " bytes, got ");
                push_decimal(&mut out, *got as u64);
                push_text(&mut out, " bytes");
            },
            VerifyError::DataMismatch { offset, source_byte, target_byte } => {
                push_text(&mut out, "Verification failed: data mismatch at byte offset ");
                push_decimal(&mut out, *offset);
                push_text(&mut out, ". Source: 0x");
                push_hex2(&mut out, *source_byte);
                push_text(&mut out, ", Target: 0x");
                push_hex2(&mut out, *target_byte);
            },
        }
        string_of(out.as_slice())
    }
}

/// Whether `k` is the first position at which `a` and `b` differ.
pub open spec fn is_first_difference(a: Seq<u8>, b: Seq<u8>, k: int) -> bool {
    &&& 0 <= k < a.len()
    &&& k < b.len()
    &&& a[k] != b[k]
    &&& forall|j: int| 0 <= j < k ==> a[j] == b[j]
}

/// How many bytes `a` and `b` have in common at the front.
pub open spec fn common_prefix(a: Seq<u8>, b: Seq<u8>) -> nat
    decreases a.len(),
{
    if a.len() > 0 && b.len() > 0 && a[0] == b[0] {
        1 + common_prefix(a.drop_first(), b.drop_first())
    } else {
        0
    }
}

/// What comparing a source chunk with a target chunk gives when the chunk
/// starts at `offset` of the image: nothing to report, a difference in
/// size, or the first byte that differs.
pub open spec fn verdict(source: Seq<u8>, target: Seq<u8>, offset: u64) -> Result<
    (),
    VerifyError,
> {
    if source.len() != target.len() {
        Err(
            VerifyError::SizeMismatch {
                offset,
                expected: source.len() as usize,
                got: target.len() as usize,
            },
        )
    } else if source == target {
        Ok(())
    } else {
        let k = common_prefix(source, target) as int;
        Err(
            VerifyError::DataMismatch {
                offset: (offset + k) as u64,
                source_byte: source[k],
                target_byte: target[k],
            },
        )
    }
}

/// The common prefix ends at the first difference, if there is one.
pub proof fn lemma_common_prefix_is(a: Seq<u8>, b: Seq<u8>, k: int)
    requires
        is_first_difference(a, b, k),
    ensures
        common_prefix(a, b) == k,
    decreases a.len(),
{
    if k > 0 {
        assert(a[0] == b[0]);
        let a1 = a.drop_first();
        let b1 = b.drop_first();
        assert forall|j: int| 0 <= j < k - 1 implies a1[j] == b1[j] by {
            assert(a1[j] == a[j + 1]);
            assert(b1[j] == b[j + 1]);
        }
        lemma_common_prefix_is(a1, b1, k - 1);
    }
}

/// Two texts of one length that differ have a first difference, and the
/// common prefix ends there.
pub proof fn lemma_common_prefix_differs(a: Seq<u8>, b: Seq<u8>)
    requires
        a.len() == b.len(),
        a != b,
    ensures
        is_first_difference(a, b, common_prefix(a, b) as int),
    decreases a.len(),
{
    if a.len() == 0 {
        assert(a =~= b);
    } else if a[0] == b[0] {
        let a1 = a.drop_first();
        let b1 = b.drop_first();
        if a1 == b1 {
            assert(a =~= seq![a[0]] + a1);
            assert(b =~= seq![b[0]] + b1);
        }
        lemma_common_prefix_differs(a1, b1);
        let k = common_prefix(a1, b1) as int;
        assert forall|j: int| 0 <= j < k + 1 implies a[j] == b[j] by {
            if j > 0 {
                assert(a[j] == a1[j - 1]);
                assert(b[j] == b1[j - 1]);
            }
        }
        assert(a[k + 1] == a1[k]);
        assert(b[k + 1] == b1[k]);
    }
}

/// Compares one chunk of the target with the same chunk of the source.
/// `offset` is where the chunk starts in the image.
pub fn compare_chunks(source: &[u8], target: &[u8], offset: u64) -> (r: Result<(), VerifyError>)
    requires
        offset + source.len() <= u64::MAX,
    ensures
        r == verdict(source@, target@, offset),
{
    if source.len() != target.len() {
        return Err(
            VerifyError::SizeMismatch { offset, expected: source.len(), got: target.len() },
        );
    }
    let mut i: usize = 0;
    while i < source.len()
        invariant
            source.len() == target.len(),
            i <= source.len(),
            offset + source.len() <= u64::MAX,
            forall|j: int| 0 <= j < i ==> source@[j] == target@[j],
        decreases source.len() - i,
    {
        if source[i] != target[i] {
            proof {
                lemma_common_prefix_is(source@, target@, i as int);
            }
            return Err(
                VerifyError::DataMismatch {
                    offset: offset + i as u64,
                    source_byte: source[i],
                    target_byte: target[i],
                },
            );
        }
        i += 1;
    }
    assert(source@ =~= target@);
    Ok(())
}

/// The verify phase of one job: how much is verified, and when the phase
/// started and last reported.
#[derive(Debug, Clone, Copy, PartialEq, Eq, Structural)]
pub struct VerifyPass {
    /// Size of the source in bytes.
    pub total_size: u64,
    /// Bytes read back and found equal so far.
    pub verified: u64,
    /// When the phase started.
    pub started_at: u64,
    /// When progress was last reported; the start, before the first report.
    pub last_report_at: u64,
}

/// The progress of a verify phase at the instant `now`.
pub open spec fn verify_progress(pass: VerifyPass, now: u64) -> Progress {
    Progress {
        bytes_processed: pass.verified,
        total_bytes: pass.total_size,
        bytes_per_second: throughput(pass.verified, elapsed(pass.started_at, now)) as u64,
    }
}

/// The pass after the next chunk of the source and what the target gave
/// for it were compared at the instant `now`: on a mismatch the pass
/// stays as it was and the mismatch is the result; else the chunk counts
/// as verified and the result is the progress to report, if a report is due.
pub open spec fn after_check(pass: VerifyPass, source: Seq<u8>, target: Seq<u8>, now: u64) -> (
    VerifyPass,
    Result<Option<Progress>, VerifyError>,
) {
    match verdict(source, target, pass.verified) {
        Err(e) => (pass, Err(e)),
        Ok(()) => {
            let verified = (pass.verified + source.len()) as u64;
            let moved = VerifyPass { verified, ..pass };
            if report_due(pass.last_report_at, now, verified, pass.total_size) {
                (
                    VerifyPass { last_report_at: now, ..moved },
                    Ok(Some(verify_progress(moved, now))),
                )
            } else {
                (moved, Ok(None))
            }
        },
    }
}

impl VerifyPass {
    /// A verify phase that starts at the instant `now` on a source of
    /// `total_size` bytes.
    pub fn start(total_size: u64, now: u64) -> (pass: Self)
        ensures
            pass == (VerifyPass { total_size, verified: 0, started_at: now, last_report_at: now }),
    {
        VerifyPass { total_size, verified: 0, started_at: now, last_report_at: now }
    }

    /// Compares the next chunk of the source with what the target gave for
    /// it, at the instant `now`.
    pub fn check(&mut self, source: &[u8], target: &[u8], now: u64) -> (r: Result<
        Option<Progress>,
        VerifyError,
    >)
        requires
            old(self).verified + source.len() <= u64::MAX,
        ensures
            (*final(self), r) == after_check(*old(self), source@, target@, now),
    {
        match compare_chunks(source, target, self.verified) {
            Err(e) => Err(e),
            Ok(()) => {
                self.verified = self.verified + source.len() as u64;
                if is_report_due(self.last_report_at, now, self.verified, self.total_size) {
                    self.last_report_at = now;
                    Ok(Some(self.progress(now)))
                } else {
                    Ok(None)
                }
            },
        }
    }

    /// The progress of the phase at the instant `now`.
    pub fn progress(&self, now: u64) -> (p: Progress)
        ensures
            p == verify_progress(*self, now),
    {
        Progress {
            bytes_processed: self.verified,
            total_bytes: self.total_size,
            bytes_per_second: bytes_per_second(self.verified, self.started_at, now),
        }
    }

    /// The last report of a phase that reached the end of the source: the
    /// progress at `now`, unless nothing was verified.
    pub fn finish(&self, now: u64) -> (report: Option<Progress>)
        ensures
            report == if self.verified > 0 {
                Some(verify_progress(*self, now))
            } else {
                None
            },
    {
        if self.verified > 0 {
            Some(self.progress(now))
        } else {
            None
        }
    }
}

/// One step of reading back: what the source and the target gave for the
/// same chunk, and the instant at which they were compared.
pub struct ChunkRead {
    pub source: Seq<u8>,
    pub target: Seq<u8>,
    pub at: u64,
}

/// All that was read from the source, in order.
pub open spec fn source_read(reads: Seq<ChunkRead>) -> Seq<u8>
    decreases reads.len(),
{
    if reads.len() == 0 {
        Seq::empty()
    } else {
        source_read(reads.drop_last()) + reads.last().source
    }
}

/// All that was read from the target, in order.
pub open spec fn target_read(reads: Seq<ChunkRead>) -> Seq<u8>
    decreases reads.len(),
{
    if reads.len() == 0 {
        Seq::empty()
    } else {
        target_read(reads.drop_last()) + reads.last().target
    }
}

/// The pass after checking `reads` in order, and the first mismatch, if
/// one came up; nothing is checked after a mismatch.
pub open spec fn after_checks(pass: VerifyPass, reads: Seq<ChunkRead>) -> (
    VerifyPass,
    Option<VerifyError>,
)
    decreases reads.len(),
{
    if reads.len() == 0 {
        (pass, None)
    } else {
        let (before, failed) = after_checks(pass, reads.drop_last());
        if failed is Some {
            (before, failed)
        } else {
            let (next, r) = after_check(
                before,
                reads.last().source,
                reads.last().target,
                reads.last().at,
            );
            (
                next,
                match r {
                    Ok(_) => None,
                    Err(e) => Some(e),
                },
            )
        }
    }
}

/// Whether the target gave as many bytes as the source at every step.
pub open spec fn read_in_full(reads: Seq<ChunkRead>) -> bool {
    forall|i: int| 0 <= i < reads.len() ==> (#[trigger] reads[i]).source.len() == reads[i].target.len()
}

/// What a pass from the start of an image finds. Without a mismatch, all
/// that was read from the target equals all that was read from the source,
/// and all of it counts as verified. A data mismatch names the first
/// offset at which the two differ, with the two bytes there. A size
/// mismatch comes only where the target gave fewer or more bytes than the
/// source.
pub proof fn lemma_pass_verdict(total_size: u64, started_at: u64, reads: Seq<ChunkRead>)
    requires
        source_read(reads).len() <= u64::MAX,
    ensures
        ({
            let start = VerifyPass {
                total_size,
                verified: 0,
                started_at,
                last_report_at: started_at,
            };
            let src = source_read(reads);
            let dst = target_read(reads);
            let (pass, failed) = after_checks(start, reads);
            match failed {
                None => src == dst && pass.verified == src.len(),
                Some(VerifyError::DataMismatch { offset, source_byte, target_byte }) => {
                    &&& is_first_difference(src, dst, offset as int)
                    &&& source_byte == src[offset as int]
                    &&& target_byte == dst[offset as int]
                },
                Some(VerifyError::SizeMismatch { .. }) => !read_in_full(reads),
            }
        }),
    decreases reads.len(),
{
    let start = VerifyPass { total_size, verified: 0, started_at, last_report_at: started_at };
    if reads.len() > 0 {
        let init = reads.drop_last();
        let last = reads.last();
        let src0 = source_read(init);
        let dst0 = target_read(init);
        let src = source_read(reads);
        let dst = target_read(reads);
        assert(src == src0 + last.source);
        assert(dst == dst0 + last.target);
        lemma_pass_verdict(total_size, started_at, init);
        let (before, failed) = after_checks(start, init);
        match failed {
            Some(VerifyError::DataMismatch { offset, source_byte, target_byte }) => {
                assert forall|j: int| 0 <= j <= offset implies src[j] == src0[j] && dst[j]
                    == dst0[j] by {}
            },
            Some(VerifyError::SizeMismatch { .. }) => {
                let i = choose|i: int|
                    0 <= i < init.len() && (#[trigger] init[i]).source.len()
                        != init[i].target.len();
                assert(reads[i] == init[i]);
            },
            None => {
                let s = last.source;
                let t = last.target;
                if s.len() != t.len() {
                    assert(reads[reads.len() - 1] == last);
                } else if s == t {
                } else {
                    lemma_common_prefix_differs(s, t);
                    let k = common_prefix(s, t) as int;
                    let n = src0.len() as int;
                    assert(src[n + k] == s[k]);
                    assert(dst[n + k] == t[k]);
                    assert forall|j: int| 0 <= j < n + k implies src[j] == dst[j] by {
                        if j < n {
                            assert(src[j] == src0[j]);
                            assert(dst[j] == dst0[j]);
                        } else {
                            assert(src[j] == s[j - n]);
                            assert(dst[j] == t[j - n]);
                        }
                    }
                }
            },
        }
    }
}

/// Where the target is read in full, a pass from the start of an image
/// finds no mismatch if and only if what was read from the target equals
/// what was read from the source.
pub proof fn lemma_verified_iff_equal(total_size: u64, started_at: u64, reads: Seq<ChunkRead>)
    requires
        source_read(reads).len() <= u64::MAX,
        read_in_full(reads),
    ensures
        after_checks(
            VerifyPass { total_size, verified: 0, started_at, last_report_at: started_at },
            reads,
        ).1 is None <==> source_read(reads) == target_read(reads),
{
    lemma_pass_verdict(total_size, started_at, reads);
}

/// Where the target is read in full and differs from the source in the
/// one byte at offset `k`, the pass fails at `k` and names the two bytes.
pub proof fn lemma_single_difference(
    total_size: u64,
    started_at: u64,
    reads: Seq<ChunkRead>,
    k: int,
)
    requires
        source_read(reads).len() <= u64::MAX,
        read_in_full(reads),
        0 <= k < source_read(reads).len(),
        source_read(reads).len() == target_read(reads).len(),
        forall|j: int|
            0 <= j < source_read(reads).len() ==> (source_read(reads)[j] == target_read(reads)[j]
                <==> j != k),
    ensures
        after_checks(
            VerifyPass { total_size, verified: 0, started_at, last_report_at: started_at },
            reads,
        ).1 == Some(
            VerifyError::DataMismatch {
                offset: k as u64,
                source_byte: source_read(reads)[k],
                target_byte: target_read(reads)[k],
            },
        ),
{
    lemma_pass_verdict(total_size, started_at, reads);
    let src = source_read(reads);
    let dst = target_read(reads);
    assert(src[k] != dst[k]);
}

} // verus!

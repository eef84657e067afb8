//! SHA-256 checksums of downloaded images.
//!
//! The digest itself is computed by the crate `sha2`; what is done with it
//! is decided here.

use crate::decimal::{hex2, push_hex2};
use crate::text::{chars_of, push_text, starts_with, string_of, begins};
use sha2::Digest;
use vstd::prelude::*;

verus! {

/// A SHA-256 computation that is under way: a `sha2::Sha256` of the crate
/// `sha2`, kept out of sight. What it was fed is all that is said of it.
#[verifier::external_body]
pub struct Sha256State {
    inner: sha2::Sha256,
}

/// The bytes that a computation was fed so far, in order.
pub uninterp spec fn fed(state: Sha256State) -> Seq<u8>;

/// The SHA-256 digest of a run of bytes.
pub uninterp spec fn sha256_of(data: Seq<u8>) -> Seq<u8>;

/// `Digest::new` of `sha2::Sha256`: a computation that was fed nothing.
#[verifier::external_body]
fn sha256_new() -> (state: Sha256State)
    ensures
        fed(state) == Seq::<u8>::empty(),
{
    Sha256State { inner: sha2::Sha256::new() }
}

/// `Digest::update` of `sha2::Sha256`: the computation takes in `chunk`
/// after all that it was fed before.
#[verifier::external_body]
fn sha256_update(state: &mut Sha256State, chunk: &[u8])
    ensures
        fed(*final(state)) == fed(*old(state)) + chunk@,
{
    state.inner.update(chunk);
}

/// `Digest::finalize` of `sha2::Sha256`: the digest of all that the
/// computation was fed, which has 32 bytes.
#[verifier::external_body]
fn sha256_finalize(state: Sha256State) -> (digest: Vec<u8>)
    ensures
        digest@ == sha256_of(fed(state)),
        digest@.len() == 32,
{
    state.inner.finalize().to_vec()
}

/// The bytes of `data` in hexadecimal, two lower-case digits each.
pub open spec fn hex_text(data: Seq<u8>) -> Seq<char>
    decreases data.len(),
{
    if data.len() == 0 {
        Seq::empty()
    } else {
        hex_text(data.drop_last()) + hex2(data.last())
    }
}

/// Writes bytes in hexadecimal, two lower-case digits each.
pub fn to_hex(data: &[u8]) -> (text: Vec<char>)
    ensures
        text@ == hex_text(data@),
{
    let mut out: Vec<char> = Vec::new();
    let mut i: usize = 0;
    while i < data.len()
        invariant
            i <= data.len(),
            out@ == hex_text(data@.take(i as int)),
        decreases data.len() - i,
    {
        assert(data@.take(i + 1).drop_last() == data@.take(i as int));
        push_hex2(&mut out, data[i]);
        i += 1;
    }
    assert(data@.take(data.len() as int) == data@);
    out
}

/// The lower-case form of an ASCII capital; any other character itself.
pub open spec fn ascii_lower(c: char) -> char {
    if 'A' <= c <= 'Z' {
        ((c as u32) + 32) as char
    } else {
        c
    }
}

/// Whether two texts are equal but for the case of their ASCII letters.
pub open spec fn same_ignoring_ascii_case(a: Seq<char>, b: Seq<char>) -> bool {
    a.len() == b.len() && forall|i: int|
        0 <= i < a.len() ==> ascii_lower(#[trigger] a[i]) == ascii_lower(b[i])
}

/// The lower-case form of an ASCII capital; any other character itself.
fn to_ascii_lower(c: char) -> (r: char)
    ensures
        r == ascii_lower(c),
{
    if 'A' <= c && c <= 'Z' {
        ((c as u8) + 32) as char
    } else {
        c
    }
}

/// Compares two texts without regard to the case of ASCII letters.
pub fn eq_ignore_ascii_case(a: &[char], b: &[char]) -> (r: bool)
    ensures
        r == same_ignoring_ascii_case(a@, b@),
{
    if a.len() != b.len() {
        return false;
    }
    let mut i: usize = 0;
    while i < a.len()
        invariant
            a.len() == b.len(),
            i <= a.len(),
            forall|k: int| 0 <= k < i ==> ascii_lower(#[trigger] a@[k]) == ascii_lower(b@[k]),
        decreases a.len() - i,
    {
        if to_ascii_lower(a[i]) != to_ascii_lower(b[i]) {
            return false;
        }
        i += 1;
    }
    true
}

/// A checksum that is not the expected one.
#[derive(Debug, Clone, PartialEq, Eq)]
pub struct ChecksumMismatch {
    /// The checksum that was expected, as it was given.
    pub expected: String,
    /// The checksum of the data, in lower-case hexadecimal.
    pub actual: String,
}

/// The text that reports a checksum that is not the expected one.
pub open spec fn mismatch_message(expected: Seq<char>, actual: Seq<char>) -> Seq<char> {
    "SHA256 mismatch! Expected: "@ + expected + ", Got: "@ + actual
}

impl ChecksumMismatch {
    /// The text that reports the mismatch.
    pub fn message(&self) -> (text: String)
        ensures
            text@ == mismatch_message(self.expected@, self.actual@),
    {
        let mut out: Vec<char> = Vec::new();
        push_text(&mut out, "SHA256 mismatch! Expected: ");
        push_text(&mut out, self.expected.as_str());
        push_text(&mut out, ", Got: ");
        push_text(&mut out, self.actual.as_str());
        string_of(out.as_slice())
    }
}

/// Compares a digest with the checksum that is expected of it, given in
/// hexadecimal in either case. The answer is `Ok(true)` or the mismatch.
pub fn check_digest(digest: &[u8], expected_hash: &str) -> (r: Result<bool, ChecksumMismatch>)
    ensures
        match r {
            Ok(matches) => matches && same_ignoring_ascii_case(hex_text(digest@), expected_hash@),
            Err(e) => {
                &&& !same_ignoring_ascii_case(hex_text(digest@), expected_hash@)
                &&& e.expected@ == expected_hash@
                &&& e.actual@ == hex_text(digest@)
            },
        },
{
    let actual = to_hex(digest);
    let expected = chars_of(expected_hash);
    if eq_ignore_ascii_case(actual.as_slice(), expected.as_slice()) {
        Ok(true)
    } else {
        Err(
            ChecksumMismatch {
                expected: string_of(expected.as_slice()),
                actual: string_of(actual.as_slice()),
            },
        )
    }
}

/// A checksum under way: data goes in chunk by chunk, and the checksum of
/// all of it comes out at the end.
pub struct Checksum {
    state: Sha256State,
}

impl Checksum {
    /// All the data that went in so far.
    pub closed spec fn data(&self) -> Seq<u8> {
        fed(self.state)
    }

    /// A checksum of no data yet.
    pub fn new() -> (c: Self)
        ensures
            c.data() == Seq::<u8>::empty(),
    {
        Checksum { state: sha256_new() }
    }

    /// Takes the next chunk of data in.
    pub fn update(&mut self, chunk: &[u8])
        ensures
            final(self).data() == old(self).data() + chunk@,
    {
        sha256_update(&mut self.state, chunk);
    }

    /// The SHA-256 digest of all the data: 32 bytes.
    pub fn digest(self) -> (d: Vec<u8>)
        ensures
            d@ == sha256_of(self.data()),
            d@.len() == 32,
    {
        sha256_finalize(self.state)
    }
}

/// The SHA-256 checksum of the data that went into `checksum`, in
/// lower-case hexadecimal.
pub fn calculate_sha256(checksum: Checksum) -> (text: String)
    ensures
        text@ == hex_text(sha256_of(checksum.data())),
{
    let digest = checksum.digest();
    let hex = to_hex(digest.as_slice());
    string_of(hex.as_slice())
}

/// Compares the SHA-256 checksum of the data that went into `checksum`
/// with the one expected.
pub fn verify_sha256(checksum: Checksum, expected_hash: &str) -> (r: Result<bool, ChecksumMismatch>)
    ensures
        match r {
            Ok(matches) => matches && same_ignoring_ascii_case(
                hex_text(sha256_of(checksum.data())),
                expected_hash@,
            ),
            Err(e) => {
                &&& !same_ignoring_ascii_case(hex_text(sha256_of(checksum.data())), expected_hash@)
                &&& e.expected@ == expected_hash@
                &&& e.actual@ == hex_text(sha256_of(checksum.data()))
            },
        },
{
    let digest = checksum.digest();
    check_digest(digest.as_slice(), expected_hash)
}

/// Whether an expected checksum is none at all: it is empty, or a
/// placeholder.
pub open spec fn is_placeholder(expected_hash: Seq<char>) -> bool {
    expected_hash.len() == 0 || starts_with(expected_hash, "PLACEHOLDER"@)
}

/// Tests whether an expected checksum is empty or a placeholder, so that
/// there is nothing to verify against.
pub fn hash_is_placeholder(expected_hash: &str) -> (r: bool)
    ensures
        r == is_placeholder(expected_hash@),
{
    let chars = chars_of(expected_hash);
    chars.len() == 0 || begins(chars.as_slice(), "PLACEHOLDER")
}

/// What a quick look at a downloaded file says. Without a checksum to
/// expect, the file is good if it exists; else it is good if its digest
/// could be computed and is the one expected.
pub open spec fn quick_verdict(expected_hash: Seq<char>, exists: bool, digest: Option<Seq<u8>>) -> bool {
    if is_placeholder(expected_hash) {
        exists
    } else {
        match digest {
            Some(d) => same_ignoring_ascii_case(hex_text(d), expected_hash),
            None => false,
        }
    }
}

/// Tells quickly whether a downloaded file is good. `exists` is whether
/// the file is there, `digest` is its SHA-256 digest, `None` where the
/// file could not be read.
pub fn quick_verify(expected_hash: &str, exists: bool, digest: Option<&[u8]>) -> (r: bool)
    ensures
        r == quick_verdict(
            expected_hash@,
            exists,
            match digest {
                Some(d) => Some(d@),
                None => None,
            },
        ),
{
    if hash_is_placeholder(expected_hash) {
        return exists;
    }
    match digest {
        Some(d) => check_digest(d, expected_hash).is_ok(),
        None => false,
    }
}

} // verus!

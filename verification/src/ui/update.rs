//! The update check: which version is newer, and what the answers of the
//! release server say.

use crate::decimal::{parse_decimal, parse_unsigned};
use crate::text::{chars_of, contains, find_from, find_text, holds, is_text, string_of};
use crate::words::{count_leading, leading, text_trim, trim, CharClass};
use vstd::prelude::*;
use vstd::slice::slice_subrange;

verus! {

/// The three numbers of a version: major, minor, patch.
pub struct VersionNumbers {
    pub major: u32,
    pub minor: u32,
    pub patch: u32,
}

/// The part of `s` before its first full stop, and what follows that full
/// stop; none where `s` has no full stop.
pub open spec fn split_part(s: Seq<char>) -> Option<(Seq<char>, Seq<char>)> {
    let n = leading(s, CharClass::InPart) as int;
    if n < s.len() {
        Some((s.take(n), s.skip(n + 1)))
    } else {
        None
    }
}

/// The numbers of a version text: any `v` at its front is passed over, and
/// the first three of its parts between full stops must each be a number.
/// A text with fewer parts has no numbers.
pub open spec fn version_numbers(v: Seq<char>) -> Option<VersionNumbers> {
    let t = v.skip(leading(v, CharClass::SmallV) as int);
    match split_part(t) {
        None => None,
        Some((first, rest)) => match split_part(rest) {
            None => None,
            Some((second, tail)) => {
                let third = tail.take(leading(tail, CharClass::InPart) as int);
                match (
                    parse_unsigned(first, u32::MAX as int),
                    parse_unsigned(second, u32::MAX as int),
                    parse_unsigned(third, u32::MAX as int),
                ) {
                    (Some(a), Some(b), Some(c)) => Some(
                        VersionNumbers { major: a as u32, minor: b as u32, patch: c as u32 },
                    ),
                    _ => None,
                }
            },
        },
    }
}

/// Whether `remote` comes after `current`.
pub open spec fn comes_after(current: VersionNumbers, remote: VersionNumbers) -> bool {
    remote.major > current.major || (remote.major == current.major && (remote.minor
        > current.minor || (remote.minor == current.minor && remote.patch > current.patch)))
}

/// Whether the version `remote` is newer than `current`: both have
/// numbers, and those of `remote` come after.
pub open spec fn is_newer(current: Seq<char>, remote: Seq<char>) -> bool {
    match (version_numbers(current), version_numbers(remote)) {
        (Some(c), Some(r)) => comes_after(c, r),
        _ => false,
    }
}

/// Reads the numbers of a version text.
fn parse_version(v: &[char]) -> (r: Option<VersionNumbers>)
    ensures
        r == version_numbers(v@),
{
    let skip = count_leading(v, 0, CharClass::SmallV);
    assert(v@.skip(0) == v@);
    let t = slice_subrange(v, skip, v.len());
    assert(t@.skip(0) == t@);
    let n0 = count_leading(t, 0, CharClass::InPart);
    if n0 == t.len() {
        return None;
    }
    let first = slice_subrange(t, 0, n0);
    let rest = slice_subrange(t, n0 + 1, t.len());
    assert(first@ == t@.take(n0 as int));
    assert(rest@ == t@.skip(n0 + 1));
    assert(rest@.skip(0) == rest@);
    let n1 = count_leading(rest, 0, CharClass::InPart);
    if n1 == rest.len() {
        return None;
    }
    let second = slice_subrange(rest, 0, n1);
    let tail = slice_subrange(rest, n1 + 1, rest.len());
    assert(second@ == rest@.take(n1 as int));
    assert(tail@ == rest@.skip(n1 + 1));
    assert(tail@.skip(0) == tail@);
    let n2 = count_leading(tail, 0, CharClass::InPart);
    let third = slice_subrange(tail, 0, n2);
    assert(third@ == tail@.take(n2 as int));
    let a = parse_decimal(first, 4294967295);
    let b = parse_decimal(second, 4294967295);
    let c = parse_decimal(third, 4294967295);
    match (a, b, c) {
        (Some(major), Some(minor), Some(patch)) => Some(
            VersionNumbers { major: major as u32, minor: minor as u32, patch: patch as u32 },
        ),
        _ => None,
    }
}

/// Compares two versions; true if `remote` is newer than `current`.
pub fn compare_versions(current: &str, remote: &str) -> (newer: bool)
    ensures
        newer == is_newer(current@, remote@),
{
    let c = chars_of(current);
    let r = chars_of(remote);
    match (parse_version(c.as_slice()), parse_version(r.as_slice())) {
        (Some(cv), Some(rv)) => {
            if rv.major > cv.major {
                return true;
            }
            if rv.major < cv.major {
                return false;
            }
            if rv.minor > cv.minor {
                return true;
            }
            if rv.minor < cv.minor {
                return false;
            }
            rv.patch > cv.patch
        },
        _ => false,
    }
}

/// What looking up a text field in an answer gives.
#[derive(Debug, Clone, PartialEq, Eq)]
pub enum Field {
    /// The key does not occur.
    NoKey,
    /// No value follows the key.
    NoValue,
    /// The value does not end.
    Unterminated,
    /// The value.
    Found(String),
}

/// The mathematical value of a `Field`.
pub enum FieldView {
    NoKey,
    NoValue,
    Unterminated,
    Found(Seq<char>),
}

impl View for Field {
    type V = FieldView;

    open spec fn view(&self) -> FieldView {
        match *self {
            Field::NoKey => FieldView::NoKey,
            Field::NoValue => FieldView::NoValue,
            Field::Unterminated => FieldView::Unterminated,
            Field::Found(text) => FieldView::Found(text@),
        }
    }
}

/// The value of the first field `key` at or after position `from` of `s`:
/// what stands between the first `: "` after the key and the next quote.
pub open spec fn field_from(s: Seq<char>, key: Seq<char>, from: int) -> FieldView {
    match find_from(s, key, from) {
        None => FieldView::NoKey,
        Some(k) => match find_from(s, ": \""@, k) {
            None => FieldView::NoValue,
            Some(v) => match find_from(s, "\""@, v + 3) {
                None => FieldView::Unterminated,
                Some(e) => FieldView::Found(s.subrange(v + 3, e)),
            },
        },
    }
}

/// Looks up the text field `key` at or after position `from` of `s`.
pub fn lookup_field(s: &[char], key: &str, from: usize) -> (r: Field)
    ensures
        r@ == field_from(s@, key@, from as int),
{
    let k = match find_text(s, key, from) {
        None => {
            return Field::NoKey;
        },
        Some(k) => k,
    };
    let v = match find_text(s, ": \"", k) {
        None => {
            return Field::NoValue;
        },
        Some(v) => v,
    };
    let len = s.len();
    proof {
        reveal_strlit(": \"");
        assert(v + 3 <= len);
    }
    let e = match find_text(s, "\"", v + 3) {
        None => {
            return Field::Unterminated;
        },
        Some(e) => e,
    };
    Field::Found(string_of(slice_subrange(s, v + 3, e)))
}

/// The address of the program to download that a release answer names:
/// the first download address of its assets, if that names this program
/// or the machine it runs on.
pub open spec fn download_url_in(answer: Seq<char>) -> Option<Seq<char>> {
    match find_from(answer, "\"assets\""@, 0) {
        None => None,
        Some(a) => match field_from(answer, "\"browser_download_url\""@, a) {
            FieldView::Found(url) => if contains(url, "x86_64"@) || contains(url, "etch"@) {
                Some(url)
            } else {
                None
            },
            _ => None,
        },
    }
}

/// Finds the address of the program to download in a release answer.
pub fn extract_download_url(api_response: &str) -> (r: Option<String>)
    ensures
        match r {
            Some(url) => download_url_in(api_response@) == Some(url@),
            None => download_url_in(api_response@) is None,
        },
{
    let chars = chars_of(api_response);
    let s = chars.as_slice();
    let a = match find_text(s, "\"assets\"", 0) {
        None => {
            return None;
        },
        Some(a) => a,
    };
    match lookup_field(s, "\"browser_download_url\"", a) {
        Field::Found(url) => {
            let u = chars_of(url.as_str());
            if holds(u.as_slice(), "x86_64") || holds(u.as_slice(), "etch") {
                Some(url)
            } else {
                None
            }
        },
        _ => None,
    }
}

/// What an update check comes to.
#[derive(Debug, Clone, PartialEq, Eq)]
pub enum UpdateCheck {
    /// Nothing was published yet.
    NoReleases,
    /// The version `tag` is newer than the one that runs.
    UpdateAvailable { tag: String },
    /// The version that runs is the latest.
    UpToDate,
    /// The answer made no sense; the text says why.
    Failed { reason: &'static str },
}

/// The mathematical value of an `UpdateCheck`.
pub enum UpdateView {
    NoReleases,
    UpdateAvailable { tag: Seq<char> },
    UpToDate,
    Failed { reason: Seq<char> },
}

impl View for UpdateCheck {
    type V = UpdateView;

    open spec fn view(&self) -> UpdateView {
        match *self {
            UpdateCheck::NoReleases => UpdateView::NoReleases,
            UpdateCheck::UpdateAvailable { tag } => UpdateView::UpdateAvailable { tag: tag@ },
            UpdateCheck::UpToDate => UpdateView::UpToDate,
            UpdateCheck::Failed { reason } => UpdateView::Failed { reason: reason@ },
        }
    }
}

/// What a version found in an answer comes to, against the version
/// `current` that runs.
pub open spec fn against(current: Seq<char>, tag: Seq<char>) -> UpdateView {
    if is_newer(seq!['v'] + current, tag) {
        UpdateView::UpdateAvailable { tag }
    } else {
        UpdateView::UpToDate
    }
}

/// What the list of tags says.
pub open spec fn tags_verdict(answer: Seq<char>, current: Seq<char>) -> UpdateView {
    if trim(answer) == "[]"@ || contains(answer, "\"message\""@) {
        UpdateView::NoReleases
    } else {
        match field_from(answer, "\"name\""@, 0) {
            FieldView::NoKey => UpdateView::Failed { reason: "No tags found in response"@ },
            FieldView::NoValue => UpdateView::Failed { reason: "Invalid tags API response"@ },
            FieldView::Unterminated => UpdateView::Failed { reason: "Failed to parse tag name"@ },
            FieldView::Found(tag) => against(current, tag),
        }
    }
}

/// What the latest release says.
pub open spec fn release_verdict(answer: Seq<char>, current: Seq<char>) -> UpdateView {
    if contains(answer, "\"message\""@) && contains(answer, "\"Not Found\""@) {
        UpdateView::Failed { reason: "No releases found"@ }
    } else {
        match field_from(answer, "\"tag_name\""@, 0) {
            FieldView::NoKey => UpdateView::Failed {
                reason: "GitHub API returned unexpected format"@,
            },
            FieldView::NoValue => UpdateView::Failed {
                reason: "Invalid GitHub API response format"@,
            },
            FieldView::Unterminated => UpdateView::Failed {
                reason: "Failed to parse release version"@,
            },
            FieldView::Found(tag) => against(current, tag),
        }
    }
}

/// Compares a version found in an answer with the one that runs.
fn check_against(current: &str, tag: String) -> (r: UpdateCheck)
    ensures
        r@ == against(current@, tag@),
{
    let mut with_v: Vec<char> = Vec::new();
    with_v.push('v');
    let mut rest = chars_of(current);
    with_v.append(&mut rest);
    let running = string_of(with_v.as_slice());
    if compare_versions(running.as_str(), tag.as_str()) {
        UpdateCheck::UpdateAvailable { tag }
    } else {
        UpdateCheck::UpToDate
    }
}

/// Reads the answer to a request for the list of tags. `current` is the
/// version that runs, without a `v` in front.
pub fn check_tags(answer: &str, current: &str) -> (r: UpdateCheck)
    ensures
        r@ == tags_verdict(answer@, current@),
{
    let chars = chars_of(answer);
    let s = chars.as_slice();
    if is_text(text_trim(s), "[]") || holds(s, "\"message\"") {
        return UpdateCheck::NoReleases;
    }
    match lookup_field(s, "\"name\"", 0) {
        Field::NoKey => UpdateCheck::Failed { reason: "No tags found in response" },
        Field::NoValue => UpdateCheck::Failed { reason: "Invalid tags API response" },
        Field::Unterminated => UpdateCheck::Failed { reason: "Failed to parse tag name" },
        Field::Found(tag) => check_against(current, tag),
    }
}

/// Reads the answer to a request for the latest release.
pub fn check_release(answer: &str, current: &str) -> (r: UpdateCheck)
    ensures
        r@ == release_verdict(answer@, current@),
{
    let chars = chars_of(answer);
    let s = chars.as_slice();
    if holds(s, "\"message\"") && holds(s, "\"Not Found\"") {
        return UpdateCheck::Failed { reason: "No releases found" };
    }
    match lookup_field(s, "\"tag_name\"", 0) {
        Field::NoKey => UpdateCheck::Failed { reason: "GitHub API returned unexpected format" },
        Field::NoValue => UpdateCheck::Failed { reason: "Invalid GitHub API response format" },
        Field::Unterminated => UpdateCheck::Failed { reason: "Failed to parse release version" },
        Field::Found(tag) => check_against(current, tag),
    }
}

} // verus!

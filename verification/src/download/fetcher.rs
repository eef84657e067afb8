//! The rules of a download: where the file goes, which addresses are tried
//! and in what order, and when the result counts as good.

use crate::db::models::Mirror;
use crate::download::catalog::Distro;
use crate::download::verification::{hash_is_placeholder, is_placeholder};
use crate::text::{chars_of, push_text, string_of};
use vstd::prelude::*;

verus! {

/// What a download reports while it runs.
#[derive(Debug, Clone, PartialEq, Eq)]
pub enum DownloadProgress {
    Started { name: String, size: u64 },
    Progress { bytes: u64, total: u64, bps: u64 },
    Verifying,
    Complete { path: String },
    Error { error: String },
}

/// The downloader of images.
pub struct ISOFetcher;

/// A download smaller than this many bytes has failed.
pub const MIN_DOWNLOAD_SIZE: u64 = 1000000;

/// `s` with every space replaced by a hyphen.
pub open spec fn hyphenated(s: Seq<char>) -> Seq<char> {
    Seq::new(
        s.len(),
        |i: int|
            if s[i] == ' ' {
                '-'
            } else {
                s[i]
            },
    )
}

/// The name of the file that a distribution is downloaded to.
pub open spec fn download_name(id: Seq<char>, version: Seq<char>) -> Seq<char> {
    hyphenated(id) + seq!['-'] + hyphenated(version) + ".iso"@
}

/// Appends `s` to `out` with every space replaced by a hyphen.
fn push_hyphenated(out: &mut Vec<char>, s: &str)
    ensures
        final(out)@ == old(out)@ + hyphenated(s@),
{
    let chars = chars_of(s);
    let mut i: usize = 0;
    while i < chars.len()
        invariant
            i <= chars.len(),
            chars@ == s@,
            out@ == old(out)@ + hyphenated(s@).take(i as int),
        decreases chars.len() - i,
    {
        let c = chars[i];
        out.push(
            if c == ' ' {
                '-'
            } else {
                c
            },
        );
        i += 1;
    }
    assert(hyphenated(s@).take(chars.len() as int) == hyphenated(s@));
}

/// The addresses that a download tries, in order.
pub open spec fn sources_of(download_url: Seq<char>, mirrors: Seq<Mirror>) -> Seq<Seq<char>> {
    if mirrors.len() == 0 {
        seq![download_url]
    } else {
        Seq::new(mirrors.len(), |i: int| mirrors[i].url@)
    }
}

/// Why a finished download does not count.
#[derive(Debug, Clone, Copy, PartialEq, Eq, Structural)]
pub enum DownloadError {
    /// The file is not there.
    FileMissing,
    /// The file is smaller than any image.
    TooSmall { size: u64 },
}

/// What is to be done with a download that arrived whole.
#[derive(Debug, Clone, Copy, PartialEq, Eq, Structural)]
pub enum AfterDownload {
    /// There is no checksum to expect: the download is complete.
    Complete,
    /// The checksum is to be verified.
    Verify,
}

/// What a finished download comes to. `size` is the size of the file,
/// `None` where the file is not there.
pub open spec fn download_verdict(size: Option<u64>, sha256: Seq<char>) -> Result<
    AfterDownload,
    DownloadError,
> {
    match size {
        None => Err(DownloadError::FileMissing),
        Some(n) => if n < MIN_DOWNLOAD_SIZE {
            Err(DownloadError::TooSmall { size: n })
        } else if is_placeholder(sha256) {
            Ok(AfterDownload::Complete)
        } else {
            Ok(AfterDownload::Verify)
        },
    }
}

/// The views of a run of texts.
pub open spec fn text_views(texts: Seq<String>) -> Seq<Seq<char>> {
    Seq::new(texts.len(), |i: int| texts[i]@)
}

impl ISOFetcher {
    /// The name of the file that `distro` is downloaded to.
    pub fn file_name(distro: &Distro) -> (name: String)
        ensures
            name@ == download_name(distro.id@, distro.version@),
    {
        let mut out: Vec<char> = Vec::new();
        push_hyphenated(&mut out, distro.id.as_str());
        out.push('-');
        push_hyphenated(&mut out, distro.version.as_str());
        push_text(&mut out, ".iso");
        string_of(out.as_slice())
    }

    /// The addresses to try for `distro`, in order: its mirrors by their
    /// order, or its own address where it has no mirror.
    pub fn sources(distro: &Distro, mirrors: &[Mirror]) -> (urls: Vec<String>)
        ensures
            text_views(urls@) == sources_of(distro.download_url@, mirrors@),
    {
        let mut urls: Vec<String> = Vec::new();
        if mirrors.len() == 0 {
            urls.push(string_of(chars_of(distro.download_url.as_str()).as_slice()));
            assert(text_views(urls@) =~= sources_of(distro.download_url@, mirrors@));
            return urls;
        }
        let mut i: usize = 0;
        while i < mirrors.len()
            invariant
                i <= mirrors.len(),
                urls@.len() == i,
                forall|k: int| 0 <= k < i ==> (#[trigger] urls@[k])@ == mirrors@[k].url@,
            decreases mirrors.len() - i,
        {
            urls.push(string_of(chars_of(mirrors[i].url.as_str()).as_slice()));
            i += 1;
        }
        assert(text_views(urls@) =~= sources_of(distro.download_url@, mirrors@));
        urls
    }

    /// The status that a mirror gets after an attempt.
    pub fn mirror_status(succeeded: bool) -> (status: &'static str)
        ensures
            status@ == if succeeded {
                "ok"@
            } else {
                "down"@
            },
    {
        if succeeded {
            "ok"
        } else {
            "down"
        }
    }

    /// Decides what a download that arrived whole comes to.
    pub fn after_download(size: Option<u64>, sha256: &str) -> (r: Result<
        AfterDownload,
        DownloadError,
    >)
        ensures
            r == download_verdict(size, sha256@),
    {
        match size {
            None => Err(DownloadError::FileMissing),
            Some(n) => {
                if n < MIN_DOWNLOAD_SIZE {
                    Err(DownloadError::TooSmall { size: n })
                } else if hash_is_placeholder(sha256) {
                    Ok(AfterDownload::Complete)
                } else {
                    Ok(AfterDownload::Verify)
                }
            },
        }
    }
}

} // verus!

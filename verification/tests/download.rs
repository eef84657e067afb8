use etch::db::Mirror;
use etch::download::catalog::{Distro, DistroCategory, DistrosCatalog};
use etch::download::fetcher::{AfterDownload, DownloadError, DownloadProgress, ISOFetcher};
use etch::download::verification::{
    calculate_sha256, check_digest, hash_is_placeholder, quick_verify, to_hex, verify_sha256,
    Checksum, ChecksumMismatch,
};

const ABC: &str = "ba7816bf8f01cfea414140de5dae2223b00361a396177a9cb410ff61f20015ad";
const EMPTY: &str = "e3b0c44298fc1c149afbf4c8996fb92427ae41e4649b934ca495991b7852b855";

fn distro(id: &str, version: &str, category: DistroCategory) -> Distro {
    Distro {
        id: id.to_string(),
        name: id.to_uppercase(),
        version: version.to_string(),
        category,
        download_url: format!("https://example.org/{id}.iso"),
        sha256: String::new(),
        size_bytes: 1,
        size_human: "1 B".to_string(),
        description: String::new(),
        verified: true,
    }
}

fn mirror(id: i64, url: &str) -> Mirror {
    Mirror {
        id,
        distro_id: "d".to_string(),
        url: url.to_string(),
        region: "Global".to_string(),
        priority: 1,
        status: "ok".to_string(),
    }
}

#[test]
fn checksums_are_those_of_sha256() {
    let mut c = Checksum::new();
    c.update(b"abc");
    assert_eq!(calculate_sha256(c), ABC);
    assert_eq!(calculate_sha256(Checksum::new()), EMPTY);
}

#[test]
fn a_checksum_does_not_depend_on_the_chunks() {
    let data: Vec<u8> = (0..20_000u32).map(|i| (i * 7) as u8).collect();
    let mut whole = Checksum::new();
    whole.update(&data);
    let mut parts = Checksum::new();
    for chunk in data.chunks(8192) {
        parts.update(chunk);
    }
    parts.update(&[]);
    let a = whole.digest();
    assert_eq!(a.len(), 32);
    assert_eq!(a, parts.digest());
    assert_ne!(a, data[..32].to_vec());
}

#[test]
fn a_checksum_is_compared_without_regard_to_case() {
    let mut c = Checksum::new();
    c.update(b"abc");
    assert_eq!(verify_sha256(c, &ABC.to_uppercase()), Ok(true));
    let mut c = Checksum::new();
    c.update(b"abd");
    let e = verify_sha256(c, ABC).unwrap_err();
    assert_eq!(e.expected, ABC);
    assert_eq!(e.actual.len(), 64);
    assert_ne!(e.actual, ABC);
    assert_eq!(e.message(), format!("SHA256 mismatch! Expected: {}, Got: {}", ABC, e.actual));
}

#[test]
fn digests_are_written_in_lower_case_hexadecimal() {
    let hex: String = to_hex(&[0x00, 0x0f, 0xa0, 0xff]).into_iter().collect();
    assert_eq!(hex, "000fa0ff");
    assert_eq!(check_digest(&[0xab, 0xcd], "ABcd"), Ok(true));
    assert_eq!(
        check_digest(&[0xab, 0xcd], "abcde"),
        Err(ChecksumMismatch { expected: "abcde".to_string(), actual: "abcd".to_string() })
    );
    assert_eq!(
        check_digest(&[0xab], ""),
        Err(ChecksumMismatch { expected: String::new(), actual: "ab".to_string() })
    );
    // Only ASCII letters fold.
    assert!(check_digest(&[0xab], "\u{e0}\u{c0}").is_err());
}

#[test]
fn a_quick_look_needs_no_digest_without_a_checksum_to_expect() {
    assert!(hash_is_placeholder(""));
    assert!(hash_is_placeholder("PLACEHOLDER_SHA256"));
    assert!(!hash_is_placeholder("placeholder"));
    assert!(!hash_is_placeholder(ABC));
    assert!(quick_verify("", true, None));
    assert!(!quick_verify("", false, None));
    assert!(quick_verify("PLACEHOLDER", true, Some(&[1])));
    assert!(!quick_verify("ab", true, None));
    assert!(quick_verify("AB", true, Some(&[0xab])));
    assert!(quick_verify("ab", false, Some(&[0xab])));
    assert!(!quick_verify("ab", true, Some(&[0xac])));
}

#[test]
fn categories_have_names() {
    assert_eq!(DistroCategory::Ubuntu.display_name(), "Ubuntu");
    assert_eq!(DistroCategory::Fedora.display_name(), "Fedora");
    assert_eq!(DistroCategory::Mint.display_name(), "Linux Mint");
    assert_eq!(DistroCategory::Debian.display_name(), "Debian");
    assert_eq!(DistroCategory::Arch.display_name(), "Arch Linux");
    assert_eq!(DistroCategory::Other.display_name(), "Other");
}

#[test]
fn the_catalog_is_read_by_category() {
    let catalog = DistrosCatalog {
        version: 1,
        last_updated: "2025-01-01".to_string(),
        distros: vec![
            distro("ubuntu-24.04", "24.04", DistroCategory::Ubuntu),
            distro("mint-22", "22", DistroCategory::Mint),
            distro("popos-22.04", "22.04", DistroCategory::Ubuntu),
            distro("arch-2025", "2025", DistroCategory::Arch),
        ],
    };
    let ids = |c: DistroCategory| -> Vec<&str> {
        catalog.by_category(c).into_iter().map(|d| d.id.as_str()).collect()
    };
    assert_eq!(ids(DistroCategory::Ubuntu), vec!["ubuntu-24.04", "popos-22.04"]);
    assert_eq!(ids(DistroCategory::Arch), vec!["arch-2025"]);
    assert_eq!(ids(DistroCategory::Fedora), Vec::<&str>::new());
    assert_eq!(
        catalog.categories(),
        vec![DistroCategory::Arch, DistroCategory::Mint, DistroCategory::Ubuntu]
    );
    assert!(catalog.has(DistroCategory::Mint));
    assert!(!catalog.has(DistroCategory::Other));
    let empty = DistrosCatalog { version: 1, last_updated: String::new(), distros: vec![] };
    assert_eq!(empty.categories(), Vec::new());
}

#[test]
fn downloads_are_named_after_id_and_version() {
    assert_eq!(
        ISOFetcher::file_name(&distro("ubuntu-24.04-lts", "24.04", DistroCategory::Ubuntu)),
        "ubuntu-24.04-lts-24.04.iso"
    );
    assert_eq!(
        ISOFetcher::file_name(&distro("linux mint", "22 beta 1", DistroCategory::Mint)),
        "linux-mint-22-beta-1.iso"
    );
}

#[test]
fn mirrors_are_tried_before_the_own_address() {
    let d = distro("d", "1", DistroCategory::Other);
    assert_eq!(ISOFetcher::sources(&d, &[]), vec!["https://example.org/d.iso"]);
    assert_eq!(
        ISOFetcher::sources(&d, &[mirror(1, "https://eu.example.org/d"), mirror(2, "https://us.example.org/d")]),
        vec!["https://eu.example.org/d", "https://us.example.org/d"]
    );
    assert_eq!(ISOFetcher::mirror_status(true), "ok");
    assert_eq!(ISOFetcher::mirror_status(false), "down");
}

#[test]
fn a_finished_download_must_be_there_and_large_enough() {
    assert_eq!(ISOFetcher::after_download(None, ""), Err(DownloadError::FileMissing));
    assert_eq!(
        ISOFetcher::after_download(Some(999_999), ""),
        Err(DownloadError::TooSmall { size: 999_999 })
    );
    assert_eq!(ISOFetcher::after_download(Some(1_000_000), ""), Ok(AfterDownload::Complete));
    assert_eq!(
        ISOFetcher::after_download(Some(1_000_000), "PLACEHOLDER"),
        Ok(AfterDownload::Complete)
    );
    assert_eq!(ISOFetcher::after_download(Some(u64::MAX), ABC), Ok(AfterDownload::Verify));
    assert_eq!(ISOFetcher::after_download(Some(0), ABC), Err(DownloadError::TooSmall { size: 0 }));
}

#[test]
fn download_progress_compares() {
    assert_eq!(
        DownloadProgress::Complete { path: "/tmp/a.iso".to_string() },
        DownloadProgress::Complete { path: "/tmp/a.iso".to_string() }
    );
    assert_ne!(
        DownloadProgress::Verifying,
        DownloadProgress::Progress { bytes: 1, total: 2, bps: 3 }
    );
}

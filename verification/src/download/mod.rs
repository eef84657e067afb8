//! Downloading images: the catalog, the rules of a download and the
//! checksum of what was downloaded.

pub mod catalog;
pub mod fetcher;
pub mod verification;

pub use catalog::{Distro, DistroCategory, DistrosCatalog};
pub use fetcher::{DownloadProgress, ISOFetcher};
pub use verification::verify_sha256;

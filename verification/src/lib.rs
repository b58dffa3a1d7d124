//! The decisions of a small file downloader: which responses count as
//! success, what the output file is called, and how failures are reported.
//! Network and file access are left to the caller.

pub mod address;
pub mod download;
pub mod error;
pub mod filename;
pub mod status;

pub use download::{output_for_response, resolve_filename};
pub use error::DownloadError;

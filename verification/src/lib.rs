//! Orchestration core for a Blue Archive FlatBuffers data-extraction pipeline.
//!
//! The crate models the decisions the pipeline makes — platform resolution,
//! download-source selection, archive unpacking, option merging, flag mapping
//! and command planning — as verified functions. The surrounding process
//! (network, filesystem, child processes) acts on the values these return.

use vstd::prelude::*;

pub mod cli;
pub mod helpers;
pub mod text;
pub mod tools;
pub mod wrappers;

verus! {

/// Every failure the pipeline can surface, each with the context it carries.
#[derive(Debug, Clone, PartialEq, Eq)]
pub enum Error {
    /// An explicitly named configuration file does not exist.
    ConfigNotFound(String),
    /// The configuration file exists but is not valid TOML.
    ConfigParse(String),
    /// The host operating system / architecture pair has no release asset.
    UnsupportedPlatform,
    /// No asset of the latest release matches the platform suffix.
    NoAssetFound,
    /// The downloader reported a failure for the named file.
    DownloadFailed(String),
    /// A downloaded archive could not be opened or read.
    ArchiveInvalid,
    /// A tool binary is absent from the path where it was expected.
    BinaryNotFound(String),
    /// A child process could not be started.
    SpawnFailed(String),
    /// A child process exited with the given non-success code.
    ChildExit(Option<i32>),
}

impl Error {
    /// A human-readable description; the payload carries the context.
    pub fn message(&self) -> (r: String)
        ensures
            r@.len() > 0,
            *self matches Error::ConfigNotFound(p) ==> r@ == "Config file not found: "@ + p@,
            *self matches Error::ConfigParse(m) ==> r@ == "Config file is not valid TOML: "@ + m@,
            *self is UnsupportedPlatform ==> r@ == "Unsupported platform"@,
            *self is NoAssetFound ==> r@ == "No asset found"@,
            *self matches Error::DownloadFailed(f) ==> r@ == "Download failed: "@ + f@,
            *self is ArchiveInvalid ==> r@ == "Archive could not be read"@,
            *self matches Error::BinaryNotFound(p) ==> r@ == "Binary path: "@ + p@,
            *self matches Error::SpawnFailed(p) ==> r@ == "Failed to execute "@ + p@,
            *self is ChildExit ==> r@ == "Tool exited with a failure code"@,
    {
        let r = match self {
            Error::ConfigNotFound(p) => crate::text::concat_str("Config file not found: ", p.as_str()),
            Error::ConfigParse(m) => crate::text::concat_str("Config file is not valid TOML: ", m.as_str()),
            Error::UnsupportedPlatform => "Unsupported platform".to_owned(),
            Error::NoAssetFound => "No asset found".to_owned(),
            Error::DownloadFailed(f) => crate::text::concat_str("Download failed: ", f.as_str()),
            Error::ArchiveInvalid => "Archive could not be read".to_owned(),
            Error::BinaryNotFound(p) => crate::text::concat_str("Binary path: ", p.as_str()),
            Error::SpawnFailed(p) => crate::text::concat_str("Failed to execute ", p.as_str()),
            Error::ChildExit(_) => "Tool exited with a failure code".to_owned(),
        };
        proof {
            reveal_strlit("Config file not found: ");
            reveal_strlit("Config file is not valid TOML: ");
            reveal_strlit("Unsupported platform");
            reveal_strlit("No asset found");
            reveal_strlit("Download failed: ");
            reveal_strlit("Archive could not be read");
            reveal_strlit("Binary path: ");
            reveal_strlit("Failed to execute ");
            reveal_strlit("Tool exited with a failure code");
        }
        r
    }
}

} // verus!

//! The failure taxonomy of one install run. Every failure is terminal for
//! the invocation that raised it: nothing is retried internally, and each
//! variant carries enough context to be reported directly.

use vstd::prelude::*;
use vstd::string::*;

use crate::text::{concat2, concat3};

verus! {

#[derive(Debug)]
pub enum InstallError {
    /// The release index rejected the query or returned a malformed body.
    ResolutionFailed { detail: String },
    /// The host (architecture, OS) pair has no prebuilt toolchains at all.
    UnsupportedHost,
    /// The release exists but carries no asset for this host platform.
    UnsupportedPlatform { tag: String, target: String },
    /// The network transfer of the chosen asset failed.
    DownloadFailed { detail: String },
    /// Unpacking the downloaded archive failed.
    ExtractionFailed { detail: String },
    /// The extracted tree lacks the compiler entry point expected of a
    /// chained toolchain.
    InvalidToolchainLayout { rustc_path: String },
    /// A direct-install archive did not hold exactly one top-level entry.
    UnexpectedArchiveLayout { entries: usize },
    /// The external chaining tool failed to register the toolchain.
    LinkFailed { detail: String },
    /// Copying a direct-install tree into its fixed home failed.
    InstallCopyFailed { detail: String },
    /// Another install holds the exclusive lock.
    LockUnavailable,
}

impl InstallError {
    /// A short label naming the kind of failure, for user-facing reports.
    pub fn label(&self) -> (r: &'static str)
        ensures
            r@ == label_spec(*self),
    {
        match self {
            InstallError::ResolutionFailed { .. } => "resolution failed",
            InstallError::UnsupportedHost => "unsupported host",
            InstallError::UnsupportedPlatform { .. } => "unsupported platform",
            InstallError::DownloadFailed { .. } => "download failed",
            InstallError::ExtractionFailed { .. } => "extraction failed",
            InstallError::InvalidToolchainLayout { .. } => "invalid toolchain layout",
            InstallError::UnexpectedArchiveLayout { .. } => "unexpected archive layout",
            InstallError::LinkFailed { .. } => "link failed",
            InstallError::InstallCopyFailed { .. } => "install copy failed",
            InstallError::LockUnavailable => "lock unavailable",
        }
    }

    /// The full user-facing report of the failure, with its context.
    pub fn message(&self) -> (r: String)
        ensures
            r@ == message_spec(*self),
    {
        match self {
            InstallError::ResolutionFailed { detail } => concat2(
                "resolution failed: ",
                detail.as_str(),
            ),
            InstallError::UnsupportedHost => String::from_str(
                "this host has no prebuilt toolchains",
            ),
            InstallError::UnsupportedPlatform { tag, target } => {
                let head = concat3("Release ", tag.as_str(),
                    " does not have a prebuilt toolchain for host ");
                concat2(head.as_str(), target.as_str())
            },
            InstallError::DownloadFailed { detail } => concat2(
                "download failed: ",
                detail.as_str(),
            ),
            InstallError::ExtractionFailed { detail } => concat2(
                "extraction failed: ",
                detail.as_str(),
            ),
            InstallError::InvalidToolchainLayout { rustc_path } => concat2(
                "Invalid toolchain directory: rustc executable not found at ",
                rustc_path.as_str(),
            ),
            InstallError::UnexpectedArchiveLayout { .. } => String::from_str(
                "expected the archive to hold exactly one top-level entry",
            ),
            InstallError::LinkFailed { detail } => concat2("link failed: ", detail.as_str()),
            InstallError::InstallCopyFailed { detail } => concat2(
                "install copy failed: ",
                detail.as_str(),
            ),
            InstallError::LockUnavailable => String::from_str(
                "another installation holds the lock",
            ),
        }
    }
}

pub open spec fn message_spec(e: InstallError) -> Seq<char> {
    match e {
        InstallError::ResolutionFailed { detail } => "resolution failed: "@ + detail@,
        InstallError::UnsupportedHost => "this host has no prebuilt toolchains"@,
        InstallError::UnsupportedPlatform { tag, target } => "Release "@ + tag@
            + " does not have a prebuilt toolchain for host "@ + target@,
        InstallError::DownloadFailed { detail } => "download failed: "@ + detail@,
        InstallError::ExtractionFailed { detail } => "extraction failed: "@ + detail@,
        InstallError::InvalidToolchainLayout { rustc_path } =>
            "Invalid toolchain directory: rustc executable not found at "@ + rustc_path@,
        InstallError::UnexpectedArchiveLayout { .. } =>
            "expected the archive to hold exactly one top-level entry"@,
        InstallError::LinkFailed { detail } => "link failed: "@ + detail@,
        InstallError::InstallCopyFailed { detail } => "install copy failed: "@ + detail@,
        InstallError::LockUnavailable => "another installation holds the lock"@,
    }
}

pub open spec fn label_spec(e: InstallError) -> Seq<char> {
    match e {
        InstallError::ResolutionFailed { .. } => "resolution failed"@,
        InstallError::UnsupportedHost => "unsupported host"@,
        InstallError::UnsupportedPlatform { .. } => "unsupported platform"@,
        InstallError::DownloadFailed { .. } => "download failed"@,
        InstallError::ExtractionFailed { .. } => "extraction failed"@,
        InstallError::InvalidToolchainLayout { .. } => "invalid toolchain layout"@,
        InstallError::UnexpectedArchiveLayout { .. } => "unexpected archive layout"@,
        InstallError::LinkFailed { .. } => "link failed"@,
        InstallError::InstallCopyFailed { .. } => "install copy failed"@,
        InstallError::LockUnavailable => "lock unavailable"@,
    }
}

} // verus!

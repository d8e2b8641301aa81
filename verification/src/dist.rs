//! Toolchain families and the naming rules of the resolver and extractor:
//! repository identity, per-platform asset filenames, archive format tags,
//! release-index query URLs and deterministic extraction directory names.

use vstd::prelude::*;
use vstd::string::*;

use crate::text::{
    concat2, concat3, concat5, starts_with, starts_with_spec, str_eq, trim_prefix,
    trim_prefix_spec, trim_suffix, trim_suffix_spec,
};

verus! {

/// How a version selector is turned into a release-index tag query:
/// absent or the literal `latest` ask for the latest release, a selector
/// already carrying the tag prefix passes verbatim, anything else is
/// prefixed as a tag.
pub open spec fn version_tag_spec(v: Option<Seq<char>>) -> Seq<char> {
    match v {
        None => "latest"@,
        Some(t) => if t == "latest"@ || starts_with_spec(t, "tags/"@) {
            t
        } else {
            "tags/"@ + t
        },
    }
}

pub fn version_tag(version: Option<&str>) -> (r: String)
    ensures
        r@ == version_tag_spec(
            match version {
                Some(v) => Some(v@),
                None => None,
            },
        ),
{
    match version {
        None => String::from_str("latest"),
        Some(v) => {
            if str_eq(v, "latest") || starts_with(v, "tags/") {
                String::from_str(v)
            } else {
                concat2("tags/", v)
            }
        },
    }
}

/// A toolchain family this system can provision. `Rust` is the chained
/// compiler toolchain, `Cpp` the direct-install cross toolchain.
#[derive(Clone, Copy, PartialEq, Eq, Structural, Debug)]
pub enum ToolchainRepo {
    Rust,
    Cpp,
}

/// How a family's release archive is encoded; fixed per family at compile
/// time, never sniffed from file contents.
#[derive(Clone, Copy, PartialEq, Eq, Structural, Debug)]
pub enum ArchiveFormat {
    GzipTar,
    XzTar,
}

pub open spec fn url_spec(r: ToolchainRepo) -> Seq<char> {
    match r {
        ToolchainRepo::Rust => "https://github.com/risc0/rust.git"@,
        ToolchainRepo::Cpp => "https://github.com/risc0/toolchain.git"@,
    }
}

pub open spec fn language_spec(r: ToolchainRepo) -> Seq<char> {
    match r {
        ToolchainRepo::Rust => "rust"@,
        ToolchainRepo::Cpp => "cpp"@,
    }
}

pub open spec fn archive_format_spec(r: ToolchainRepo) -> ArchiveFormat {
    match r {
        ToolchainRepo::Rust => ArchiveFormat::GzipTar,
        ToolchainRepo::Cpp => ArchiveFormat::XzTar,
    }
}

/// Whether a prebuilt asset of this family exists for the platform at all;
/// asking for an asset name outside this set is a caller error.
pub open spec fn asset_available_spec(r: ToolchainRepo, target: Seq<char>) -> bool {
    match r {
        ToolchainRepo::Rust => true,
        ToolchainRepo::Cpp => target == "aarch64-apple-darwin"@ || target
            == "x86_64-unknown-linux-gnu"@,
    }
}

pub open spec fn asset_name_spec(r: ToolchainRepo, target: Seq<char>) -> Seq<char> {
    match r {
        ToolchainRepo::Rust => "rust-toolchain-"@ + target + ".tar.gz"@,
        ToolchainRepo::Cpp => if target == "aarch64-apple-darwin"@ {
            "riscv32im-osx-arm64.tar.xz"@
        } else {
            "riscv32im-linux-x86_64.tar.xz"@
        },
    }
}

/// The tag component of the release-index query for this family: the Rust
/// family follows the caller's selector, the C++ family is pinned.
pub open spec fn resolve_tag_spec(r: ToolchainRepo, v: Option<Seq<char>>) -> Seq<char> {
    match r {
        ToolchainRepo::Rust => version_tag_spec(v),
        ToolchainRepo::Cpp => "tags/2024.01.05"@,
    }
}

pub open spec fn repo_name_spec(u: Seq<char>) -> Seq<char> {
    trim_suffix_spec(trim_prefix_spec(u, "https://github.com/"@), ".git"@)
}

pub open spec fn release_query_url_spec(u: Seq<char>, tag: Seq<char>) -> Seq<char> {
    "https://api.github.com/repos/"@ + repo_name_spec(u) + "/releases/"@ + tag
}

/// The deterministic extraction directory name for one (family, platform,
/// resolved tag) triple.
pub open spec fn toolchain_dir_name_spec(r: ToolchainRepo, target: Seq<char>, tag: Seq<char>)
    -> Seq<char> {
    language_spec(r) + "_"@ + target + "_"@ + tag
}

impl ToolchainRepo {
    pub fn url(&self) -> (r: &'static str)
        ensures
            r@ == url_spec(*self),
    {
        match self {
            ToolchainRepo::Rust => "https://github.com/risc0/rust.git",
            ToolchainRepo::Cpp => "https://github.com/risc0/toolchain.git",
        }
    }

    pub fn language(&self) -> (r: &'static str)
        ensures
            r@ == language_spec(*self),
    {
        match self {
            ToolchainRepo::Rust => "rust",
            ToolchainRepo::Cpp => "cpp",
        }
    }

    pub fn archive_format(&self) -> (r: ArchiveFormat)
        ensures
            r == archive_format_spec(*self),
    {
        match self {
            ToolchainRepo::Rust => ArchiveFormat::GzipTar,
            ToolchainRepo::Cpp => ArchiveFormat::XzTar,
        }
    }

    pub fn asset_name(&self, target: &str) -> (r: String)
        requires
            asset_available_spec(*self, target@),
        ensures
            r@ == asset_name_spec(*self, target@),
    {
        match self {
            ToolchainRepo::Rust => concat3("rust-toolchain-", target, ".tar.gz"),
            ToolchainRepo::Cpp => {
                if str_eq(target, "aarch64-apple-darwin") {
                    String::from_str("riscv32im-osx-arm64.tar.xz")
                } else {
                    String::from_str("riscv32im-linux-x86_64.tar.xz")
                }
            },
        }
    }

    /// The full release-index query URL for this family under the given
    /// version selector.
    pub fn release_query_url(&self, version: Option<&str>) -> (r: String)
        ensures
            r@ == release_query_url_spec(
                url_spec(*self),
                resolve_tag_spec(
                    *self,
                    match version {
                        Some(v) => Some(v@),
                        None => None,
                    },
                ),
            ),
    {
        let tag = match self {
            ToolchainRepo::Rust => version_tag(version),
            ToolchainRepo::Cpp => String::from_str("tags/2024.01.05"),
        };
        release_query_url(self.url(), tag.as_str())
    }
}

pub fn release_query_url(repo_url: &str, tag: &str) -> (r: String)
    ensures
        r@ == release_query_url_spec(repo_url@, tag@),
{
    let without_prefix = trim_prefix(repo_url, "https://github.com/");
    let name = trim_suffix(without_prefix.as_str(), ".git");
    let head = concat2("https://api.github.com/repos/", name.as_str());
    concat3(head.as_str(), "/releases/", tag)
}

pub fn toolchain_dir_name(repo: &ToolchainRepo, target: &str, tag: &str) -> (r: String)
    ensures
        r@ == toolchain_dir_name_spec(*repo, target@, tag@),
{
    concat5(repo.language(), "_", target, "_", tag)
}

/// The top-level binary directory of an extracted compiler toolchain, whose
/// regular files must be made executable after unpacking.
pub open spec fn rust_bin_dir_spec(dir: Seq<char>) -> Seq<char> {
    dir + "/bin"@
}

/// The architecture-specific nested binary directory under the library tree,
/// treated the same way.
pub open spec fn rustlib_bin_dir_spec(dir: Seq<char>, target: Seq<char>) -> Seq<char> {
    dir + "/lib/rustlib/"@ + target + "/bin"@
}

pub fn rust_bin_dir(dir: &str) -> (r: String)
    ensures
        r@ == rust_bin_dir_spec(dir@),
{
    concat2(dir, "/bin")
}

pub fn rustlib_bin_dir(dir: &str, target: &str) -> (r: String)
    ensures
        r@ == rustlib_bin_dir_spec(dir@, target@),
{
    let head = concat3(dir, "/lib/rustlib/", target);
    concat2(head.as_str(), "/bin")
}

/// One install invocation: an optional explicit version selector for the
/// primary toolchain family.
pub struct InstallToolchain {
    pub version: Option<String>,
}

} // verus!

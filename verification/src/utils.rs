//! Host platform identification and the crate's own version string.
//! Only (architecture, OS) pairs with prebuilt toolchains are mapped to a
//! target triple; every other host is unsupported before any network
//! access is attempted.

use vstd::prelude::*;

use crate::error::InstallError;
use crate::text::str_eq;

verus! {

pub fn version() -> (r: &'static str)
    ensures
        r@ == "0.1.0"@,
{
    "0.1.0"
}

/// The static table of supported hosts.
pub open spec fn host_target_spec(arch: Seq<char>, os: Seq<char>) -> Option<Seq<char>> {
    if arch == "x86_64"@ && os == "linux"@ {
        Some("x86_64-unknown-linux-gnu"@)
    } else if arch == "x86_64"@ && os == "macos"@ {
        Some("x86_64-apple-darwin"@)
    } else if arch == "aarch64"@ && os == "macos"@ {
        Some("aarch64-apple-darwin"@)
    } else if arch == "x86_64"@ && os == "windows"@ {
        Some("x86_64-pc-windows-msvc"@)
    } else {
        None
    }
}

/// Map the host's (CPU architecture, operating system) pair to the target
/// triple of its prebuilt toolchains, or nothing for an unsupported host.
pub fn guess_host_target(arch: &str, os: &str) -> (r: Option<&'static str>)
    ensures
        r is Some <==> host_target_spec(arch@, os@) is Some,
        r matches Some(t) ==> host_target_spec(arch@, os@) == Some(t@),
{
    if str_eq(arch, "x86_64") && str_eq(os, "linux") {
        Some("x86_64-unknown-linux-gnu")
    } else if str_eq(arch, "x86_64") && str_eq(os, "macos") {
        Some("x86_64-apple-darwin")
    } else if str_eq(arch, "aarch64") && str_eq(os, "macos") {
        Some("aarch64-apple-darwin")
    } else if str_eq(arch, "x86_64") && str_eq(os, "windows") {
        Some("x86_64-pc-windows-msvc")
    } else {
        None
    }
}

/// Resolve the host once per install invocation: an unsupported host is
/// `UnsupportedHost`, fatal before any network access is attempted.
pub fn resolve_host(arch: &str, os: &str) -> (r: Result<&'static str, InstallError>)
    ensures
        r is Ok <==> host_target_spec(arch@, os@) is Some,
        r matches Ok(t) ==> host_target_spec(arch@, os@) == Some(t@),
        r matches Err(e) ==> e is UnsupportedHost,
{
    match guess_host_target(arch, os) {
        Some(t) => Ok(t),
        None => Err(InstallError::UnsupportedHost),
    }
}

} // verus!

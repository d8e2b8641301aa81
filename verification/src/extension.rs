//! The cargo extension distributed alongside the toolchains: its
//! repository identity, per-platform asset names and release-index query.

use vstd::prelude::*;
use vstd::string::*;

use crate::dist::{release_query_url, release_query_url_spec, version_tag, version_tag_spec};
use crate::text::str_eq;

verus! {

#[derive(Default, Debug, Clone)]
pub enum ExtensionRepo {
    #[default]
    CargoRisczero,
}

pub open spec fn ext_url_spec(r: ExtensionRepo) -> Seq<char> {
    "https://github.com/risc0/risc0.git"@
}

/// Whether a prebuilt extension binary exists for the platform.
pub open spec fn ext_asset_available_spec(r: ExtensionRepo, target: Seq<char>) -> bool {
    target == "aarch64-apple-darwin"@ || target == "x86_64-unknown-linux-gnu"@
}

pub open spec fn ext_asset_name_spec(r: ExtensionRepo, target: Seq<char>) -> Seq<char> {
    if target == "aarch64-apple-darwin"@ {
        "cargo-risczero-aarch64-apple-darwin.tgz"@
    } else {
        "cargo-risczero-x86_64-unknown-linux-gnu.tgz"@
    }
}

impl ExtensionRepo {
    pub fn url(&self) -> (r: &'static str)
        ensures
            r@ == ext_url_spec(*self),
    {
        "https://github.com/risc0/risc0.git"
    }

    pub fn asset_name(&self, target: &str) -> (r: String)
        requires
            ext_asset_available_spec(*self, target@),
        ensures
            r@ == ext_asset_name_spec(*self, target@),
    {
        if str_eq(target, "aarch64-apple-darwin") {
            String::from_str("cargo-risczero-aarch64-apple-darwin.tgz")
        } else {
            String::from_str("cargo-risczero-x86_64-unknown-linux-gnu.tgz")
        }
    }

    /// The release-index query URL answering this extension's version
    /// selector; fetching and decoding the response is the driver's work.
    pub fn release_query_url(&self, version: Option<&str>) -> (r: String)
        ensures
            r@ == release_query_url_spec(
                ext_url_spec(*self),
                version_tag_spec(
                    match version {
                        Some(v) => Some(v@),
                        None => None,
                    },
                ),
            ),
    {
        let tag = version_tag(version);
        release_query_url(self.url(), tag.as_str())
    }
}

} // verus!

//! The resolver's result and the fetcher's asset selection: a resolved
//! release carries its canonical tag and full asset list; the asset for
//! the host platform is selected by exact filename match, and its absence
//! is a distinct failure from a failed resolution.

use vstd::prelude::*;
use vstd::string::*;

use crate::dist::{asset_available_spec, asset_name_spec, ToolchainRepo};
use crate::error::InstallError;
use crate::text::str_eq;

verus! {

/// One downloadable asset of a release, as the release index reports it.
pub struct GithubAsset {
    pub name: String,
    pub browser_download_url: String,
}

/// A resolved release: its canonical tag and its full asset list.
pub struct GithubReleaseData {
    pub assets: Vec<GithubAsset>,
    pub tag_name: String,
}

/// Whether some asset in the list carries exactly this filename.
pub open spec fn has_asset(assets: Seq<GithubAsset>, name: Seq<char>) -> bool {
    exists|i: int| 0 <= i < assets.len() && assets[i].name@ == name
}

/// `u` is the download URL of the first asset named `want`.
pub open spec fn first_asset_url(assets: Seq<GithubAsset>, want: Seq<char>, u: Seq<char>) -> bool {
    exists|i: int|
        0 <= i < assets.len() && assets[i].name@ == want && u == assets[i].browser_download_url@
            && (forall|j: int| 0 <= j < i ==> assets[j].name@ != want)
}

/// The first asset whose filename equals `name` exactly, if any.
pub fn find_asset<'a>(assets: &'a Vec<GithubAsset>, name: &str) -> (r: Option<&'a GithubAsset>)
    ensures
        match r {
            Some(a) => a.name@ == name@ && (exists|i: int|
                0 <= i < assets@.len() && assets@[i] == *a && (forall|j: int|
                    0 <= j < i ==> assets@[j].name@ != name@)),
            None => !has_asset(assets@, name@),
        },
{
    let mut i: usize = 0;
    while i < assets.len()
        invariant
            i <= assets@.len(),
            forall|j: int| 0 <= j < i ==> assets@[j].name@ != name@,
        decreases assets@.len() - i,
    {
        let a = &assets[i];
        if str_eq(a.name.as_str(), name) {
            return Some(a);
        }
        i = i + 1;
    }
    None
}

/// The fetcher's selection step: given a resolved release, pick the
/// download URL of the asset named for this (family, platform) pair.
/// A release without that asset is `UnsupportedPlatform`, naming the
/// release tag and the platform; no other error can come from here.
pub fn select_asset(release: &GithubReleaseData, repo: &ToolchainRepo, target: &str) -> (r:
    Result<(String, String), InstallError>)
    requires
        asset_available_spec(*repo, target@),
    ensures
        r is Ok <==> has_asset(release.assets@, asset_name_spec(*repo, target@)),
        r matches Ok(p) ==> p.0@ == release.tag_name@,
        r matches Ok(p) ==> first_asset_url(release.assets@, asset_name_spec(*repo, target@), p.1@),
        r matches Err(e) ==> (e matches InstallError::UnsupportedPlatform { tag, target: t }
            && tag@ == release.tag_name@ && t@ == target@),
{
    let want = repo.asset_name(target);
    match find_asset(&release.assets, want.as_str()) {
        Some(a) => Ok((release.tag_name.clone(), a.browser_download_url.clone())),
        None => Err(
            InstallError::UnsupportedPlatform {
                tag: release.tag_name.clone(),
                target: String::from_str(target),
            },
        ),
    }
}

} // verus!

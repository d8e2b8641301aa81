use rzup::dist::ToolchainRepo;
use rzup::error::InstallError;
use rzup::release::{find_asset, select_asset, GithubAsset, GithubReleaseData};

fn asset(name: &str, url: &str) -> GithubAsset {
    GithubAsset {
        name: name.to_string(),
        browser_download_url: url.to_string(),
    }
}

#[test]
fn find_asset_exact_match_only() {
    let assets = vec![
        asset("other.tar.gz", "u0"),
        asset("rust-toolchain-x86_64-unknown-linux-gnu.tar.gz", "u1"),
    ];
    let found = find_asset(&assets, "rust-toolchain-x86_64-unknown-linux-gnu.tar.gz").unwrap();
    assert_eq!(found.browser_download_url, "u1");
    assert!(find_asset(&assets, "rust-toolchain-x86_64-unknown-linux-gnu.tar").is_none());
}

#[test]
fn find_asset_returns_first_match() {
    let assets = vec![asset("a", "u1"), asset("a", "u2")];
    assert_eq!(find_asset(&assets, "a").unwrap().browser_download_url, "u1");
}

#[test]
fn select_asset_succeeds_when_expected_name_present() {
    // Every supported (family, platform) pair resolves and selects when
    // the index carries the exact expected asset name.
    let cases: Vec<(ToolchainRepo, &str, &str)> = vec![
        (
            ToolchainRepo::Rust,
            "x86_64-unknown-linux-gnu",
            "rust-toolchain-x86_64-unknown-linux-gnu.tar.gz",
        ),
        (
            ToolchainRepo::Rust,
            "aarch64-apple-darwin",
            "rust-toolchain-aarch64-apple-darwin.tar.gz",
        ),
        (
            ToolchainRepo::Cpp,
            "x86_64-unknown-linux-gnu",
            "riscv32im-linux-x86_64.tar.xz",
        ),
        (
            ToolchainRepo::Cpp,
            "aarch64-apple-darwin",
            "riscv32im-osx-arm64.tar.xz",
        ),
    ];
    for (repo, target, expected_name) in cases {
        let release = GithubReleaseData {
            assets: vec![asset("unrelated.zip", "u0"), asset(expected_name, "u1")],
            tag_name: "v1.2.3".to_string(),
        };
        let (tag, url) = select_asset(&release, &repo, target).unwrap();
        assert_eq!(tag, "v1.2.3");
        assert_eq!(url, "u1");
    }
}

#[test]
fn select_asset_without_platform_asset_is_unsupported_platform() {
    let release = GithubReleaseData {
        assets: vec![asset("unrelated.zip", "u0")],
        tag_name: "v1.2.3".to_string(),
    };
    let err = select_asset(&release, &ToolchainRepo::Rust, "x86_64-unknown-linux-gnu")
        .err()
        .unwrap();
    match err {
        InstallError::UnsupportedPlatform { tag, target } => {
            assert_eq!(tag, "v1.2.3");
            assert_eq!(target, "x86_64-unknown-linux-gnu");
        }
        _ => panic!("wrong error variant"),
    }
}

#[test]
fn select_asset_on_empty_asset_list() {
    let release = GithubReleaseData {
        assets: vec![],
        tag_name: "v0".to_string(),
    };
    let r = select_asset(&release, &ToolchainRepo::Cpp, "aarch64-apple-darwin");
    assert!(matches!(
        r,
        Err(InstallError::UnsupportedPlatform { .. })
    ));
}

use rzup::dist::{ArchiveFormat, InstallToolchain, ToolchainRepo};
use rzup::error::InstallError;
use rzup::release::{GithubAsset, GithubReleaseData};
use rzup::session::{Action, Event, InstallSession, Phase};

fn asset(name: &str, url: &str) -> GithubAsset {
    GithubAsset {
        name: name.to_string(),
        browser_download_url: url.to_string(),
    }
}

fn new_session(version: Option<&str>) -> InstallSession {
    InstallSession::new(
        InstallToolchain {
            version: version.map(|s| s.to_string()),
        },
        "x86_64-unknown-linux-gnu".to_string(),
        "/home/u/.rzup".to_string(),
    )
}

fn ok() -> Event {
    Event::Completed { result: Ok(()) }
}

fn mutates(a: &Action) -> bool {
    matches!(
        a,
        Action::ClearDir { .. }
            | Action::Unpack { .. }
            | Action::SetExecutable { .. }
            | Action::RustupRemove { .. }
            | Action::RustupLink { .. }
            | Action::CopyDirReplace { .. }
    )
}

#[test]
fn first_action_takes_the_lock() {
    let mut s = new_session(None);
    let a = s.start();
    match a {
        Action::AcquireLock { path } => assert_eq!(path, "/home/u/.rzup/rustup-lock"),
        _ => panic!("expected AcquireLock"),
    }
    assert!(s.phase == Phase::Locking);
}

#[test]
fn busy_lock_aborts_with_lock_unavailable() {
    // A second install attempted while one is in progress never proceeds.
    let mut s = new_session(None);
    let _ = s.start();
    let a = s.step(Event::LockBusy);
    assert!(matches!(a, Action::Halt));
    assert!(s.phase == Phase::Failed);
    assert!(matches!(s.failure, Some(InstallError::LockUnavailable)));
    assert!(!s.cpp_done && !s.rust_done);
}

#[test]
fn full_install_happy_path() {
    let mut s = new_session(None);
    let a = s.start();
    assert!(matches!(a, Action::AcquireLock { .. }));

    // The auxiliary (C++) family is processed first, with its pinned tag.
    let a = s.step(Event::LockAcquired);
    match &a {
        Action::FetchReleaseInfo { url } => assert_eq!(
            url,
            "https://api.github.com/repos/risc0/toolchain/releases/tags/2024.01.05"
        ),
        _ => panic!("expected FetchReleaseInfo"),
    }

    let cpp_release = GithubReleaseData {
        assets: vec![asset("riscv32im-linux-x86_64.tar.xz", "https://dl/cpp.tar.xz")],
        tag_name: "2024.01.05".to_string(),
    };
    let a = s.step(Event::ReleaseInfo {
        result: Ok(cpp_release),
    });
    match &a {
        Action::DownloadAsset { url } => assert_eq!(url, "https://dl/cpp.tar.xz"),
        _ => panic!("expected DownloadAsset"),
    }

    let a = s.step(Event::Downloaded {
        result: Ok("/tmp/scratch/cpp.tar.xz".to_string()),
    });
    let cpp_dest = "/home/u/.rzup/toolchains/cpp_x86_64-unknown-linux-gnu_2024.01.05";
    match &a {
        Action::ClearDir { path } => assert_eq!(path, cpp_dest),
        _ => panic!("expected ClearDir"),
    }

    let a = s.step(ok());
    match &a {
        Action::Unpack {
            archive,
            format,
            dest,
        } => {
            assert_eq!(archive, "/tmp/scratch/cpp.tar.xz");
            assert!(*format == ArchiveFormat::XzTar);
            assert_eq!(dest, cpp_dest);
        }
        _ => panic!("expected Unpack"),
    }

    let a = s.step(ok());
    match &a {
        Action::ListDir { path } => assert_eq!(path, cpp_dest),
        _ => panic!("expected ListDir"),
    }

    let a = s.step(Event::DirListed {
        result: Ok(vec!["payload".to_string()]),
    });
    match &a {
        Action::CopyDirReplace { from, to } => {
            assert_eq!(from, &format!("{}/payload", cpp_dest));
            assert_eq!(to, "/home/u/.rzup/cpp");
        }
        _ => panic!("expected CopyDirReplace"),
    }

    // The C++ family commits; the primary (Rust) family follows.
    let a = s.step(ok());
    assert!(s.cpp_done);
    match &a {
        Action::FetchReleaseInfo { url } => assert_eq!(
            url,
            "https://api.github.com/repos/risc0/rust/releases/latest"
        ),
        _ => panic!("expected FetchReleaseInfo"),
    }

    let rust_release = GithubReleaseData {
        assets: vec![
            asset("unrelated.txt", "https://dl/unrelated"),
            asset(
                "rust-toolchain-x86_64-unknown-linux-gnu.tar.gz",
                "https://dl/rust.tar.gz",
            ),
        ],
        tag_name: "v1.2.3".to_string(),
    };
    let a = s.step(Event::ReleaseInfo {
        result: Ok(rust_release),
    });
    match &a {
        Action::DownloadAsset { url } => assert_eq!(url, "https://dl/rust.tar.gz"),
        _ => panic!("expected DownloadAsset"),
    }

    let a = s.step(Event::Downloaded {
        result: Ok("/tmp/scratch/rust.tar.gz".to_string()),
    });
    let rust_dest = "/home/u/.rzup/toolchains/rust_x86_64-unknown-linux-gnu_v1.2.3";
    match &a {
        Action::ClearDir { path } => assert_eq!(path, rust_dest),
        _ => panic!("expected ClearDir"),
    }

    let a = s.step(ok());
    match &a {
        Action::Unpack { format, dest, .. } => {
            assert!(*format == ArchiveFormat::GzipTar);
            assert_eq!(dest, rust_dest);
        }
        _ => panic!("expected Unpack"),
    }

    let a = s.step(ok());
    match &a {
        Action::SetExecutable {
            bin_dir,
            rustlib_bin_dir,
        } => {
            assert_eq!(bin_dir, &format!("{}/bin", rust_dest));
            assert_eq!(
                rustlib_bin_dir,
                &format!("{}/lib/rustlib/x86_64-unknown-linux-gnu/bin", rust_dest)
            );
        }
        _ => panic!("expected SetExecutable"),
    }

    let a = s.step(ok());
    match &a {
        Action::CheckFile { path } => assert_eq!(path, &format!("{}/bin/rustc", rust_dest)),
        _ => panic!("expected CheckFile"),
    }

    let a = s.step(Event::FileChecked { exists: true });
    assert!(matches!(a, Action::RustupList));

    // A toolchain already linked under the stable name is removed first:
    // replace, not merge.
    let listing = "risc0\t/home/u/.rzup/toolchains/old\nstable\t/x\n";
    let a = s.step(Event::CommandOutput {
        result: Ok(listing.to_string()),
    });
    match &a {
        Action::RustupRemove { name } => assert_eq!(name, "risc0"),
        _ => panic!("expected RustupRemove"),
    }

    let a = s.step(ok());
    match &a {
        Action::RustupLink { name, dir } => {
            assert_eq!(name, "risc0");
            assert_eq!(dir, rust_dest);
        }
        _ => panic!("expected RustupLink"),
    }

    let a = s.step(ok());
    assert!(matches!(a, Action::Halt));
    assert!(s.phase == Phase::Done);
    assert!(s.cpp_done && s.rust_done);
    assert!(s.failure.is_none());
}

#[test]
fn fresh_link_skips_removal() {
    let mut s = new_session(None);
    let _ = s.start();
    let _ = s.step(Event::LockAcquired);
    let cpp_release = GithubReleaseData {
        assets: vec![asset("riscv32im-linux-x86_64.tar.xz", "u")],
        tag_name: "2024.01.05".to_string(),
    };
    let _ = s.step(Event::ReleaseInfo {
        result: Ok(cpp_release),
    });
    let _ = s.step(Event::Downloaded {
        result: Ok("/tmp/a.tar.xz".to_string()),
    });
    let _ = s.step(ok());
    let _ = s.step(ok());
    let _ = s.step(Event::DirListed {
        result: Ok(vec!["sub".to_string()]),
    });
    let _ = s.step(ok());
    let rust_release = GithubReleaseData {
        assets: vec![asset("rust-toolchain-x86_64-unknown-linux-gnu.tar.gz", "u2")],
        tag_name: "v2".to_string(),
    };
    let _ = s.step(Event::ReleaseInfo {
        result: Ok(rust_release),
    });
    let _ = s.step(Event::Downloaded {
        result: Ok("/tmp/b.tar.gz".to_string()),
    });
    let _ = s.step(ok());
    let _ = s.step(ok());
    let _ = s.step(ok());
    let _ = s.step(Event::FileChecked { exists: true });
    // No toolchain under the stable name: link directly.
    let a = s.step(Event::CommandOutput {
        result: Ok("stable\t/x\n".to_string()),
    });
    assert!(matches!(a, Action::RustupLink { .. }));
}

#[test]
fn missing_platform_asset_fails_before_any_download_or_mutation() {
    // The index answers, but without any filename matching the platform:
    // the install fails with UnsupportedPlatform naming the tag and the
    // triple, and nothing was downloaded or mutated.
    let mut s = new_session(None);
    let mut actions: Vec<Action> = Vec::new();
    actions.push(s.start());
    actions.push(s.step(Event::LockAcquired));
    let release = GithubReleaseData {
        assets: vec![asset("riscv32im-windows-x86_64.tar.xz", "u")],
        tag_name: "v1.2.3".to_string(),
    };
    let a = s.step(Event::ReleaseInfo {
        result: Ok(release),
    });
    assert!(matches!(a, Action::Halt));
    assert!(s.phase == Phase::Failed);
    match &s.failure {
        Some(InstallError::UnsupportedPlatform { tag, target }) => {
            assert_eq!(tag, "v1.2.3");
            assert_eq!(target, "x86_64-unknown-linux-gnu");
        }
        _ => panic!("expected UnsupportedPlatform"),
    }
    actions.push(a);
    for a in &actions {
        assert!(!mutates(a));
        assert!(!matches!(a, Action::DownloadAsset { .. }));
    }
}

#[test]
fn resolution_failure_aborts() {
    let mut s = new_session(Some("v9.9.9"));
    let _ = s.start();
    let a = s.step(Event::LockAcquired);
    match &a {
        Action::FetchReleaseInfo { url } => assert_eq!(
            url,
            "https://api.github.com/repos/risc0/toolchain/releases/tags/2024.01.05"
        ),
        _ => panic!("expected FetchReleaseInfo"),
    }
    let a = s.step(Event::ReleaseInfo {
        result: Err("HTTP 404".to_string()),
    });
    assert!(matches!(a, Action::Halt));
    assert!(matches!(
        s.failure,
        Some(InstallError::ResolutionFailed { .. })
    ));
}

#[test]
fn wrong_archive_layout_keeps_prior_install_untouched() {
    // Two top-level entries in a direct-install archive: the run fails
    // with UnexpectedArchiveLayout and no action touching the fixed
    // install location is issued.
    let mut s = new_session(None);
    let _ = s.start();
    let _ = s.step(Event::LockAcquired);
    let cpp_release = GithubReleaseData {
        assets: vec![asset("riscv32im-linux-x86_64.tar.xz", "u")],
        tag_name: "2024.01.05".to_string(),
    };
    let _ = s.step(Event::ReleaseInfo {
        result: Ok(cpp_release),
    });
    let _ = s.step(Event::Downloaded {
        result: Ok("/tmp/a.tar.xz".to_string()),
    });
    let _ = s.step(ok());
    let _ = s.step(ok());
    let a = s.step(Event::DirListed {
        result: Ok(vec!["a".to_string(), "b".to_string()]),
    });
    assert!(matches!(a, Action::Halt));
    match &s.failure {
        Some(InstallError::UnexpectedArchiveLayout { entries }) => assert_eq!(*entries, 2),
        _ => panic!("expected UnexpectedArchiveLayout"),
    }
    assert!(!s.cpp_done);
}

#[test]
fn missing_compiler_entry_point_is_invalid_layout() {
    let mut s = new_session(None);
    let _ = s.start();
    let _ = s.step(Event::LockAcquired);
    let cpp_release = GithubReleaseData {
        assets: vec![asset("riscv32im-linux-x86_64.tar.xz", "u")],
        tag_name: "2024.01.05".to_string(),
    };
    let _ = s.step(Event::ReleaseInfo {
        result: Ok(cpp_release),
    });
    let _ = s.step(Event::Downloaded {
        result: Ok("/tmp/a.tar.xz".to_string()),
    });
    let _ = s.step(ok());
    let _ = s.step(ok());
    let _ = s.step(Event::DirListed {
        result: Ok(vec!["sub".to_string()]),
    });
    let _ = s.step(ok());
    let rust_release = GithubReleaseData {
        assets: vec![asset("rust-toolchain-x86_64-unknown-linux-gnu.tar.gz", "u2")],
        tag_name: "v2".to_string(),
    };
    let _ = s.step(Event::ReleaseInfo {
        result: Ok(rust_release),
    });
    let _ = s.step(Event::Downloaded {
        result: Ok("/tmp/b.tar.gz".to_string()),
    });
    let _ = s.step(ok());
    let _ = s.step(ok());
    let _ = s.step(ok());
    let a = s.step(Event::FileChecked { exists: false });
    assert!(matches!(a, Action::Halt));
    match &s.failure {
        Some(InstallError::InvalidToolchainLayout { rustc_path }) => assert_eq!(
            rustc_path,
            "/home/u/.rzup/toolchains/rust_x86_64-unknown-linux-gnu_v2/bin/rustc"
        ),
        _ => panic!("expected InvalidToolchainLayout"),
    }
    // The committed C++ family is reported, not rolled back.
    assert!(s.cpp_done);
    assert!(!s.rust_done);
}

#[test]
fn copy_failure_is_fatal_after_layout_check() {
    let mut s = new_session(None);
    let _ = s.start();
    let _ = s.step(Event::LockAcquired);
    let cpp_release = GithubReleaseData {
        assets: vec![asset("riscv32im-linux-x86_64.tar.xz", "u")],
        tag_name: "2024.01.05".to_string(),
    };
    let _ = s.step(Event::ReleaseInfo {
        result: Ok(cpp_release),
    });
    let _ = s.step(Event::Downloaded {
        result: Ok("/tmp/a.tar.xz".to_string()),
    });
    let _ = s.step(ok());
    let _ = s.step(ok());
    let _ = s.step(Event::DirListed {
        result: Ok(vec!["sub".to_string()]),
    });
    let a = s.step(Event::Completed {
        result: Err("permission denied".to_string()),
    });
    assert!(matches!(a, Action::Halt));
    assert!(matches!(
        s.failure,
        Some(InstallError::InstallCopyFailed { .. })
    ));
    assert!(!s.cpp_done);
}

#[test]
fn download_failure_is_fatal() {
    let mut s = new_session(None);
    let _ = s.start();
    let _ = s.step(Event::LockAcquired);
    let cpp_release = GithubReleaseData {
        assets: vec![asset("riscv32im-linux-x86_64.tar.xz", "u")],
        tag_name: "2024.01.05".to_string(),
    };
    let _ = s.step(Event::ReleaseInfo {
        result: Ok(cpp_release),
    });
    let a = s.step(Event::Downloaded {
        result: Err("connection reset".to_string()),
    });
    assert!(matches!(a, Action::Halt));
    assert!(matches!(s.failure, Some(InstallError::DownloadFailed { .. })));
}

#[test]
fn extraction_failure_is_fatal() {
    let mut s = new_session(None);
    let _ = s.start();
    let _ = s.step(Event::LockAcquired);
    let cpp_release = GithubReleaseData {
        assets: vec![asset("riscv32im-linux-x86_64.tar.xz", "u")],
        tag_name: "2024.01.05".to_string(),
    };
    let _ = s.step(Event::ReleaseInfo {
        result: Ok(cpp_release),
    });
    let _ = s.step(Event::Downloaded {
        result: Ok("/tmp/a.tar.xz".to_string()),
    });
    let _ = s.step(ok());
    let a = s.step(Event::Completed {
        result: Err("corrupt archive".to_string()),
    });
    assert!(matches!(a, Action::Halt));
    assert!(matches!(
        s.failure,
        Some(InstallError::ExtractionFailed { .. })
    ));
}

#[test]
fn link_failure_leaves_extracted_dir_and_aborts() {
    let mut s = new_session(None);
    let _ = s.start();
    let _ = s.step(Event::LockAcquired);
    let cpp_release = GithubReleaseData {
        assets: vec![asset("riscv32im-linux-x86_64.tar.xz", "u")],
        tag_name: "2024.01.05".to_string(),
    };
    let _ = s.step(Event::ReleaseInfo {
        result: Ok(cpp_release),
    });
    let _ = s.step(Event::Downloaded {
        result: Ok("/tmp/a.tar.xz".to_string()),
    });
    let _ = s.step(ok());
    let _ = s.step(ok());
    let _ = s.step(Event::DirListed {
        result: Ok(vec!["sub".to_string()]),
    });
    let _ = s.step(ok());
    let rust_release = GithubReleaseData {
        assets: vec![asset("rust-toolchain-x86_64-unknown-linux-gnu.tar.gz", "u2")],
        tag_name: "v2".to_string(),
    };
    let _ = s.step(Event::ReleaseInfo {
        result: Ok(rust_release),
    });
    let _ = s.step(Event::Downloaded {
        result: Ok("/tmp/b.tar.gz".to_string()),
    });
    let _ = s.step(ok());
    let _ = s.step(ok());
    let _ = s.step(ok());
    let _ = s.step(Event::FileChecked { exists: true });
    let _ = s.step(Event::CommandOutput {
        result: Ok("".to_string()),
    });
    // The chaining tool rejects the link: fatal, and the session issues
    // no cleanup of the extracted directory.
    let a = s.step(Event::Completed {
        result: Err("rustup exited with status 1".to_string()),
    });
    assert!(matches!(a, Action::Halt));
    assert!(matches!(s.failure, Some(InstallError::LinkFailed { .. })));
    assert!(!s.rust_done);
}

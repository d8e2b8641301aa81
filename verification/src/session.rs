//! The installation coordinator as an explicit state machine. One session
//! installs every toolchain family in a fixed order — the direct-install
//! cross toolchain first, then the chained compiler toolchain — under a
//! single exclusive lock acquired before any family processing and held
//! until the session ends. The session never performs I/O: each call of
//! `step` consumes the outcome of the previous action and decides the
//! next one. The first failure aborts the remaining sequence; families
//! already committed in this run are reported, never rolled back.

use vstd::pervasive::unreached;
use vstd::prelude::*;
use vstd::string::*;

use crate::dist::{
    archive_format_spec, asset_available_spec, asset_name_spec, release_query_url_spec,
    resolve_tag_spec, rust_bin_dir, rust_bin_dir_spec, rustlib_bin_dir, rustlib_bin_dir_spec,
    toolchain_dir_name, toolchain_dir_name_spec, url_spec, ArchiveFormat, InstallToolchain,
    ToolchainRepo,
};
use crate::error::InstallError;
use crate::link::{rustc_path, rustc_path_spec, toolchain_path_in_list_spec, CppToolchain,
    RustupToolchain};
use crate::release::{first_asset_url, has_asset, select_asset, GithubReleaseData};
use crate::text::{concat2, concat3};

verus! {

/// One I/O operation the driver must perform next. The filesystem effects
/// of `ClearDir` + `Unpack` and of `CopyDirReplace` are specified by
/// `crate::fsmodel::extract_effect`; the registry effect of `RustupLink`
/// by `crate::fsmodel::link_effect`.
pub enum Action {
    /// Take the exclusive advisory lock on this lock file, creating it if
    /// needed; answer `LockAcquired` or `LockBusy`.
    AcquireLock { path: String },
    /// GET this release-index query and decode the JSON body into the
    /// release's tag and asset list; answer `ReleaseInfo`.
    FetchReleaseInfo { url: String },
    /// Download the asset at this URL into scratch storage removed when
    /// the run ends; answer `Downloaded` with the local file path.
    DownloadAsset { url: String },
    /// Remove the directory tree at this path if it exists; answer
    /// `Completed`.
    ClearDir { path: String },
    /// Unpack the archive file through the format's decoder into `dest`;
    /// answer `Completed`.
    Unpack { archive: String, format: ArchiveFormat, dest: String },
    /// Set mode 0755 on every regular file directly inside these two
    /// directories; answer `Completed`.
    SetExecutable { bin_dir: String, rustlib_bin_dir: String },
    /// Report whether a regular file exists at this path; answer
    /// `FileChecked`.
    CheckFile { path: String },
    /// List the names of the top-level entries of this directory; answer
    /// `DirListed`.
    ListDir { path: String },
    /// Run the chaining tool's verbose listing; answer `CommandOutput`
    /// with its standard output.
    RustupList,
    /// Ask the chaining tool to unregister this toolchain name; answer
    /// `Completed`.
    RustupRemove { name: String },
    /// Ask the chaining tool to register `dir` under `name`; answer
    /// `Completed`.
    RustupLink { name: String, dir: String },
    /// Replace the tree at `to` with the tree at `from`; answer
    /// `Completed`.
    CopyDirReplace { from: String, to: String },
    /// The session is over; release the lock if it was taken and report
    /// the outcome.
    Halt,
}

/// The driver's report of one performed action. Error payloads carry the
/// underlying OS/HTTP detail verbatim.
pub enum Event {
    LockAcquired,
    LockBusy,
    ReleaseInfo { result: Result<GithubReleaseData, String> },
    Downloaded { result: Result<String, String> },
    Completed { result: Result<(), String> },
    FileChecked { exists: bool },
    DirListed { result: Result<Vec<String>, String> },
    CommandOutput { result: Result<String, String> },
}

/// Where a session stands; `Failed` keeps its error in the session's
/// `failure` field.
#[derive(Clone, Copy, PartialEq, Eq, Structural, Debug)]
pub enum Phase {
    Idle,
    Locking,
    Resolving,
    Fetching,
    Clearing,
    Unpacking,
    FixingPermissions,
    CheckingLayout,
    ListingToolchains,
    RemovingOld,
    Linking,
    ListingArchive,
    Installing,
    Done,
    Failed,
}

/// A phase that mutates or is about to mutate the shared toolchain root.
pub open spec fn working_phase(p: Phase) -> bool {
    !(p is Idle || p is Locking || p is Done || p is Failed)
}

/// An action that mutates the shared toolchain root or the chaining
/// tool's registry. Downloads land in private scratch storage and do not
/// count.
pub open spec fn action_mutates(a: Action) -> bool {
    ||| a is ClearDir
    ||| a is Unpack
    ||| a is SetExecutable
    ||| a is RustupRemove
    ||| a is RustupLink
    ||| a is CopyDirReplace
}

pub open spec fn version_view(v: Option<String>) -> Option<Seq<char>> {
    match v {
        Some(s) => Some(s@),
        None => None,
    }
}

pub open spec fn lockfile_path_spec(root: Seq<char>) -> Seq<char> {
    root + "/rustup-lock"@
}

/// The deterministic extraction directory of one (family, platform, tag).
pub open spec fn dest_dir_spec(
    root: Seq<char>,
    f: ToolchainRepo,
    target: Seq<char>,
    tag: Seq<char>,
) -> Seq<char> {
    root + "/toolchains/"@ + toolchain_dir_name_spec(f, target, tag)
}

pub open spec fn cpp_install_dir_spec(root: Seq<char>) -> Seq<char> {
    root + "/cpp"@
}

/// The event kinds a phase is waiting for.
pub open spec fn event_fits(p: Phase, e: Event) -> bool {
    match p {
        Phase::Idle => false,
        Phase::Locking => e is LockAcquired || e is LockBusy,
        Phase::Resolving => e is ReleaseInfo,
        Phase::Fetching => e is Downloaded,
        Phase::Clearing => e is Completed,
        Phase::Unpacking => e is Completed,
        Phase::FixingPermissions => e is Completed,
        Phase::CheckingLayout => e is FileChecked,
        Phase::ListingToolchains => e is CommandOutput,
        Phase::RemovingOld => e is Completed,
        Phase::Linking => e is Completed,
        Phase::ListingArchive => e is DirListed,
        Phase::Installing => e is Completed,
        Phase::Done => false,
        Phase::Failed => false,
    }
}

pub struct InstallSession {
    pub phase: Phase,
    /// The family currently being processed.
    pub family: ToolchainRepo,
    /// The caller's version selector for the primary toolchain family.
    pub version: Option<String>,
    /// The host target triple, fixed for the whole session.
    pub target: String,
    /// The toolchain root directory.
    pub root_dir: String,
    /// Whether the exclusive lock has been acquired in this session.
    pub locked: bool,
    /// The current family's resolved release tag.
    pub tag: String,
    /// The download URL of the current family's chosen asset.
    pub url: String,
    /// The local path of the downloaded archive.
    pub archive: String,
    /// The current family's extraction directory.
    pub dest: String,
    /// The error that ended the session, once `phase` is `Failed`.
    pub failure: Option<InstallError>,
    /// Families already fully committed in this run; a later failure does
    /// not roll them back.
    pub cpp_done: bool,
    pub rust_done: bool,
}

pub open spec fn same_config(pre: InstallSession, post: InstallSession) -> bool {
    &&& post.version == pre.version
    &&& post.target == pre.target
    &&& post.root_dir == pre.root_dir
}

pub open spec fn keeps_progress(pre: InstallSession, post: InstallSession) -> bool {
    &&& post.cpp_done == pre.cpp_done
    &&& post.rust_done == pre.rust_done
}

pub open spec fn keeps_store(pre: InstallSession, post: InstallSession) -> bool {
    &&& post.family == pre.family
    &&& post.tag == pre.tag
    &&& post.url == pre.url
    &&& post.archive == pre.archive
    &&& post.dest == pre.dest
}

/// The session aborts: the phase becomes `Failed`, nothing else of the
/// session changes, and the driver is told to stop.
pub open spec fn fail_frame(pre: InstallSession, post: InstallSession, a: Action) -> bool {
    &&& same_config(pre, post)
    &&& keeps_progress(pre, post)
    &&& keeps_store(pre, post)
    &&& post.locked == pre.locked
    &&& post.phase == Phase::Failed
    &&& post.failure is Some
    &&& a is Halt
}

/// The session advances without committing or failing anything.
pub open spec fn advance_frame(pre: InstallSession, post: InstallSession) -> bool {
    &&& same_config(pre, post)
    &&& keeps_progress(pre, post)
    &&& post.locked == pre.locked
    &&& post.failure is None
}

pub open spec fn resolve_action_matches(a: Action, f: ToolchainRepo, v: Option<String>) -> bool {
    a matches Action::FetchReleaseInfo { url } && url@ == release_query_url_spec(
        url_spec(f),
        resolve_tag_spec(f, version_view(v)),
    )
}

pub open spec fn rustup_link_action_matches(a: Action, pre: InstallSession) -> bool {
    a matches Action::RustupLink { name, dir } && name@ == "risc0"@ && dir@ == pre.dest@
}

/// The full transition relation of one `step` call.
pub open spec fn step_relation(
    pre: InstallSession,
    event: Event,
    post: InstallSession,
    a: Action,
) -> bool {
    match pre.phase {
        Phase::Locking => match event {
            Event::LockAcquired => {
                &&& same_config(pre, post)
                &&& keeps_progress(pre, post)
                &&& post.tag == pre.tag
                &&& post.url == pre.url
                &&& post.archive == pre.archive
                &&& post.dest == pre.dest
                &&& post.locked
                &&& post.failure is None
                &&& post.phase == Phase::Resolving
                &&& post.family == ToolchainRepo::Cpp
                &&& resolve_action_matches(a, ToolchainRepo::Cpp, pre.version)
            },
            Event::LockBusy => {
                &&& fail_frame(pre, post, a)
                &&& (post.failure matches Some(e) && e is LockUnavailable)
            },
            _ => false,
        },
        Phase::Resolving => match event {
            Event::ReleaseInfo { result } => match result {
                Ok(data) => {
                    if has_asset(data.assets@, asset_name_spec(pre.family, pre.target@)) {
                        &&& advance_frame(pre, post)
                        &&& post.phase == Phase::Fetching
                        &&& post.family == pre.family
                        &&& post.tag@ == data.tag_name@
                        &&& first_asset_url(
                            data.assets@,
                            asset_name_spec(pre.family, pre.target@),
                            post.url@,
                        )
                        &&& post.archive == pre.archive
                        &&& post.dest == pre.dest
                        &&& (a matches Action::DownloadAsset { url } && url@ == post.url@)
                    } else {
                        &&& fail_frame(pre, post, a)
                        &&& (post.failure matches Some(e) && (e matches
                            InstallError::UnsupportedPlatform { tag, target } && tag@
                            == data.tag_name@ && target@ == pre.target@))
                    }
                },
                Err(d) => {
                    &&& fail_frame(pre, post, a)
                    &&& (post.failure matches Some(e) && (e matches
                        InstallError::ResolutionFailed { detail } && detail@ == d@))
                },
            },
            _ => false,
        },
        Phase::Fetching => match event {
            Event::Downloaded { result } => match result {
                Ok(path) => {
                    &&& advance_frame(pre, post)
                    &&& post.phase == Phase::Clearing
                    &&& post.family == pre.family
                    &&& post.tag == pre.tag
                    &&& post.url == pre.url
                    &&& post.archive@ == path@
                    &&& post.dest@ == dest_dir_spec(
                        pre.root_dir@,
                        pre.family,
                        pre.target@,
                        pre.tag@,
                    )
                    &&& (a matches Action::ClearDir { path: p } && p@ == post.dest@)
                },
                Err(d) => {
                    &&& fail_frame(pre, post, a)
                    &&& (post.failure matches Some(e) && (e matches
                        InstallError::DownloadFailed { detail } && detail@ == d@))
                },
            },
            _ => false,
        },
        Phase::Clearing => match event {
            Event::Completed { result } => match result {
                Ok(u) => {
                    &&& advance_frame(pre, post)
                    &&& keeps_store(pre, post)
                    &&& post.phase == Phase::Unpacking
                    &&& (a matches Action::Unpack { archive, format, dest } && archive@
                        == pre.archive@ && format == archive_format_spec(pre.family) && dest@
                        == pre.dest@)
                },
                Err(d) => {
                    &&& fail_frame(pre, post, a)
                    &&& (post.failure matches Some(e) && (e matches
                        InstallError::ExtractionFailed { detail } && detail@ == d@))
                },
            },
            _ => false,
        },
        Phase::Unpacking => match event {
            Event::Completed { result } => match result {
                Ok(u) => {
                    &&& advance_frame(pre, post)
                    &&& keeps_store(pre, post)
                    &&& (pre.family is Rust ==> {
                        &&& post.phase == Phase::FixingPermissions
                        &&& (a matches Action::SetExecutable { bin_dir, rustlib_bin_dir }
                            && bin_dir@ == rust_bin_dir_spec(pre.dest@) && rustlib_bin_dir@
                            == rustlib_bin_dir_spec(pre.dest@, pre.target@))
                    })
                    &&& (pre.family is Cpp ==> {
                        &&& post.phase == Phase::ListingArchive
                        &&& (a matches Action::ListDir { path } && path@ == pre.dest@)
                    })
                },
                Err(d) => {
                    &&& fail_frame(pre, post, a)
                    &&& (post.failure matches Some(e) && (e matches
                        InstallError::ExtractionFailed { detail } && detail@ == d@))
                },
            },
            _ => false,
        },
        Phase::FixingPermissions => match event {
            Event::Completed { result } => match result {
                Ok(u) => {
                    &&& advance_frame(pre, post)
                    &&& keeps_store(pre, post)
                    &&& post.phase == Phase::CheckingLayout
                    &&& (a matches Action::CheckFile { path } && path@ == rustc_path_spec(
                        pre.dest@,
                        false,
                    ))
                },
                Err(d) => {
                    &&& fail_frame(pre, post, a)
                    &&& (post.failure matches Some(e) && (e matches
                        InstallError::ExtractionFailed { detail } && detail@ == d@))
                },
            },
            _ => false,
        },
        Phase::CheckingLayout => match event {
            Event::FileChecked { exists } => {
                if exists {
                    &&& advance_frame(pre, post)
                    &&& keeps_store(pre, post)
                    &&& post.phase == Phase::ListingToolchains
                    &&& a is RustupList
                } else {
                    &&& fail_frame(pre, post, a)
                    &&& (post.failure matches Some(e) && (e matches
                        InstallError::InvalidToolchainLayout { rustc_path } && rustc_path@
                        == rustc_path_spec(pre.dest@, false)))
                }
            },
            _ => false,
        },
        Phase::ListingToolchains => match event {
            Event::CommandOutput { result } => match result {
                Ok(out) => {
                    if toolchain_path_in_list_spec(out@, "risc0"@) is Some {
                        &&& advance_frame(pre, post)
                        &&& keeps_store(pre, post)
                        &&& post.phase == Phase::RemovingOld
                        &&& (a matches Action::RustupRemove { name } && name@ == "risc0"@)
                    } else {
                        &&& advance_frame(pre, post)
                        &&& keeps_store(pre, post)
                        &&& post.phase == Phase::Linking
                        &&& rustup_link_action_matches(a, pre)
                    }
                },
                Err(d) => {
                    &&& fail_frame(pre, post, a)
                    &&& (post.failure matches Some(e) && (e matches InstallError::LinkFailed {
                        detail,
                    } && detail@ == d@))
                },
            },
            _ => false,
        },
        Phase::RemovingOld => match event {
            Event::Completed { result } => match result {
                Ok(u) => {
                    &&& advance_frame(pre, post)
                    &&& keeps_store(pre, post)
                    &&& post.phase == Phase::Linking
                    &&& rustup_link_action_matches(a, pre)
                },
                Err(d) => {
                    &&& fail_frame(pre, post, a)
                    &&& (post.failure matches Some(e) && (e matches InstallError::LinkFailed {
                        detail,
                    } && detail@ == d@))
                },
            },
            _ => false,
        },
        Phase::Linking => match event {
            Event::Completed { result } => match result {
                Ok(u) => {
                    &&& same_config(pre, post)
                    &&& keeps_store(pre, post)
                    &&& post.locked == pre.locked
                    &&& post.failure is None
                    &&& post.phase == Phase::Done
                    &&& post.rust_done
                    &&& post.cpp_done == pre.cpp_done
                    &&& a is Halt
                },
                // The freshly extracted directory is left on disk for
                // diagnosis: no cleanup action is issued.
                Err(d) => {
                    &&& fail_frame(pre, post, a)
                    &&& (post.failure matches Some(e) && (e matches InstallError::LinkFailed {
                        detail,
                    } && detail@ == d@))
                },
            },
            _ => false,
        },
        Phase::ListingArchive => match event {
            Event::DirListed { result } => match result {
                Ok(entries) => {
                    if entries@.len() == 1 {
                        &&& advance_frame(pre, post)
                        &&& keeps_store(pre, post)
                        &&& post.phase == Phase::Installing
                        &&& (a matches Action::CopyDirReplace { from, to } && from@ == pre.dest@
                            + "/"@ + entries@[0]@ && to@ == cpp_install_dir_spec(pre.root_dir@))
                    } else {
                        &&& fail_frame(pre, post, a)
                        &&& (post.failure matches Some(e) && (e matches
                            InstallError::UnexpectedArchiveLayout { entries: n } && n
                            == entries@.len()))
                    }
                },
                Err(d) => {
                    &&& fail_frame(pre, post, a)
                    &&& (post.failure matches Some(e) && (e matches
                        InstallError::InstallCopyFailed { detail } && detail@ == d@))
                },
            },
            _ => false,
        },
        Phase::Installing => match event {
            Event::Completed { result } => match result {
                Ok(u) => {
                    &&& same_config(pre, post)
                    &&& post.locked == pre.locked
                    &&& post.failure is None
                    &&& post.cpp_done
                    &&& post.rust_done == pre.rust_done
                    &&& post.phase == Phase::Resolving
                    &&& post.family == ToolchainRepo::Rust
                    &&& post.tag == pre.tag
                    &&& post.url == pre.url
                    &&& post.archive == pre.archive
                    &&& post.dest == pre.dest
                    &&& resolve_action_matches(a, ToolchainRepo::Rust, pre.version)
                },
                Err(d) => {
                    &&& fail_frame(pre, post, a)
                    &&& (post.failure matches Some(e) && (e matches
                        InstallError::InstallCopyFailed { detail } && detail@ == d@))
                },
            },
            _ => false,
        },
        _ => false,
    }
}

/// One step preserves the session invariant and the lock: the lock is
/// never given up mid-run, it is gained only by a `LockAcquired` answer,
/// and an action that mutates the shared toolchain root is only ever
/// issued with the lock already held.
pub proof fn lemma_step_invariants(
    pre: InstallSession,
    e: Event,
    post: InstallSession,
    a: Action,
)
    requires
        pre.wf(),
        step_relation(pre, e, post, a),
    ensures
        post.wf(),
        pre.locked ==> post.locked,
        post.locked ==> pre.locked || e is LockAcquired,
        action_mutates(a) ==> pre.locked && post.locked,
{
}

pub open spec fn is_lock_acquired(e: Event) -> bool {
    e is LockAcquired
}

/// A driver run: `states[0]` is the starting session and each event in
/// turn steps `states[i]` to `states[i + 1]`, issuing `actions[i]`.
pub open spec fn trace_ok(
    states: Seq<InstallSession>,
    events: Seq<Event>,
    actions: Seq<Action>,
) -> bool {
    &&& states.len() == events.len() + 1
    &&& actions.len() == events.len()
    &&& forall|i: int|
        0 <= i < events.len() ==> #[trigger] step_relation(
            states[i],
            events[i],
            states[i + 1],
            actions[i],
        )
}

/// Every state reached in a run from a well-formed session is well
/// formed.
pub proof fn lemma_trace_wf(
    states: Seq<InstallSession>,
    events: Seq<Event>,
    actions: Seq<Action>,
    i: int,
)
    requires
        trace_ok(states, events, actions),
        states[0].wf(),
        0 <= i < states.len(),
    ensures
        states[i].wf(),
    decreases i,
{
    if i > 0 {
        lemma_trace_wf(states, events, actions, i - 1);
        let k = i - 1;
        assert(step_relation(states[k], events[k], states[k + 1], actions[k]));
        lemma_step_invariants(states[k], events[k], states[k + 1], actions[k]);
    }
}

proof fn lemma_trace_locked_origin(
    states: Seq<InstallSession>,
    events: Seq<Event>,
    actions: Seq<Action>,
    i: int,
)
    requires
        trace_ok(states, events, actions),
        states[0].wf(),
        !states[0].locked,
        0 <= i < states.len(),
        states[i].locked,
    ensures
        exists|j: int| 0 <= j < i && #[trigger] is_lock_acquired(events[j]),
    decreases i,
{
    let k = i - 1;
    lemma_trace_wf(states, events, actions, k);
    assert(step_relation(states[k], events[k], states[k + 1], actions[k]));
    lemma_step_invariants(states[k], events[k], states[k + 1], actions[k]);
    if is_lock_acquired(events[k]) {
        assert(0 <= k < i && is_lock_acquired(events[k]));
    } else {
        lemma_trace_locked_origin(states, events, actions, k);
    }
}

/// The mutual-exclusion discipline over a whole run: starting without the
/// lock, no action that mutates the shared toolchain root is ever issued
/// unless the exclusive lock was granted earlier in the same run.
pub proof fn lemma_trace_lock_discipline(
    states: Seq<InstallSession>,
    events: Seq<Event>,
    actions: Seq<Action>,
    i: int,
)
    requires
        trace_ok(states, events, actions),
        states[0].wf(),
        !states[0].locked,
        0 <= i < actions.len(),
        action_mutates(actions[i]),
    ensures
        exists|j: int| 0 <= j < i && #[trigger] is_lock_acquired(events[j]),
{
    lemma_trace_wf(states, events, actions, i);
    assert(step_relation(states[i], events[i], states[i + 1], actions[i]));
    lemma_step_invariants(states[i], events[i], states[i + 1], actions[i]);
    lemma_trace_locked_origin(states, events, actions, i);
}

/// A release that resolves but carries no asset named for this (family,
/// platform) pair ends the family's install at once with
/// `UnsupportedPlatform`, naming the release tag and the platform: no
/// download is started and nothing on disk is touched. With the asset
/// present, resolution always proceeds to exactly its download.
pub proof fn lemma_resolution_outcome(
    pre: InstallSession,
    data: GithubReleaseData,
    post: InstallSession,
    a: Action,
)
    requires
        pre.phase is Resolving,
        step_relation(pre, Event::ReleaseInfo { result: Ok(data) }, post, a),
    ensures
        !has_asset(data.assets@, asset_name_spec(pre.family, pre.target@)) ==> {
            &&& post.phase is Failed
            &&& (post.failure matches Some(e) && (e matches InstallError::UnsupportedPlatform {
                tag,
                target,
            } && tag@ == data.tag_name@ && target@ == pre.target@))
            &&& a is Halt
            &&& !action_mutates(a)
        },
        has_asset(data.assets@, asset_name_spec(pre.family, pre.target@)) ==> {
            &&& post.phase is Fetching
            &&& (a matches Action::DownloadAsset { url } && first_asset_url(
                data.assets@,
                asset_name_spec(pre.family, pre.target@),
                url@,
            ))
        },
{
}

/// The lock is honoured: a session answered `LockBusy` ends at once with
/// `LockUnavailable` — it never proceeds into any working phase — and a
/// session that was never granted the lock is in no working phase at all.
pub proof fn lemma_lock_busy_aborts(
    pre: InstallSession,
    post: InstallSession,
    a: Action,
)
    requires
        pre.phase is Locking,
        step_relation(pre, Event::LockBusy, post, a),
    ensures
        post.phase is Failed,
        post.failure matches Some(e) && e is LockUnavailable,
        a is Halt,
        !working_phase(post.phase),
{
}

impl InstallSession {
    /// The session's invariant: the host is one for which every family
    /// has prebuilt assets, a failure is recorded exactly in the failed
    /// phase, and no working phase is reached without the lock.
    pub open spec fn wf(self) -> bool {
        &&& asset_available_spec(ToolchainRepo::Cpp, self.target@)
        &&& (self.failure is Some <==> self.phase is Failed)
        &&& (working_phase(self.phase) ==> self.locked)
    }

    pub fn new(install: InstallToolchain, target: String, root_dir: String) -> (s: InstallSession)
        requires
            asset_available_spec(ToolchainRepo::Cpp, target@),
        ensures
            s.wf(),
            s.phase == Phase::Idle,
            !s.locked,
            s.failure is None,
            s.version == install.version,
            s.target == target,
            s.root_dir == root_dir,
            !s.cpp_done,
            !s.rust_done,
    {
        InstallSession {
            phase: Phase::Idle,
            family: ToolchainRepo::Cpp,
            version: install.version,
            target,
            root_dir,
            locked: false,
            tag: String::new(),
            url: String::new(),
            archive: String::new(),
            dest: String::new(),
            failure: None,
            cpp_done: false,
            rust_done: false,
        }
    }

    /// Begin the run: the very first action is taking the exclusive lock;
    /// no family is processed before it is granted.
    pub fn start(&mut self) -> (a: Action)
        requires
            old(self).wf(),
            old(self).phase == Phase::Idle,
        ensures
            final(self).wf(),
            final(self).phase == Phase::Locking,
            same_config(*old(self), *final(self)),
            keeps_progress(*old(self), *final(self)),
            keeps_store(*old(self), *final(self)),
            final(self).locked == old(self).locked,
            final(self).failure is None,
            (a matches Action::AcquireLock { path } && path@ == lockfile_path_spec(
                old(self).root_dir@,
            )),
    {
        self.phase = Phase::Locking;
        let path = concat2(self.root_dir.as_str(), "/rustup-lock");
        Action::AcquireLock { path }
    }

    fn resolve_action(&self) -> (a: Action)
        ensures
            resolve_action_matches(a, self.family, self.version),
    {
        let url = match &self.version {
            Some(v) => self.family.release_query_url(Some(v.as_str())),
            None => self.family.release_query_url(None),
        };
        Action::FetchReleaseInfo { url }
    }

    fn fail(&mut self, e: InstallError) -> (a: Action)
        ensures
            fail_frame(*old(self), *final(self), a),
            final(self).failure matches Some(f) && f == e,
    {
        self.phase = Phase::Failed;
        self.failure = Some(e);
        Action::Halt
    }

    /// Consume the outcome of the previous action and decide the next
    /// one. A session that has not acquired the lock never issues an
    /// action mutating the shared toolchain root; the lock is acquired
    /// only by the `LockAcquired` answer to `AcquireLock`, and a busy
    /// lock ends the run with `LockUnavailable`.
    pub fn step(&mut self, event: Event) -> (a: Action)
        requires
            old(self).wf(),
            event_fits(old(self).phase, event),
        ensures
            final(self).wf(),
            step_relation(*old(self), event, *final(self), a),
            !old(self).locked ==> !action_mutates(a),
            final(self).locked == (old(self).locked || (old(self).phase is Locking
                && event is LockAcquired)),
    {
        match self.phase {
            Phase::Locking => match event {
                Event::LockAcquired => {
                    self.locked = true;
                    self.family = ToolchainRepo::Cpp;
                    self.phase = Phase::Resolving;
                    self.resolve_action()
                },
                Event::LockBusy => self.fail(InstallError::LockUnavailable),
                _ => unreached(),
            },
            Phase::Resolving => match event {
                Event::ReleaseInfo { result } => match result {
                    Ok(data) => {
                        match select_asset(&data, &self.family, self.target.as_str()) {
                            Ok(pair) => {
                                let (tag, url) = pair;
                                self.tag = tag;
                                self.url = url.clone();
                                self.phase = Phase::Fetching;
                                Action::DownloadAsset { url }
                            },
                            Err(e) => self.fail(e),
                        }
                    },
                    Err(d) => self.fail(InstallError::ResolutionFailed { detail: d }),
                },
                _ => unreached(),
            },
            Phase::Fetching => match event {
                Event::Downloaded { result } => match result {
                    Ok(path) => {
                        self.archive = path;
                        let dname = toolchain_dir_name(
                            &self.family,
                            self.target.as_str(),
                            self.tag.as_str(),
                        );
                        let dest = concat3(self.root_dir.as_str(), "/toolchains/", dname.as_str());
                        self.dest = dest.clone();
                        self.phase = Phase::Clearing;
                        Action::ClearDir { path: dest }
                    },
                    Err(d) => self.fail(InstallError::DownloadFailed { detail: d }),
                },
                _ => unreached(),
            },
            Phase::Clearing => match event {
                Event::Completed { result } => match result {
                    Ok(_u) => {
                        self.phase = Phase::Unpacking;
                        Action::Unpack {
                            archive: self.archive.clone(),
                            format: self.family.archive_format(),
                            dest: self.dest.clone(),
                        }
                    },
                    Err(d) => self.fail(InstallError::ExtractionFailed { detail: d }),
                },
                _ => unreached(),
            },
            Phase::Unpacking => match event {
                Event::Completed { result } => match result {
                    Ok(_u) => match self.family {
                        ToolchainRepo::Rust => {
                            self.phase = Phase::FixingPermissions;
                            Action::SetExecutable {
                                bin_dir: rust_bin_dir(self.dest.as_str()),
                                rustlib_bin_dir: rustlib_bin_dir(
                                    self.dest.as_str(),
                                    self.target.as_str(),
                                ),
                            }
                        },
                        ToolchainRepo::Cpp => {
                            self.phase = Phase::ListingArchive;
                            Action::ListDir { path: self.dest.clone() }
                        },
                    },
                    Err(d) => self.fail(InstallError::ExtractionFailed { detail: d }),
                },
                _ => unreached(),
            },
            Phase::FixingPermissions => match event {
                Event::Completed { result } => match result {
                    Ok(_u) => {
                        self.phase = Phase::CheckingLayout;
                        Action::CheckFile { path: rustc_path(self.dest.as_str(), false) }
                    },
                    Err(d) => self.fail(InstallError::ExtractionFailed { detail: d }),
                },
                _ => unreached(),
            },
            Phase::CheckingLayout => match event {
                Event::FileChecked { exists } => {
                    if exists {
                        self.phase = Phase::ListingToolchains;
                        Action::RustupList
                    } else {
                        let p = rustc_path(self.dest.as_str(), false);
                        self.fail(InstallError::InvalidToolchainLayout { rustc_path: p })
                    }
                },
                _ => unreached(),
            },
            Phase::ListingToolchains => match event {
                Event::CommandOutput { result } => match result {
                    Ok(out) => {
                        match RustupToolchain::find_by_name(out.as_str(), "risc0") {
                            Some(_t) => {
                                self.phase = Phase::RemovingOld;
                                Action::RustupRemove { name: String::from_str("risc0") }
                            },
                            None => {
                                self.phase = Phase::Linking;
                                Action::RustupLink {
                                    name: String::from_str("risc0"),
                                    dir: self.dest.clone(),
                                }
                            },
                        }
                    },
                    Err(d) => self.fail(InstallError::LinkFailed { detail: d }),
                },
                _ => unreached(),
            },
            Phase::RemovingOld => match event {
                Event::Completed { result } => match result {
                    Ok(_u) => {
                        self.phase = Phase::Linking;
                        Action::RustupLink {
                            name: String::from_str("risc0"),
                            dir: self.dest.clone(),
                        }
                    },
                    Err(d) => self.fail(InstallError::LinkFailed { detail: d }),
                },
                _ => unreached(),
            },
            Phase::Linking => match event {
                Event::Completed { result } => match result {
                    Ok(_u) => {
                        self.rust_done = true;
                        self.phase = Phase::Done;
                        Action::Halt
                    },
                    Err(d) => self.fail(InstallError::LinkFailed { detail: d }),
                },
                _ => unreached(),
            },
            Phase::ListingArchive => match event {
                Event::DirListed { result } => match result {
                    Ok(entries) => {
                        match CppToolchain::get_subdir(&entries) {
                            Ok(sub) => {
                                let from = concat3(self.dest.as_str(), "/", sub.as_str());
                                let to = concat2(self.root_dir.as_str(), "/cpp");
                                self.phase = Phase::Installing;
                                Action::CopyDirReplace { from, to }
                            },
                            Err(e) => self.fail(e),
                        }
                    },
                    Err(d) => self.fail(InstallError::InstallCopyFailed { detail: d }),
                },
                _ => unreached(),
            },
            Phase::Installing => match event {
                Event::Completed { result } => match result {
                    Ok(_u) => {
                        self.cpp_done = true;
                        self.family = ToolchainRepo::Rust;
                        self.phase = Phase::Resolving;
                        self.resolve_action()
                    },
                    Err(d) => self.fail(InstallError::InstallCopyFailed { detail: d }),
                },
                _ => unreached(),
            },
            Phase::Idle => unreached(),
            Phase::Done => unreached(),
            Phase::Failed => unreached(),
        }
    }
}

} // verus!

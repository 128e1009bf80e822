//! The vocabulary shared by the installation state machines and their host.
//!
//! The installation logic never touches the disk or the network itself. Each
//! call of a state machine takes the host's answer to the previous request
//! (an [`Event`]) and hands back either the next request (an [`Action`]) with
//! the state to resume from, or the final result. The host performs the
//! action and calls again.

use vstd::prelude::*;

verus! {

/// A lifecycle message for the notification sink.
///
/// Delivery is advisory: whatever the host answers to a notification, the
/// installation goes on as if it had been delivered.
#[derive(Clone, Copy, Debug, PartialEq, Eq)]
pub enum Notification<'a> {
    /// A toolchain that has no version yet is about to be installed.
    InstallingToolchain { name: &'a str },
    /// A toolchain that already has a version is about to be updated.
    UpdatingToolchain { name: &'a str },
    /// The directory that the toolchain resolves to.
    ToolchainDirectory { path: &'a str, name: &'a str },
    /// An archive is about to be unpacked for the target path.
    Extracting { src: &'a str, path: &'a str },
    /// The run changed the toolchain.
    InstalledToolchain { name: &'a str },
    /// The recorded hash still matches: there was nothing to do.
    UpdateHashMatches,
}

/// Where downloads for a distribution install come from and go to.
#[derive(Clone, Copy, Debug, PartialEq, Eq)]
pub struct DownloadCfg<'a> {
    pub dist_root: &'a str,
    pub temp_dir: &'a str,
    pub download_dir: &'a str,
}

/// One request to the host.
#[derive(Debug, PartialEq, Eq)]
pub enum Action<'a> {
    /// Hand the message to the notification sink. Any answer will do.
    Notify(Notification<'a>),
    /// Report the version of the toolchain at `path`, if one is installed
    /// there. Answered by [`Event::Version`].
    QueryVersion { path: &'a str },
    /// Report whether `path` exists. Answered by [`Event::Exists`].
    QueryPath { path: &'a str },
    /// Delete `path` and everything below it.
    RemoveDir { path: &'a str },
    /// Copy the tree at `src` to `dst`.
    CopyDir { src: &'a str, dst: &'a str },
    /// Make `dst` a symbolic link to `src`.
    SymlinkDir { src: &'a str, dst: &'a str },
    /// Open the components ledger of `prefix`, read the gzip-compressed tar
    /// archive at `src` into the workspace `temp_dir`, and begin a
    /// transaction rooted at `prefix`. Answered by [`Event::Components`]
    /// with the package's components in their declared order.
    OpenPackage { src: &'a str, prefix: &'a str, temp_dir: &'a str },
    /// Stage the named component of the open package into the open
    /// transaction and record it in the ledger. Nothing becomes visible at
    /// the target path.
    InstallComponent { name: String },
    /// Commit the open transaction: everything staged becomes visible at the
    /// target path at once.
    Commit,
    /// Resolve the distribution channel and apply whatever it takes to bring
    /// `prefix` to the resolved state. Answered by [`Event::Resolved`] with
    /// the new hash, or with none when the recorded hash still matches.
    UpdateFromDist {
        dl_cfg: DownloadCfg<'a>,
        update_hash: Option<&'a str>,
        desc: &'a str,
        profile: Option<&'a str>,
        prefix: &'a str,
        force_update: bool,
        allow_downgrade: bool,
        old_date: Option<&'a str>,
        components: &'a [&'a str],
        targets: &'a [&'a str],
    },
    /// Overwrite the hash file with `hash`.
    WriteHash { file: &'a str, hash: String },
}

/// The host's answer to the previous request.
#[derive(Debug, PartialEq, Eq)]
pub enum Event {
    /// Nothing has been requested yet.
    Begin,
    /// The action succeeded and has nothing to report.
    Done,
    /// The action failed.
    Failed,
    /// Whether the queried path exists.
    Exists(bool),
    /// The installed version, if the toolchain exists.
    Version(Option<String>),
    /// The components of the opened package, in install order.
    Components(Vec<String>),
    /// The new hash after an update, or none if nothing changed.
    Resolved(Option<String>),
}

/// Why an installation stopped. Each kind names the operation that failed
/// and the path or component it failed on.
#[derive(Debug, PartialEq, Eq)]
pub enum InstallError<'a> {
    PathRemovalFailed { path: &'a str },
    CopyFailed { path: &'a str },
    SymlinkFailed { path: &'a str },
    ArchiveReadFailed { path: &'a str },
    ComponentInstallFailed { component: String },
    TransactionCommitFailed { path: &'a str },
    DistResolutionFailed { path: &'a str },
    HashFilePersistFailed { path: &'a str },
}

/// What a state machine hands back: the next request together with the state
/// to resume from, or the final result. After `Finish` there is no state
/// left to resume.
#[derive(Debug, PartialEq, Eq)]
pub enum Step<'a, S, T> {
    Request { action: Action<'a>, next: S },
    Finish(Result<T, InstallError<'a>>),
}

impl<'a> Action<'a> {
    /// Whether performing this action can change what is visible at `path`.
    ///
    /// Staging a component and opening a package work in the temporary
    /// workspace only; the hash file lies outside the target path.
    pub open spec fn alters(self, path: &str) -> bool {
        match self {
            Action::RemoveDir { path: p } => p == path,
            Action::CopyDir { dst, .. } => dst == path,
            Action::SymlinkDir { dst, .. } => dst == path,
            Action::Commit => true,
            Action::UpdateFromDist { prefix, .. } => prefix == path,
            _ => false,
        }
    }

    /// The error that a failure of this action raises. Queries and
    /// notifications raise none.
    pub open spec fn failure(self, path: &'a str) -> Option<InstallError<'a>> {
        match self {
            Action::RemoveDir { path: p } => Some(InstallError::PathRemovalFailed { path: p }),
            Action::CopyDir { dst, .. } => Some(InstallError::CopyFailed { path: dst }),
            Action::SymlinkDir { dst, .. } => Some(InstallError::SymlinkFailed { path: dst }),
            Action::OpenPackage { src, .. } => Some(InstallError::ArchiveReadFailed { path: src }),
            Action::InstallComponent { name } => Some(
                InstallError::ComponentInstallFailed { component: name },
            ),
            Action::Commit => Some(InstallError::TransactionCommitFailed { path }),
            Action::UpdateFromDist { prefix, .. } => Some(
                InstallError::DistResolutionFailed { path: prefix },
            ),
            Action::WriteHash { file, .. } => Some(InstallError::HashFilePersistFailed { path: file }),
            Action::Notify(_) | Action::QueryVersion { .. } | Action::QueryPath { .. } => None,
        }
    }
}

impl<'a, S, T> Step<'a, S, T> {
    /// The action requested by this step, if it requests one.
    pub open spec fn requested(self) -> Option<Action<'a>> {
        match self {
            Step::Request { action, .. } => Some(action),
            Step::Finish(_) => None,
        }
    }
}

/// What a state machine hands back, step by step, when it starts in `state`
/// and the host's answers are `events`, in this order.
///
/// The first event goes to `state`; each later one goes to the state that the
/// step before handed back. The sequence ends with the step that finishes, or
/// when the events run out. Events after the finish are not looked at.
pub open spec fn trace<'a, S, T>(
    step: spec_fn(S, Event) -> Step<'a, S, T>,
    state: S,
    events: Seq<Event>,
) -> Seq<Step<'a, S, T>>
    decreases events.len(),
{
    if events.len() == 0 {
        Seq::empty()
    } else {
        let first = step(state, events[0]);
        match first {
            Step::Request { next, .. } => seq![first] + trace(step, next, events.drop_first()),
            Step::Finish(_) => seq![first],
        }
    }
}

/// Each step answers one event: a state machine never hands back more steps
/// than it was given events.
pub proof fn trace_keeps_pace<'a, S, T>(
    step: spec_fn(S, Event) -> Step<'a, S, T>,
    state: S,
    events: Seq<Event>,
)
    ensures
        trace(step, state, events).len() <= events.len(),
    decreases events.len(),
{
    if events.len() > 0 {
        if let Step::Request { next, .. } = step(state, events[0]) {
            trace_keeps_pace(step, next, events.drop_first());
        }
    }
}

} // verus!

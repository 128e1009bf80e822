//! The dispatcher: runs exactly one acquisition strategy against a target
//! path and reports whether it changed anything.

use crate::installer::{tar_gz_step, TarGzState};
use crate::method::InstallMethod;
use crate::protocol::{trace, Action, Event, InstallError, Step};
use crate::uninstall::{uninstall, uninstall_step, UninstallState};
use vstd::prelude::*;

verus! {

/// Where a run of the dispatcher stands.
#[derive(Debug, PartialEq, Eq)]
pub enum RunState<'a> {
    /// Nothing has been requested yet.
    Start,
    /// The target path is being cleared.
    Clearing(UninstallState),
    /// The host has been asked to copy the source directory.
    Copying,
    /// The host has been asked to link to the source directory.
    Linking,
    /// The archive at `src` is being installed.
    Unpacking { src: &'a str, temp_dir: &'a str, inner: TarGzState },
    /// The host has been asked to update from the distribution channel. A
    /// new hash is to be written to `update_hash`, if that names a file.
    Resolving { update_hash: Option<&'a str> },
    /// The host has been asked to write the new hash to `file`.
    Persisting { file: &'a str },
}

/// A step of the archive installation, seen from the dispatcher: unpacking
/// that succeeds is a change.
pub open spec fn unpacking<'a>(
    src: &'a str,
    temp_dir: &'a str,
    step: Step<'a, TarGzState, ()>,
) -> Step<'a, RunState<'a>, bool> {
    match step {
        Step::Request { action, next } => Step::Request {
            action,
            next: RunState::Unpacking { src, temp_dir, inner: next },
        },
        Step::Finish(Ok(_)) => Step::Finish(Ok(true)),
        Step::Finish(Err(error)) => Step::Finish(Err(error)),
    }
}

impl<'a> InstallMethod<'a> {
    /// The first step of the strategy itself, once the target path is in the
    /// state the strategy starts from.
    ///
    /// A distribution update gets the descriptor, the flags, the prior date
    /// and the requested names exactly as the method holds them. The profile
    /// is handed on only for a toolchain that does not exist yet.
    pub open spec fn transfer(self, path: &'a str) -> Step<'a, RunState<'a>, bool> {
        match self {
            InstallMethod::Copy(src, _) => Step::Request {
                action: Action::CopyDir { src, dst: path },
                next: RunState::Copying,
            },
            InstallMethod::Link(src, _) => Step::Request {
                action: Action::SymlinkDir { src, dst: path },
                next: RunState::Linking,
            },
            InstallMethod::Installer(src, temp_dir, _) => unpacking(
                src,
                temp_dir,
                tar_gz_step(src, path, temp_dir, TarGzState::Start, Event::Begin),
            ),
            InstallMethod::Dist {
                desc,
                profile,
                update_hash,
                dl_cfg,
                force_update,
                allow_downgrade,
                exists,
                old_date,
                components,
                targets,
                ..
            } => Step::Request {
                action: Action::UpdateFromDist {
                    dl_cfg,
                    update_hash,
                    desc,
                    profile: if exists {
                        None
                    } else {
                        Some(profile)
                    },
                    prefix: path,
                    force_update,
                    allow_downgrade,
                    old_date,
                    components,
                    targets,
                },
                next: RunState::Resolving { update_hash },
            },
        }
    }

    /// A step of the clearing, seen from the dispatcher: once the path is
    /// clear the strategy starts, and a failed removal ends the run before
    /// the strategy has requested anything.
    pub open spec fn clearing(self, path: &'a str, step: Step<'a, UninstallState, ()>) -> Step<
        'a,
        RunState<'a>,
        bool,
    > {
        match step {
            Step::Request { action, next } => Step::Request {
                action,
                next: RunState::Clearing(next),
            },
            Step::Finish(Ok(_)) => self.transfer(path),
            Step::Finish(Err(error)) => Step::Finish(Err(error)),
        }
    }

    /// One step of [`InstallMethod::run`].
    ///
    /// A strategy that does not manage the transition itself has the target
    /// path cleared first. Copying and linking always report a change. An
    /// archive installation reports a change once its transaction is
    /// committed. A distribution update reports a change exactly when the
    /// updater hands back a new hash, which is then written to the hash
    /// file, if one was named; without a new hash nothing is written. The
    /// first failure ends the run with its error.
    pub open spec fn run_step(self, path: &'a str, state: RunState<'a>, event: Event) -> Step<
        'a,
        RunState<'a>,
        bool,
    > {
        match state {
            RunState::Start => if self.clears_first() {
                self.clearing(path, uninstall_step(path, UninstallState::Start, event))
            } else {
                self.transfer(path)
            },
            RunState::Clearing(inner) => self.clearing(path, uninstall_step(path, inner, event)),
            RunState::Copying => if event is Done {
                Step::Finish(Ok(true))
            } else {
                Step::Finish(Err(InstallError::CopyFailed { path }))
            },
            RunState::Linking => if event is Done {
                Step::Finish(Ok(true))
            } else {
                Step::Finish(Err(InstallError::SymlinkFailed { path }))
            },
            RunState::Unpacking { src, temp_dir, inner } => unpacking(
                src,
                temp_dir,
                tar_gz_step(src, path, temp_dir, inner, event),
            ),
            RunState::Resolving { update_hash } => match event {
                Event::Resolved(Some(hash)) => match update_hash {
                    Some(file) => Step::Request {
                        action: Action::WriteHash { file, hash },
                        next: RunState::Persisting { file },
                    },
                    None => Step::Finish(Ok(true)),
                },
                Event::Resolved(None) => Step::Finish(Ok(false)),
                _ => Step::Finish(Err(InstallError::DistResolutionFailed { path })),
            },
            RunState::Persisting { file } => if event is Done {
                Step::Finish(Ok(true))
            } else {
                Step::Finish(Err(InstallError::HashFilePersistFailed { path: file }))
            },
        }
    }

    /// The steps of a run of this method against `path` that starts in
    /// `state` and is answered by `events`.
    pub open spec fn run_trace(self, path: &'a str, state: RunState<'a>, events: Seq<Event>) -> Seq<
        Step<'a, RunState<'a>, bool>,
    > {
        trace(|state: RunState<'a>, event: Event| self.run_step(path, state, event), state, events)
    }

    fn unpack(src: &'a str, temp_dir: &'a str, step: Step<'a, TarGzState, ()>) -> (lifted: Step<
        'a,
        RunState<'a>,
        bool,
    >)
        ensures
            lifted == unpacking(src, temp_dir, step),
    {
        match step {
            Step::Request { action, next } => Step::Request {
                action,
                next: RunState::Unpacking { src, temp_dir, inner: next },
            },
            Step::Finish(Ok(_)) => Step::Finish(Ok(true)),
            Step::Finish(Err(error)) => Step::Finish(Err(error)),
        }
    }

    fn start(&self, path: &'a str) -> (step: Step<'a, RunState<'a>, bool>)
        ensures
            step == self.transfer(path),
    {
        match *self {
            InstallMethod::Copy(src, _) => Step::Request {
                action: Action::CopyDir { src, dst: path },
                next: RunState::Copying,
            },
            InstallMethod::Link(src, _) => Step::Request {
                action: Action::SymlinkDir { src, dst: path },
                next: RunState::Linking,
            },
            InstallMethod::Installer(src, temp_dir, _) => {
                let step = InstallMethod::tar_gz(src, path, temp_dir, TarGzState::Start, Event::Begin);
                InstallMethod::unpack(src, temp_dir, step)
            },
            InstallMethod::Dist {
                desc,
                profile,
                update_hash,
                dl_cfg,
                force_update,
                allow_downgrade,
                exists,
                old_date,
                components,
                targets,
                ..
            } => Step::Request {
                action: Action::UpdateFromDist {
                    dl_cfg,
                    update_hash,
                    desc,
                    profile: if exists {
                        None
                    } else {
                        Some(profile)
                    },
                    prefix: path,
                    force_update,
                    allow_downgrade,
                    old_date,
                    components,
                    targets,
                },
                next: RunState::Resolving { update_hash },
            },
        }
    }

    fn clear(&self, path: &'a str, step: Step<'a, UninstallState, ()>) -> (lifted: Step<
        'a,
        RunState<'a>,
        bool,
    >)
        ensures
            lifted == self.clearing(path, step),
    {
        match step {
            Step::Request { action, next } => Step::Request {
                action,
                next: RunState::Clearing(next),
            },
            Step::Finish(Ok(_)) => self.start(path),
            Step::Finish(Err(error)) => Step::Finish(Err(error)),
        }
    }

    /// Runs this method against the target path and reports whether it
    /// changed anything.
    ///
    /// Call it first with [`RunState::Start`]; perform each requested action
    /// and call again with the state handed back and the answer. Hand in the
    /// same method and path throughout a run.
    pub fn run(&self, path: &'a str, state: RunState<'a>, event: Event) -> (step: Step<
        'a,
        RunState<'a>,
        bool,
    >)
        ensures
            step == self.run_step(path, state, event),
    {
        match state {
            RunState::Start => if self.needs_clear() {
                self.clear(path, uninstall(path, UninstallState::Start, event))
            } else {
                self.start(path)
            },
            RunState::Clearing(inner) => self.clear(path, uninstall(path, inner, event)),
            RunState::Copying => match event {
                Event::Done => Step::Finish(Ok(true)),
                _ => Step::Finish(Err(InstallError::CopyFailed { path })),
            },
            RunState::Linking => match event {
                Event::Done => Step::Finish(Ok(true)),
                _ => Step::Finish(Err(InstallError::SymlinkFailed { path })),
            },
            RunState::Unpacking { src, temp_dir, inner } => {
                let step = InstallMethod::tar_gz(src, path, temp_dir, inner, event);
                InstallMethod::unpack(src, temp_dir, step)
            },
            RunState::Resolving { update_hash } => match event {
                Event::Resolved(Some(hash)) => match update_hash {
                    Some(file) => Step::Request {
                        action: Action::WriteHash { file, hash },
                        next: RunState::Persisting { file },
                    },
                    None => Step::Finish(Ok(true)),
                },
                Event::Resolved(None) => Step::Finish(Ok(false)),
                _ => Step::Finish(Err(InstallError::DistResolutionFailed { path })),
            },
            RunState::Persisting { file } => match event {
                Event::Done => Step::Finish(Ok(true)),
                _ => Step::Finish(Err(InstallError::HashFilePersistFailed { path: file })),
            },
        }
    }
}

} // verus!

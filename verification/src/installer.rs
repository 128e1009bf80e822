//! Installation from a gzip-compressed tar archive, as one transaction.

use crate::method::InstallMethod;
use crate::protocol::{Action, Event, InstallError, Notification, Step};
use vstd::prelude::*;

verus! {

/// Where an archive installation stands.
#[derive(Debug, PartialEq, Eq)]
pub enum TarGzState {
    /// Nothing has been requested yet.
    Start,
    /// The extraction has been announced.
    Announcing,
    /// The host has been asked to open the package.
    Opening,
    /// The host has been asked to stage `current`. The components from
    /// index `next` on are still to be staged.
    Staging { current: String, components: Vec<String>, next: usize },
    /// The host has been asked to commit the transaction.
    Committing,
}

/// Asks for the component at index `next`, or for the commit once every
/// component has been staged.
pub open spec fn stage_from<'a>(components: Vec<String>, next: usize) -> Step<
    'a,
    TarGzState,
    (),
> {
    if next < components@.len() {
        Step::Request {
            action: Action::InstallComponent { name: components@[next as int] },
            next: TarGzState::Staging {
                current: components@[next as int],
                components,
                next: (next + 1) as usize,
            },
        }
    } else {
        Step::Request { action: Action::Commit, next: TarGzState::Committing }
    }
}

/// One step of [`InstallMethod::tar_gz`].
///
/// The extraction is announced, the package is opened, its components are
/// staged one by one in the order the package declares them, and the
/// transaction is committed once all of them are staged. The first answer
/// other than success ends the installation with the error of the step that
/// failed; the commit is then never requested.
pub open spec fn tar_gz_step<'a>(
    src: &'a str,
    path: &'a str,
    temp_dir: &'a str,
    state: TarGzState,
    event: Event,
) -> Step<'a, TarGzState, ()> {
    match state {
        TarGzState::Start => Step::Request {
            action: Action::Notify(Notification::Extracting { src, path }),
            next: TarGzState::Announcing,
        },
        TarGzState::Announcing => Step::Request {
            action: Action::OpenPackage { src, prefix: path, temp_dir },
            next: TarGzState::Opening,
        },
        TarGzState::Opening => match event {
            Event::Components(components) => stage_from(components, 0),
            _ => Step::Finish(Err(InstallError::ArchiveReadFailed { path: src })),
        },
        TarGzState::Staging { current, components, next } => if event is Done {
            stage_from(components, next)
        } else {
            Step::Finish(Err(InstallError::ComponentInstallFailed { component: current }))
        },
        TarGzState::Committing => if event is Done {
            Step::Finish(Ok(()))
        } else {
            Step::Finish(Err(InstallError::TransactionCommitFailed { path }))
        },
    }
}

fn stage<'a>(components: Vec<String>, next: usize) -> (step: Step<'a, TarGzState, ()>)
    ensures
        step == stage_from(components, next),
{
    if next < components.len() {
        let name = components[next].clone();
        let current = components[next].clone();
        Step::Request {
            action: Action::InstallComponent { name },
            next: TarGzState::Staging { current, components, next: next + 1 },
        }
    } else {
        Step::Request { action: Action::Commit, next: TarGzState::Committing }
    }
}

impl<'a> InstallMethod<'a> {
    /// Installs the archive at `src` into `path`, with `temp_dir` as
    /// workspace.
    ///
    /// Call it first with [`TarGzState::Start`]; perform each requested
    /// action and call again with the state handed back and the answer.
    pub fn tar_gz(
        src: &'a str,
        path: &'a str,
        temp_dir: &'a str,
        state: TarGzState,
        event: Event,
    ) -> (step: Step<'a, TarGzState, ()>)
        ensures
            step == tar_gz_step(src, path, temp_dir, state, event),
    {
        match state {
            TarGzState::Start => Step::Request {
                action: Action::Notify(Notification::Extracting { src, path }),
                next: TarGzState::Announcing,
            },
            TarGzState::Announcing => Step::Request {
                action: Action::OpenPackage { src, prefix: path, temp_dir },
                next: TarGzState::Opening,
            },
            TarGzState::Opening => match event {
                Event::Components(components) => stage(components, 0),
                _ => Step::Finish(Err(InstallError::ArchiveReadFailed { path: src })),
            },
            TarGzState::Staging { current, components, next } => match event {
                Event::Done => stage(components, next),
                _ => Step::Finish(
                    Err(InstallError::ComponentInstallFailed { component: current }),
                ),
            },
            TarGzState::Committing => match event {
                Event::Done => Step::Finish(Ok(())),
                _ => Step::Finish(Err(InstallError::TransactionCommitFailed { path })),
            },
        }
    }
}

} // verus!

//! Removal of whatever occupies a target path.

use crate::protocol::{trace, Action, Event, InstallError, Step};
use vstd::prelude::*;

verus! {

/// Where a removal stands.
#[derive(Clone, Copy, Debug, PartialEq, Eq)]
pub enum UninstallState {
    /// Nothing has been requested yet.
    Start,
    /// The host has been asked whether the path exists.
    Probing,
    /// The host has been asked to delete the path.
    Removing,
}

/// One step of [`uninstall`].
///
/// The path is probed first. Only an answer that it exists leads to a
/// removal; a path that is not there is left alone and the removal succeeds.
/// The removal itself is a single request: its failure is reported, not
/// retried.
pub open spec fn uninstall_step<'a>(path: &'a str, state: UninstallState, event: Event) -> Step<
    'a,
    UninstallState,
    (),
> {
    match state {
        UninstallState::Start => Step::Request {
            action: Action::QueryPath { path },
            next: UninstallState::Probing,
        },
        UninstallState::Probing => if event == Event::Exists(true) {
            Step::Request { action: Action::RemoveDir { path }, next: UninstallState::Removing }
        } else {
            Step::Finish(Ok(()))
        },
        UninstallState::Removing => if event is Done {
            Step::Finish(Ok(()))
        } else {
            Step::Finish(Err(InstallError::PathRemovalFailed { path }))
        },
    }
}

/// The steps of a removal of `path` that starts in `state` and is answered
/// by `events`.
pub open spec fn uninstall_trace<'a>(path: &'a str, state: UninstallState, events: Seq<Event>) -> Seq<
    Step<'a, UninstallState, ()>,
> {
    trace(|state: UninstallState, event: Event| uninstall_step(path, state, event), state, events)
}

/// Removes the target path recursively.
///
/// Call it first with [`UninstallState::Start`]; perform each requested
/// action and call again with the state handed back and the answer.
pub fn uninstall<'a>(path: &'a str, state: UninstallState, event: Event) -> (step: Step<
    'a,
    UninstallState,
    (),
>)
    ensures
        step == uninstall_step(path, state, event),
{
    match state {
        UninstallState::Start => Step::Request {
            action: Action::QueryPath { path },
            next: UninstallState::Probing,
        },
        UninstallState::Probing => match event {
            Event::Exists(true) => Step::Request {
                action: Action::RemoveDir { path },
                next: UninstallState::Removing,
            },
            _ => Step::Finish(Ok(())),
        },
        UninstallState::Removing => match event {
            Event::Done => Step::Finish(Ok(())),
            _ => Step::Finish(Err(InstallError::PathRemovalFailed { path })),
        },
    }
}

} // verus!

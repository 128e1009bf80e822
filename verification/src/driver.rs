//! The install driver: wraps the dispatcher with notifications and derives
//! the final status.

use crate::dispatch::RunState;
use crate::method::InstallMethod;
use crate::protocol::{trace, Action, Event, Notification, Step};
use crate::toolchain::{Toolchain, UpdateStatus};
use vstd::prelude::*;

verus! {

/// Where an installation stands.
#[derive(Debug, PartialEq, Eq)]
pub enum InstallState<'a> {
    /// Nothing has been requested yet.
    Start,
    /// The host has been asked for the version that is installed.
    Probing,
    /// The installation or update has been announced.
    Announcing { previous: Option<String> },
    /// The toolchain's directory has been announced.
    Locating { previous: Option<String> },
    /// The dispatcher is running.
    Running { previous: Option<String>, inner: RunState<'a> },
    /// The outcome has been announced.
    Reporting { status: UpdateStatus },
}

/// The version that the host's answer reports as installed. Anything but a
/// version means that none is.
pub open spec fn reported_version(event: Event) -> Option<String> {
    match event {
        Event::Version(version) => version,
        _ => None,
    }
}

/// The message that opens an installation.
pub open spec fn opening<'a>(toolchain: Toolchain<'a>, previous: Option<String>) -> Notification<
    'a,
> {
    if previous is Some {
        Notification::UpdatingToolchain { name: toolchain.name }
    } else {
        Notification::InstallingToolchain { name: toolchain.name }
    }
}

/// The message that closes an installation.
pub open spec fn closing<'a>(toolchain: Toolchain<'a>, changed: bool) -> Notification<'a> {
    if changed {
        Notification::InstalledToolchain { name: toolchain.name }
    } else {
        Notification::UpdateHashMatches
    }
}

/// A step of the dispatcher, seen from the driver: its result is announced
/// and classified, its error is handed on as it is.
pub open spec fn running<'a>(
    toolchain: Toolchain<'a>,
    previous: Option<String>,
    step: Step<'a, RunState<'a>, bool>,
) -> Step<'a, InstallState<'a>, UpdateStatus> {
    match step {
        Step::Request { action, next } => Step::Request {
            action,
            next: InstallState::Running { previous, inner: next },
        },
        Step::Finish(Ok(changed)) => Step::Request {
            action: Action::Notify(closing(toolchain, changed)),
            next: InstallState::Reporting { status: UpdateStatus::of(changed, previous) },
        },
        Step::Finish(Err(error)) => Step::Finish(Err(error)),
    }
}

impl<'a> InstallMethod<'a> {
    /// One step of [`InstallMethod::install`].
    ///
    /// The prior version is read before anything is changed. The update or
    /// installation is announced, then the directory; the dispatcher runs
    /// against the toolchain's path; its outcome is announced, and the status
    /// follows from whether it changed anything and from the prior version
    /// alone.
    pub open spec fn install_step(
        self,
        toolchain: Toolchain<'a>,
        state: InstallState<'a>,
        event: Event,
    ) -> Step<'a, InstallState<'a>, UpdateStatus> {
        match state {
            InstallState::Start => Step::Request {
                action: Action::QueryVersion { path: toolchain.path },
                next: InstallState::Probing,
            },
            InstallState::Probing => Step::Request {
                action: Action::Notify(opening(toolchain, reported_version(event))),
                next: InstallState::Announcing { previous: reported_version(event) },
            },
            InstallState::Announcing { previous } => Step::Request {
                action: Action::Notify(
                    Notification::ToolchainDirectory { path: toolchain.path, name: toolchain.name },
                ),
                next: InstallState::Locating { previous },
            },
            InstallState::Locating { previous } => running(
                toolchain,
                previous,
                self.run_step(toolchain.path, RunState::Start, event),
            ),
            InstallState::Running { previous, inner } => running(
                toolchain,
                previous,
                self.run_step(toolchain.path, inner, event),
            ),
            InstallState::Reporting { status } => Step::Finish(Ok(status)),
        }
    }

    /// The steps of an installation of `toolchain` by this method that starts
    /// in `state` and is answered by `events`.
    pub open spec fn install_trace(
        self,
        toolchain: Toolchain<'a>,
        state: InstallState<'a>,
        events: Seq<Event>,
    ) -> Seq<Step<'a, InstallState<'a>, UpdateStatus>> {
        trace(
            |state: InstallState<'a>, event: Event| self.install_step(toolchain, state, event),
            state,
            events,
        )
    }

    fn advance(
        toolchain: &Toolchain<'a>,
        previous: Option<String>,
        step: Step<'a, RunState<'a>, bool>,
    ) -> (lifted: Step<'a, InstallState<'a>, UpdateStatus>)
        ensures
            lifted == running(*toolchain, previous, step),
    {
        match step {
            Step::Request { action, next } => Step::Request {
                action,
                next: InstallState::Running { previous, inner: next },
            },
            Step::Finish(Ok(changed)) => {
                let note = if changed {
                    Notification::InstalledToolchain { name: toolchain.name }
                } else {
                    Notification::UpdateHashMatches
                };
                Step::Request {
                    action: Action::Notify(note),
                    next: InstallState::Reporting {
                        status: UpdateStatus::classify(changed, previous),
                    },
                }
            },
            Step::Finish(Err(error)) => Step::Finish(Err(error)),
        }
    }

    /// Installs a toolchain.
    ///
    /// Call it first with [`InstallState::Start`]; perform each requested
    /// action and call again with the state handed back and the answer. Hand
    /// in the same method and toolchain throughout an installation.
    pub fn install(&self, toolchain: &Toolchain<'a>, state: InstallState<'a>, event: Event) -> (step:
        Step<'a, InstallState<'a>, UpdateStatus>)
        ensures
            step == self.install_step(*toolchain, state, event),
    {
        match state {
            InstallState::Start => Step::Request {
                action: Action::QueryVersion { path: toolchain.path },
                next: InstallState::Probing,
            },
            InstallState::Probing => {
                let previous = match event {
                    Event::Version(version) => version,
                    _ => None,
                };
                let note = if previous.is_some() {
                    Notification::UpdatingToolchain { name: toolchain.name }
                } else {
                    Notification::InstallingToolchain { name: toolchain.name }
                };
                Step::Request {
                    action: Action::Notify(note),
                    next: InstallState::Announcing { previous },
                }
            },
            InstallState::Announcing { previous } => Step::Request {
                action: Action::Notify(
                    Notification::ToolchainDirectory { path: toolchain.path, name: toolchain.name },
                ),
                next: InstallState::Locating { previous },
            },
            InstallState::Locating { previous } => {
                let step = self.run(toolchain.path, RunState::Start, event);
                InstallMethod::advance(toolchain, previous, step)
            },
            InstallState::Running { previous, inner } => {
                let step = self.run(toolchain.path, inner, event);
                InstallMethod::advance(toolchain, previous, step)
            },
            InstallState::Reporting { status } => Step::Finish(Ok(status)),
        }
    }
}

} // verus!

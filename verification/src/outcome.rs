//! What holds of every installation as the driver runs it: how it is
//! announced, what it hands on from the dispatcher, and how its status comes
//! about.

use crate::dispatch::RunState;
use crate::driver::{closing, opening, reported_version, running, InstallState};
use crate::method::InstallMethod;
use crate::protocol::{trace, Action, Event, Notification, Step};
use crate::toolchain::{Toolchain, UpdateStatus};
use vstd::prelude::*;

verus! {

impl<'a> InstallMethod<'a> {
    /// Whether a run of this method can be in `state`: a run stays within
    /// the states of its own strategy.
    pub open spec fn admits(self, state: RunState<'a>) -> bool {
        match state {
            RunState::Start => true,
            RunState::Clearing(_) => self.clears_first(),
            RunState::Copying => self is Copy,
            RunState::Linking => self is Link,
            RunState::Unpacking { .. } => self is Installer,
            RunState::Resolving { .. } | RunState::Persisting { .. } => self is Dist,
        }
    }
}

/// A run stays within the states of its own strategy, and reports that
/// nothing changed only as a distribution update.
pub proof fn run_stays_with_its_strategy<'a>(
    method: InstallMethod<'a>,
    path: &'a str,
    state: RunState<'a>,
    event: Event,
)
    requires
        method.admits(state),
    ensures
        method.run_step(path, state, event) matches Step::Request { next, .. } ==> method.admits(
            next,
        ),
        method.run_step(path, state, event) matches Step::Finish(Ok(changed)) ==> changed
            || method is Dist,
{
}

/// Notifications are advisory in an installation: after a notification has
/// been requested, the next step is the same whatever the host answers, so a
/// failing sink cannot fail or divert the installation.
pub proof fn install_ignores_the_sink<'a>(
    method: InstallMethod<'a>,
    toolchain: Toolchain<'a>,
    state: InstallState<'a>,
    event: Event,
    first: Event,
    second: Event,
)
    ensures
        method.install_step(toolchain, state, event) matches Step::Request { action, next }
            ==> action is Notify ==> method.install_step(toolchain, next, first)
            == method.install_step(toolchain, next, second),
{
}

/// An installation fails fast, and with the dispatcher's own error: once an
/// action that can fail has been requested, the host's report of a failure
/// ends the installation at the next step with the error of that action.
pub proof fn install_fails_fast<'a>(
    method: InstallMethod<'a>,
    toolchain: Toolchain<'a>,
    state: InstallState<'a>,
    event: Event,
)
    ensures
        method.install_step(toolchain, state, event) matches Step::Request { action, next }
            ==> action.failure(toolchain.path) matches Some(error) ==> method.install_step(
            toolchain,
            next,
            Event::Failed,
        ) == Step::<InstallState, UpdateStatus>::Finish(Err(error)),
{
}

/// Every installation opens the same way: the installed version is asked
/// for first, then the installation (if there is no version) or the update
/// (if there is one) is announced, then the toolchain's directory. Nothing
/// else is requested before these.
pub proof fn installation_is_announced<'a>(
    method: InstallMethod<'a>,
    toolchain: Toolchain<'a>,
    events: Seq<Event>,
)
    requires
        events.len() >= 3,
    ensures
        ({
            let steps = method.install_trace(toolchain, InstallState::Start, events);
            &&& steps.len() >= 3
            &&& steps[0].requested() == Some(Action::QueryVersion { path: toolchain.path })
            &&& steps[1].requested() == Some(
                Action::Notify(opening(toolchain, reported_version(events[1]))),
            )
            &&& steps[2].requested() == Some(
                Action::Notify(
                    Notification::ToolchainDirectory { path: toolchain.path, name: toolchain.name },
                ),
            )
            &&& steps.skip(3) == method.install_trace(
                toolchain,
                InstallState::Locating { previous: reported_version(events[1]) },
                events.skip(3),
            )
        }),
{
    reveal_with_fuel(trace, 4);
    let previous = reported_version(events[1]);
    assert(events.drop_first()[0] == events[1]);
    assert(events.drop_first().drop_first()[0] == events[2]);
    assert(events.drop_first().drop_first().drop_first() == events.skip(3));
    let steps = method.install_trace(toolchain, InstallState::Start, events);
    let rest = method.install_trace(
        toolchain,
        InstallState::Locating { previous },
        events.skip(3),
    );
    assert(steps.skip(3) == rest);
}

/// The induction behind [`install_wraps_the_dispatcher`].
proof fn lemma_wraps<'a>(
    method: InstallMethod<'a>,
    toolchain: Toolchain<'a>,
    previous: Option<String>,
    inner: RunState<'a>,
    events: Seq<Event>,
)
    ensures
        ({
            let run = method.run_trace(toolchain.path, inner, events);
            let steps = method.install_trace(
                toolchain,
                InstallState::Running { previous, inner },
                events,
            );
            &&& steps.len() >= run.len()
            &&& forall|i: int|
                0 <= i < run.len() ==> #[trigger] steps[i] == running(toolchain, previous, run[i])
        }),
    decreases events.len(),
{
    reveal_with_fuel(trace, 2);
    if events.len() > 0 {
        let run = method.run_trace(toolchain.path, inner, events);
        let steps = method.install_trace(
            toolchain,
            InstallState::Running { previous, inner },
            events,
        );
        match method.run_step(toolchain.path, inner, events[0]) {
            Step::Request { action, next } => {
                lemma_wraps(method, toolchain, previous, next, events.drop_first());
                let run_rest = method.run_trace(toolchain.path, next, events.drop_first());
                let rest = method.install_trace(
                    toolchain,
                    InstallState::Running { previous, inner: next },
                    events.drop_first(),
                );
                assert forall|i: int| 0 <= i < run.len() implies #[trigger] steps[i] == running(
                    toolchain,
                    previous,
                    run[i],
                ) by {
                    if i > 0 {
                        assert(steps[i] == rest[i - 1]);
                        assert(run[i] == run_rest[i - 1]);
                    }
                }
            },
            Step::Finish(_) => {},
        }
    }
}

/// Between its announcements, an installation is a run of the dispatcher
/// against the toolchain's path: from the fourth step on, the driver hands
/// back the dispatcher's steps, one for one. A request of the dispatcher is
/// handed on as it is, and so is its error; its success is announced and
/// classified.
pub proof fn install_wraps_the_dispatcher<'a>(
    method: InstallMethod<'a>,
    toolchain: Toolchain<'a>,
    events: Seq<Event>,
)
    requires
        events.len() >= 3,
    ensures
        ({
            let run = method.run_trace(toolchain.path, RunState::Start, events.skip(3));
            let steps = method.install_trace(toolchain, InstallState::Start, events);
            &&& steps.len() >= 3 + run.len()
            &&& forall|i: int|
                0 <= i < run.len() ==> #[trigger] steps[3 + i] == running(
                    toolchain,
                    reported_version(events[1]),
                    run[i],
                )
        }),
{
    let previous = reported_version(events[1]);
    installation_is_announced(method, toolchain, events);
    lemma_wraps(method, toolchain, previous, RunState::Start, events.skip(3));
    reveal_with_fuel(trace, 2);
    let steps = method.install_trace(toolchain, InstallState::Start, events);
    let run = method.run_trace(toolchain.path, RunState::Start, events.skip(3));
    let located = method.install_trace(
        toolchain,
        InstallState::Locating { previous },
        events.skip(3),
    );
    let wrapped = method.install_trace(
        toolchain,
        InstallState::Running { previous, inner: RunState::Start },
        events.skip(3),
    );
    assert(located == wrapped);
    assert forall|i: int| 0 <= i < run.len() implies #[trigger] steps[3 + i] == running(
        toolchain,
        previous,
        run[i],
    ) by {
        assert(steps.skip(3)[i] == steps[3 + i]);
    }
}

/// Whether `state` is one that an installation which found the version
/// `previous` can be in once its announcements are made.
spec fn settled<'a>(
    method: InstallMethod<'a>,
    previous: Option<String>,
    state: InstallState<'a>,
) -> bool {
    match state {
        InstallState::Locating { previous: found } => found == previous,
        InstallState::Running { previous: found, inner } => found == previous && method.admits(
            inner,
        ),
        InstallState::Reporting { status } => status == UpdateStatus::of(
            !(status is Unchanged),
            previous,
        ) && (status is Unchanged ==> method is Dist),
        _ => false,
    }
}

/// The induction behind [`status_follows_change_and_prior_version`].
proof fn lemma_status<'a>(
    method: InstallMethod<'a>,
    toolchain: Toolchain<'a>,
    previous: Option<String>,
    state: InstallState<'a>,
    events: Seq<Event>,
)
    requires
        settled(method, previous, state),
        method.install_trace(toolchain, state, events).len() > 0,
        method.install_trace(toolchain, state, events).last() matches Step::Finish(Ok(_)),
    ensures
        ({
            let steps = method.install_trace(toolchain, state, events);
            let status = steps.last()->Finish_0->Ok_0;
            &&& status == UpdateStatus::of(!(status is Unchanged), previous)
            &&& status is Unchanged ==> method is Dist
            &&& !(state is Reporting) ==> steps.len() >= 2 && steps[steps.len() - 2].requested()
                == Some(Action::Notify(closing(toolchain, !(status is Unchanged))))
        }),
    decreases events.len(),
{
    reveal_with_fuel(trace, 2);
    let steps = method.install_trace(toolchain, state, events);
    match method.install_step(toolchain, state, events[0]) {
        Step::Request { action, next } => {
            let rest = method.install_trace(toolchain, next, events.drop_first());
            assert(steps == seq![method.install_step(toolchain, state, events[0])] + rest);
            assert(rest.len() > 0);
            assert(steps.last() == rest.last());
            match state {
                InstallState::Locating { .. } => {
                    run_stays_with_its_strategy(
                        method,
                        toolchain.path,
                        RunState::Start,
                        events[0],
                    );
                },
                InstallState::Running { inner, .. } => {
                    run_stays_with_its_strategy(method, toolchain.path, inner, events[0]);
                },
                _ => {},
            }
            lemma_status(method, toolchain, previous, next, events.drop_first());
            if next is Reporting {
                assert(rest.len() == 1);
            } else {
                assert(steps[steps.len() - 2] == rest[rest.len() - 2]);
            }
        },
        Step::Finish(_) => {},
    }
}

/// The status of an installation follows from whether the run changed
/// anything and from the version found before it, and from nothing else.
///
/// With no version before, a change is reported as `Installed`; with a
/// version before, as `Updated` with that version. `Unchanged` is reported
/// only by a distribution update: copying, linking and unpacking an archive
/// always report a change. The last thing requested before the status is
/// handed back is the announcement of the outcome.
pub proof fn status_follows_change_and_prior_version<'a>(
    method: InstallMethod<'a>,
    toolchain: Toolchain<'a>,
    events: Seq<Event>,
)
    requires
        method.install_trace(toolchain, InstallState::Start, events).len() > 0,
        method.install_trace(toolchain, InstallState::Start, events).last() matches Step::Finish(
            Ok(_),
        ),
    ensures
        ({
            let steps = method.install_trace(toolchain, InstallState::Start, events);
            let status = steps.last()->Finish_0->Ok_0;
            &&& events.len() >= 5
            &&& status == UpdateStatus::of(!(status is Unchanged), reported_version(events[1]))
            &&& status is Unchanged ==> method is Dist
            &&& steps[steps.len() - 2].requested() == Some(
                Action::Notify(closing(toolchain, !(status is Unchanged))),
            )
        }),
{
    reveal_with_fuel(trace, 4);
    let steps = method.install_trace(toolchain, InstallState::Start, events);
    if events.len() >= 4 {
        installation_is_announced(method, toolchain, events);
        let previous = reported_version(events[1]);
        let rest = method.install_trace(
            toolchain,
            InstallState::Locating { previous },
            events.skip(3),
        );
        assert(steps.skip(3) == rest);
        assert(rest.len() == steps.len() - 3);
        assert(rest.len() > 0);
        assert(rest.last() == steps.skip(3)[rest.len() - 1]);
        assert(rest.last() == steps.last());
        lemma_status(method, toolchain, previous, InstallState::Locating { previous }, events.skip(3));
        assert(rest[rest.len() - 2] == steps.skip(3)[rest.len() - 2]);
    } else {
        if events.len() >= 2 {
            assert(events.drop_first()[0] == events[1]);
            if events.len() >= 3 {
                assert(events.drop_first().drop_first()[0] == events[2]);
            }
        }
    }
}

} // verus!

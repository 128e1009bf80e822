//! What holds of every installation, whatever the host answers.
//!
//! Each statement speaks of the steps that a state machine hands back for an
//! arbitrary sequence of answers. What a step requests is all that the host
//! is ever asked to do, so an action that no step requests does not happen.

use crate::dispatch::RunState;
use crate::installer::TarGzState;
use crate::method::InstallMethod;
use crate::protocol::{trace, trace_keeps_pace, Action, Event, InstallError, Step};
use crate::uninstall::{uninstall_step, uninstall_trace, UninstallState};
use vstd::prelude::*;

verus! {

/// Removing a path that is not there is a successful no-op: once the host
/// has answered that the path does not exist, the removal ends with success
/// and no deletion has been requested.
pub proof fn uninstall_of_absent_path_does_nothing<'a>(path: &'a str, events: Seq<Event>)
    requires
        events.len() >= 2,
        events[1] == Event::Exists(false),
    ensures
        uninstall_trace(path, UninstallState::Start, events).len() == 2,
        uninstall_trace(path, UninstallState::Start, events)[0].requested() == Some(
            Action::QueryPath { path },
        ),
        uninstall_trace(path, UninstallState::Start, events)[1] == Step::<UninstallState, ()>::Finish(
            Ok(()),
        ),
{
    reveal_with_fuel(trace, 3);
    assert(events.drop_first()[0] == events[1]);
}

/// A path that exists is removed by a single request, and the removal ends
/// with that request's outcome: success, or the error that names the path.
pub proof fn uninstall_removes_what_exists<'a>(path: &'a str, events: Seq<Event>)
    requires
        events.len() >= 3,
        events[1] == Event::Exists(true),
    ensures
        uninstall_trace(path, UninstallState::Start, events).len() == 3,
        uninstall_trace(path, UninstallState::Start, events)[0].requested() == Some(
            Action::QueryPath { path },
        ),
        uninstall_trace(path, UninstallState::Start, events)[1].requested() == Some(
            Action::RemoveDir { path },
        ),
        uninstall_trace(path, UninstallState::Start, events)[2] == Step::<
            UninstallState,
            (),
        >::Finish(
            if events[2] is Done {
                Ok(())
            } else {
                Err(InstallError::PathRemovalFailed { path })
            },
        ),
{
    reveal_with_fuel(trace, 4);
    assert(events.drop_first()[0] == events[1]);
    assert(events.drop_first().drop_first()[0] == events[2]);
}

/// Copying and linking never report that nothing changed: a run of either
/// that succeeds reports a change, whatever the host answered on the way.
pub proof fn copy_and_link_always_change<'a>(
    method: InstallMethod<'a>,
    path: &'a str,
    events: Seq<Event>,
)
    requires
        method is Copy || method is Link,
        method.run_trace(path, RunState::Start, events).len() > 0,
        method.run_trace(path, RunState::Start, events).last() is Finish,
    ensures
        method.run_trace(path, RunState::Start, events).last() matches Step::Finish(Ok(changed))
            ==> changed,
{
    reveal_with_fuel(trace, 5);
    if events.len() >= 2 {
        assert(events.drop_first()[0] == events[1]);
        if events.len() >= 3 {
            assert(events.drop_first().drop_first()[0] == events[2]);
            if events.len() >= 4 {
                assert(events.drop_first().drop_first().drop_first()[0] == events[3]);
            }
        }
    }
}

/// Before copying or linking, whatever occupies the target path is removed:
/// when the host answers that the path exists, its removal is requested
/// next, and the copy or the link only after the removal has succeeded. If
/// the removal fails, the run ends with that error and the strategy has
/// requested nothing.
pub proof fn stale_target_is_cleared_first<'a>(
    method: InstallMethod<'a>,
    path: &'a str,
    events: Seq<Event>,
)
    requires
        method is Copy || method is Link,
        events.len() >= 3,
        events[1] == Event::Exists(true),
    ensures
        ({
            let steps = method.run_trace(path, RunState::Start, events);
            &&& steps.len() >= 3
            &&& steps[0].requested() == Some(Action::QueryPath { path })
            &&& steps[1].requested() == Some(Action::RemoveDir { path })
            &&& events[2] is Done ==> steps[2].requested() == Some(
                match method {
                    InstallMethod::Link(src, _) => Action::SymlinkDir { src, dst: path },
                    InstallMethod::Copy(src, _) => Action::CopyDir { src, dst: path },
                    _ => arbitrary(),
                },
            )
            &&& !(events[2] is Done) ==> steps.len() == 3 && steps[2] == Step::<
                RunState,
                bool,
            >::Finish(Err(InstallError::PathRemovalFailed { path }))
        }),
{
    reveal_with_fuel(trace, 4);
    assert(events.drop_first()[0] == events[1]);
    assert(events.drop_first().drop_first()[0] == events[2]);
}

/// A target path that is not there is not removed: the copy or the link is
/// requested right after the host's answer.
pub proof fn absent_target_is_not_cleared<'a>(
    method: InstallMethod<'a>,
    path: &'a str,
    events: Seq<Event>,
)
    requires
        method is Copy || method is Link,
        events.len() >= 2,
        events[1] == Event::Exists(false),
    ensures
        ({
            let steps = method.run_trace(path, RunState::Start, events);
            &&& steps.len() >= 2
            &&& steps[0].requested() == Some(Action::QueryPath { path })
            &&& steps[1].requested() == Some(
                match method {
                    InstallMethod::Link(src, _) => Action::SymlinkDir { src, dst: path },
                    InstallMethod::Copy(src, _) => Action::CopyDir { src, dst: path },
                    _ => arbitrary(),
                },
            )
        }),
{
    reveal_with_fuel(trace, 3);
    assert(events.drop_first()[0] == events[1]);
}

/// The distribution updater is the first thing a distribution run asks for,
/// and it gets the method's descriptor, flags, prior date and requested names
/// unmodified. The profile is handed on exactly when the toolchain does not
/// exist yet.
pub proof fn dist_request_is_passed_through<'a>(
    method: InstallMethod<'a>,
    path: &'a str,
    events: Seq<Event>,
)
    requires
        method is Dist,
        events.len() >= 1,
    ensures
        method.run_trace(path, RunState::Start, events)[0].requested() matches Some(
            Action::UpdateFromDist {
                dl_cfg,
                update_hash,
                desc,
                profile,
                prefix,
                force_update,
                allow_downgrade,
                old_date,
                components,
                targets,
            },
        ) && {
            &&& dl_cfg == method->dl_cfg
            &&& update_hash == method->update_hash
            &&& desc == method->desc
            &&& profile == (if method->exists {
                None
            } else {
                Some(method->profile)
            })
            &&& prefix == path
            &&& force_update == method->force_update
            &&& allow_downgrade == method->allow_downgrade
            &&& old_date == method->old_date
            &&& components == method->components
            &&& targets == method->targets
        },
{
    reveal_with_fuel(trace, 2);
}

/// When the updater signals that nothing changed, the run reports no change
/// and has asked for nothing but the update itself: no removal, and no write
/// to the hash file.
pub proof fn unchanged_dist_writes_nothing<'a>(
    method: InstallMethod<'a>,
    path: &'a str,
    events: Seq<Event>,
)
    requires
        method is Dist,
        events.len() >= 2,
        events[1] == Event::Resolved(None),
    ensures
        ({
            let steps = method.run_trace(path, RunState::Start, events);
            &&& steps.len() == 2
            &&& steps[0].requested() is Some
            &&& steps[0].requested()->0 is UpdateFromDist
            &&& steps[1] == Step::<RunState, bool>::Finish(Ok(false))
        }),
{
    reveal_with_fuel(trace, 3);
    assert(events.drop_first()[0] == events[1]);
}

/// When the updater hands back a new hash, the run reports a change. If a
/// hash file was named, the new hash is written to it first, and a failure to
/// write it is the run's error; if none was named, nothing is written.
pub proof fn changed_dist_persists_hash<'a>(
    method: InstallMethod<'a>,
    path: &'a str,
    events: Seq<Event>,
    hash: String,
)
    requires
        method is Dist,
        events.len() >= 3,
        events[1] == Event::Resolved(Some(hash)),
    ensures
        ({
            let steps = method.run_trace(path, RunState::Start, events);
            match method->update_hash {
                Some(file) => {
                    &&& steps.len() == 3
                    &&& steps[1].requested() == Some(Action::WriteHash { file, hash })
                    &&& steps[2] == Step::<RunState, bool>::Finish(
                        if events[2] is Done {
                            Ok(true)
                        } else {
                            Err(InstallError::HashFilePersistFailed { path: file })
                        },
                    )
                },
                None => {
                    &&& steps.len() == 2
                    &&& steps[1] == Step::<RunState, bool>::Finish(Ok(true))
                },
            }
        }),
{
    reveal_with_fuel(trace, 4);
    assert(events.drop_first()[0] == events[1]);
    assert(events.drop_first().drop_first()[0] == events[2]);
}

/// A run fails fast. Whatever state a run is in, once it has requested an
/// action that can fail, the host's report of a failure ends the run at the
/// next step with the error of exactly that action. Nothing is retried and
/// nothing else is requested.
pub proof fn run_fails_fast<'a>(
    method: InstallMethod<'a>,
    path: &'a str,
    state: RunState<'a>,
    event: Event,
)
    ensures
        method.run_step(path, state, event) matches Step::Request { action, next }
            ==> action.failure(path) matches Some(error) ==> method.run_step(
            path,
            next,
            Event::Failed,
        ) == Step::<RunState, bool>::Finish(Err(error)),
{
}

/// Notifications are advisory in a run: after a notification has been
/// requested, the next step is the same whatever the host answers.
pub proof fn run_ignores_the_sink<'a>(
    method: InstallMethod<'a>,
    path: &'a str,
    state: RunState<'a>,
    event: Event,
    first: Event,
    second: Event,
)
    ensures
        method.run_step(path, state, event) matches Step::Request { action, next }
            ==> action is Notify ==> method.run_step(path, next, first) == method.run_step(
            path,
            next,
            second,
        ),
{
}

/// The induction behind [`failed_component_leaves_target_untouched`], from
/// any state of an archive installation.
proof fn lemma_failed_component<'a>(
    method: InstallMethod<'a>,
    path: &'a str,
    state: RunState<'a>,
    events: Seq<Event>,
    j: int,
)
    requires
        state is Unpacking,
        0 <= j < method.run_trace(path, state, events).len(),
        method.run_trace(path, state, events)[j].requested() is Some,
        method.run_trace(path, state, events)[j].requested()->0 is InstallComponent,
        j + 1 < events.len(),
        !(events[j + 1] is Done),
    ensures
        ({
            let steps = method.run_trace(path, state, events);
            &&& steps.len() == j + 2
            &&& steps[j + 1] == Step::<RunState, bool>::Finish(
                Err(
                    InstallError::ComponentInstallFailed {
                        component: steps[j].requested()->0->name,
                    },
                ),
            )
            &&& forall|i: int|
                0 <= i < steps.len() ==> !((#[trigger] steps[i]).requested() matches Some(action)
                    && action.alters(path))
        }),
    decreases j,
{
    let steps = method.run_trace(path, state, events);
    let first = method.run_step(path, state, events[0]);
    reveal_with_fuel(trace, 2);
    match first {
        Step::Request { action, next } => {
            let rest = method.run_trace(path, next, events.drop_first());
            assert(steps == seq![first] + rest);
            assert(events.drop_first()[0] == events[1]);
            if j == 0 {
                assert(rest.len() == 1);
                assert(steps[1] == rest[0]);
            } else {
                assert(steps[j] == rest[j - 1]);
                assert(events.drop_first()[j] == events[j + 1]);
                if action is Commit {
                    assert(rest.len() <= 1);
                    assert(false);
                }
                lemma_failed_component(method, path, next, events.drop_first(), j - 1);
                assert(steps[j + 1] == rest[j]);
                assert forall|i: int| 0 <= i < steps.len() implies !((#[trigger] steps[i]).requested() matches Some(
                    action,
                ) && action.alters(path)) by {
                    if i > 0 {
                        assert(steps[i] == rest[i - 1]);
                    }
                }
            }
        },
        Step::Finish(_) => {},
    }
}

/// An archive installation is all or nothing. If the host reports that
/// staging a component failed, the run ends there with the error that names
/// that component, and no step of the run, before or after, has asked for
/// anything that alters the target path: the transaction is never committed.
pub proof fn failed_component_leaves_target_untouched<'a>(
    method: InstallMethod<'a>,
    path: &'a str,
    events: Seq<Event>,
    j: int,
)
    requires
        method is Installer,
        0 <= j < method.run_trace(path, RunState::Start, events).len(),
        method.run_trace(path, RunState::Start, events)[j].requested() is Some,
        method.run_trace(path, RunState::Start, events)[j].requested()->0 is InstallComponent,
        j + 1 < events.len(),
        !(events[j + 1] is Done),
    ensures
        ({
            let steps = method.run_trace(path, RunState::Start, events);
            &&& steps.len() == j + 2
            &&& steps[j + 1] == Step::<RunState, bool>::Finish(
                Err(
                    InstallError::ComponentInstallFailed {
                        component: steps[j].requested()->0->name,
                    },
                ),
            )
            &&& forall|i: int|
                0 <= i < steps.len() ==> !((#[trigger] steps[i]).requested() matches Some(action)
                    && action.alters(path))
        }),
{
    let steps = method.run_trace(path, RunState::Start, events);
    let first = method.run_step(path, RunState::Start, events[0]);
    reveal_with_fuel(trace, 2);
    let next = first->next;
    let rest = method.run_trace(path, next, events.drop_first());
    assert(steps == seq![first] + rest);
    assert(steps[j] == rest[j - 1]);
    assert(events.drop_first()[j] == events[j + 1]);
    lemma_failed_component(method, path, next, events.drop_first(), j - 1);
    assert(steps[j + 1] == rest[j]);
    assert forall|i: int| 0 <= i < steps.len() implies !((#[trigger] steps[i]).requested() matches Some(
        action,
    ) && action.alters(path)) by {
        if i > 0 {
            assert(steps[i] == rest[i - 1]);
        }
    }
}

/// The induction behind [`commit_follows_every_component`], from a state in
/// which components are being staged.
proof fn lemma_commit<'a>(
    method: InstallMethod<'a>,
    path: &'a str,
    state: RunState<'a>,
    events: Seq<Event>,
    i: int,
)
    requires
        state is Unpacking,
        state->inner is Staging,
        state->inner->next <= state->inner->components@.len(),
        0 <= i < method.run_trace(path, state, events).len(),
        method.run_trace(path, state, events)[i].requested() == Some(Action::Commit),
    ensures
        ({
            let steps = method.run_trace(path, state, events);
            let components = state->inner->components@;
            let next = state->inner->next;
            &&& i == components.len() - next
            &&& forall|k: int|
                0 <= k < i ==> (#[trigger] steps[k]).requested() == Some(
                    Action::InstallComponent { name: components[next + k] },
                )
            &&& i < events.len()
            &&& forall|k: int| 0 <= k <= i ==> #[trigger] events[k] is Done
        }),
    decreases i,
{
    let steps = method.run_trace(path, state, events);
    let components = state->inner->components@;
    let next = state->inner->next;
    let first = method.run_step(path, state, events[0]);
    reveal_with_fuel(trace, 2);
    assert(state->inner->components.len() == components.len());
    trace_keeps_pace(
        |state: RunState<'a>, event: Event| method.run_step(path, state, event),
        state,
        events,
    );
    match first {
        Step::Request { action, next: after } => {
            let rest = method.run_trace(path, after, events.drop_first());
            assert(steps == seq![first] + rest);
            if i > 0 {
                assert(steps[i] == rest[i - 1]);
                if action is Commit {
                    assert(rest.len() <= 1);
                    assert(false);
                }
                lemma_commit(method, path, after, events.drop_first(), i - 1);
                assert forall|k: int| 0 <= k < i implies (#[trigger] steps[k]).requested() == Some(
                    Action::InstallComponent { name: components[next + k] },
                ) by {
                    if k > 0 {
                        assert(steps[k] == rest[k - 1]);
                    }
                }
                assert forall|k: int| 0 <= k <= i implies #[trigger] events[k] is Done by {
                    if k > 0 {
                        assert(events[k] == events.drop_first()[k - 1]);
                    }
                }
            }
        },
        Step::Finish(_) => {},
    }
}

/// The transaction is committed once, after every component of the package
/// has been staged: when the commit is requested, each component that the
/// package declared has been requested before it, in the package's order,
/// and the host has answered each of these requests with success.
pub proof fn commit_follows_every_component<'a>(
    method: InstallMethod<'a>,
    path: &'a str,
    events: Seq<Event>,
    i: int,
)
    requires
        method is Installer,
        0 <= i < method.run_trace(path, RunState::Start, events).len(),
        method.run_trace(path, RunState::Start, events)[i].requested() == Some(Action::Commit),
    ensures
        ({
            let steps = method.run_trace(path, RunState::Start, events);
            &&& events.len() >= 3
            &&& events[2] is Components
            &&& i == events[2]->Components_0@.len() + 2
            &&& i < events.len()
            &&& forall|k: int|
                0 <= k < events[2]->Components_0@.len() ==> (#[trigger] steps[k + 2]).requested()
                    == Some(Action::InstallComponent { name: events[2]->Components_0@[k] })
            &&& forall|k: int|
                0 <= k < events[2]->Components_0@.len() ==> #[trigger] events[k + 3] is Done
        }),
{
    reveal_with_fuel(trace, 4);
    let steps = method.run_trace(path, RunState::Start, events);
    trace_keeps_pace(
        |state: RunState<'a>, event: Event| method.run_step(path, state, event),
        RunState::Start,
        events,
    );
    assert(events.len() >= 3);
    assert(events.drop_first()[0] == events[1]);
    assert(events.drop_first().drop_first()[0] == events[2]);
    let tail = events.drop_first().drop_first().drop_first();
    assert(tail == events.skip(3));
    let components = events[2]->Components_0;
    if components@.len() > 0 {
        let state = RunState::Unpacking {
            src: method->Installer_0,
            temp_dir: method->Installer_1,
            inner: TarGzState::Staging { current: components@[0], components, next: 1 },
        };
        let rest = method.run_trace(path, state, tail);
        assert(steps.skip(3) == rest);
        assert(steps[i] == rest[i - 3]);
        lemma_commit(method, path, state, tail, i - 3);
        assert forall|k: int| 0 <= k < components@.len() implies (#[trigger] steps[k
            + 2]).requested() == Some(Action::InstallComponent { name: components@[k] }) by {
            if k > 0 {
                assert(steps[k + 2] == rest[k - 1]);
            }
        }
        assert forall|k: int| 0 <= k < components@.len() implies #[trigger] events[k + 3] is Done by {
            assert(events[k + 3] == tail[k]);
        }
    }
}

} // verus!

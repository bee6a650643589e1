//! What holds of every run of the launcher: of the states it passes through
//! and the actions it asks for, whatever events arrive and in whatever order.

use vstd::prelude::*;
use crate::error::{LaunchErrorView, FAILURE_EXIT_CODE};
use crate::launcher::{
    child_arguments_of,
    exit_code_of,
    propagated,
    step_of,
    ActionView,
    ChildStatus,
    EventView,
    OutcomeView,
    StateView,
};
use crate::locate::{binary_location_of, FileProbe};
use crate::platform::{is_supported, platform_key_of};

verus! {

/// The state after the machine, begun in `start`, has taken `events` in
/// order.
pub open spec fn state_after(start: StateView, events: Seq<EventView>) -> StateView
    decreases events.len(),
{
    if events.len() == 0 {
        start
    } else {
        step_of(state_after(start, events.drop_last()), events.last()).state
    }
}

/// The action asked for when the event at position `i` arrives.
pub open spec fn action_at(start: StateView, events: Seq<EventView>, i: int) -> ActionView
    recommends
        0 <= i < events.len(),
{
    step_of(state_after(start, events.take(i)), events[i]).action
}

/// How far a run has come.
pub open spec fn progress(state: StateView) -> nat {
    match state {
        StateView::Idle => 0,
        StateView::ConfigResolved { .. } => 1,
        StateView::PlatformKeyComputed { .. } => 2,
        StateView::PathValidated { .. } => 3,
        StateView::ChildSpawned => 4,
        StateView::ChildExited { .. } => 5,
        StateView::ChildSignaled { .. } => 5,
        StateView::ProcessExit { .. } => 6,
    }
}

/// Taking one more event is one more step.
pub proof fn lemma_state_after_next(start: StateView, events: Seq<EventView>, i: int)
    requires
        0 <= i < events.len(),
    ensures
        state_after(start, events.take(i + 1)) == step_of(
            state_after(start, events.take(i)),
            events[i],
        ).state,
{
    let longer = events.take(i + 1);
    assert(longer.drop_last() == events.take(i));
    assert(longer.last() == events[i]);
}

/// No step goes back: the machine never returns to an earlier stage.
pub proof fn lemma_step_never_goes_back(state: StateView, event: EventView)
    ensures
        progress(state) <= progress(step_of(state, event).state),
{
}

/// Over a run, progress only grows.
pub proof fn lemma_run_never_goes_back(start: StateView, events: Seq<EventView>, i: int, j: int)
    requires
        0 <= i <= j <= events.len(),
    ensures
        progress(state_after(start, events.take(i))) <= progress(
            state_after(start, events.take(j)),
        ),
    decreases j - i,
{
    if i < j {
        lemma_run_never_goes_back(start, events, i, j - 1);
        lemma_state_after_next(start, events, j - 1);
        lemma_step_never_goes_back(state_after(start, events.take(j - 1)), events[j - 1]);
    }
}

/// Once the launcher ends, nothing more happens: the state stays, and every
/// later event is ignored.
pub proof fn lemma_exit_is_final(outcome: OutcomeView, events: Seq<EventView>, i: int)
    requires
        0 <= i < events.len(),
    ensures
        state_after(StateView::ProcessExit { outcome }, events) == (StateView::ProcessExit {
            outcome,
        }),
        action_at(StateView::ProcessExit { outcome }, events, i) == ActionView::Ignore,
{
    lemma_exit_stays(outcome, events);
    lemma_exit_stays(outcome, events.take(i));
}

proof fn lemma_exit_stays(outcome: OutcomeView, events: Seq<EventView>)
    ensures
        state_after(StateView::ProcessExit { outcome }, events) == (StateView::ProcessExit {
            outcome,
        }),
    decreases events.len(),
{
    if events.len() > 0 {
        lemma_exit_stays(outcome, events.drop_last());
    }
}

/// A run computes one location and starts one child, at most: the file
/// system is asked once, and a spawn is asked for once.
pub proof fn lemma_one_probe_one_spawn(start: StateView, events: Seq<EventView>, i: int, j: int)
    requires
        0 <= i < j < events.len(),
    ensures
        !(action_at(start, events, i) is ProbeFile && action_at(start, events, j) is ProbeFile),
        !(action_at(start, events, i) is Spawn && action_at(start, events, j) is Spawn),
{
    lemma_state_after_next(start, events, i);
    lemma_run_never_goes_back(start, events, i + 1, j);
}

/// After the launcher was told to end, by the child's end or by a failure,
/// no later event asks for anything: no probe, no child, no second end.
pub proof fn lemma_nothing_follows_the_end(
    start: StateView,
    events: Seq<EventView>,
    i: int,
    j: int,
)
    requires
        0 <= i < j < events.len(),
        action_at(start, events, i) is Terminate,
    ensures
        action_at(start, events, j) == ActionView::Ignore,
{
    lemma_state_after_next(start, events, i);
    lemma_run_never_goes_back(start, events, i + 1, j);
}

/// The file system is asked only about the location of a supported key:
/// the probe follows the host's names, its path is the binary's location
/// under the configuration in force, and the key of those names is
/// supported. A key without a binary ends the run with the error that
/// names it, and no probe.
pub proof fn lemma_probe_only_for_supported_key(state: StateView, event: EventView)
    ensures
        step_of(state, event).action is ProbeFile ==> {
            &&& state is ConfigResolved
            &&& event is PlatformDetected
            &&& is_supported(platform_key_of(event->os, event->arch))
            &&& step_of(state, event).action->ProbeFile_path == binary_location_of(
                state->ConfigResolved_config,
                platform_key_of(event->os, event->arch),
            )
        },
        state is ConfigResolved && event is PlatformDetected && !is_supported(
            platform_key_of(event->os, event->arch),
        ) ==> step_of(state, event).action == (ActionView::Terminate {
            outcome: OutcomeView::Failed(
                LaunchErrorView::UnsupportedPlatform {
                    key: platform_key_of(event->os, event->arch),
                },
            ),
        }),
{
}

/// A child is asked for only where the file system found the expected file
/// ready; the path to start is the path that was probed, and the arguments
/// are those that the state holds. A missing file ends the run with the
/// error that names the path.
pub proof fn lemma_spawn_only_of_ready_file(state: StateView, event: EventView)
    ensures
        step_of(state, event).action is Spawn ==> {
            &&& state is PlatformKeyComputed
            &&& event == (EventView::FileProbed { probe: FileProbe::Ready })
            &&& step_of(state, event).action->Spawn_path == state->PlatformKeyComputed_path
            &&& step_of(state, event).action->Spawn_args == state->PlatformKeyComputed_args
        },
        state is PlatformKeyComputed && event == (EventView::FileProbed {
            probe: FileProbe::Missing,
        }) ==> step_of(state, event).action == (ActionView::Terminate {
            outcome: OutcomeView::Failed(
                LaunchErrorView::BinaryNotFound { path: state->PlatformKeyComputed_path },
            ),
        }),
{
}

/// Whether an error says that no usable binary was found: the platform has
/// none, or the file is missing or cannot be used.
pub open spec fn is_resolution_failure(error: LaunchErrorView) -> bool {
    error is UnsupportedPlatform || error is BinaryNotFound || error is BinaryNotAccessible
}

/// A run in which no usable binary is found starts no child, neither before
/// the failure nor after it; and where the platform has no binary, the file
/// system is never asked either.
pub proof fn lemma_failed_resolution_starts_nothing(
    start: StateView,
    events: Seq<EventView>,
    i: int,
    j: int,
)
    requires
        0 <= i < events.len(),
        0 <= j < events.len(),
        action_at(start, events, i) is Terminate,
        action_at(start, events, i)->Terminate_outcome is Failed,
        is_resolution_failure(action_at(start, events, i)->Terminate_outcome->Failed_0),
    ensures
        !(action_at(start, events, j) is Spawn),
        action_at(start, events, i)->Terminate_outcome->Failed_0 is UnsupportedPlatform ==> !(
        action_at(start, events, j) is ProbeFile),
{
    if j < i {
        lemma_state_after_next(start, events, j);
        lemma_run_never_goes_back(start, events, j + 1, i);
    } else if j > i {
        lemma_nothing_follows_the_end(start, events, i, j);
    }
}

/// In a run from the beginning, the path of every spawn was probed before.
pub proof fn lemma_spawned_path_was_probed(events: Seq<EventView>, j: int)
    requires
        0 <= j < events.len(),
        action_at(StateView::Idle, events, j) is Spawn,
    ensures
        events[j] == (EventView::FileProbed { probe: FileProbe::Ready }),
        exists|i: int|
            0 <= i < j && action_at(StateView::Idle, events, i) == (ActionView::ProbeFile {
                path: action_at(StateView::Idle, events, j)->Spawn_path,
            }),
{
    let before = events.take(j);
    lemma_spawn_only_of_ready_file(state_after(StateView::Idle, before), events[j]);
    lemma_location_was_probed(before);
    let i = choose|i: int|
        0 <= i < before.len() && action_at(StateView::Idle, before, i) == (ActionView::ProbeFile {
            path: state_after(StateView::Idle, before)->PlatformKeyComputed_path,
        });
    assert(before.take(i) == events.take(i));
    assert(before[i] == events[i]);
    assert(action_at(StateView::Idle, events, i) == action_at(StateView::Idle, before, i));
}

proof fn lemma_location_was_probed(events: Seq<EventView>)
    requires
        state_after(StateView::Idle, events) is PlatformKeyComputed,
    ensures
        exists|i: int|
            0 <= i < events.len() && action_at(StateView::Idle, events, i) == (
            ActionView::ProbeFile {
                path: state_after(StateView::Idle, events)->PlatformKeyComputed_path,
            }),
    decreases events.len(),
{
    let last = events.len() - 1;
    let earlier = events.drop_last();
    let previous = state_after(StateView::Idle, earlier);
    assert(earlier == events.take(last));
    if previous is PlatformKeyComputed {
        lemma_location_was_probed(earlier);
        let i = choose|i: int|
            0 <= i < earlier.len() && action_at(StateView::Idle, earlier, i) == (
            ActionView::ProbeFile { path: previous->PlatformKeyComputed_path });
        assert(earlier.take(i) == events.take(i));
        assert(action_at(StateView::Idle, events, i) == action_at(StateView::Idle, earlier, i));
    } else {
        assert(action_at(StateView::Idle, events, last) is ProbeFile);
    }
}

/// The arguments that a state keeps for the child.
pub open spec fn kept_arguments(state: StateView) -> Option<Seq<Seq<char>>> {
    match state {
        StateView::ConfigResolved { args, .. } => Some(args),
        StateView::PlatformKeyComputed { args, .. } => Some(args),
        _ => None,
    }
}

/// The child gets the launcher's own arguments. In a run from the
/// beginning, the arguments of every spawn are those of the command line
/// that was reported with the configuration, in order and without the
/// first, the launcher's name.
pub proof fn lemma_spawned_arguments_are_the_launchers(events: Seq<EventView>, j: int)
    requires
        0 <= j < events.len(),
        action_at(StateView::Idle, events, j) is Spawn,
    ensures
        exists|i: int|
            0 <= i < j && events[i] is Configured && action_at(
                StateView::Idle,
                events,
                j,
            )->Spawn_args == child_arguments_of(events[i]->argv),
{
    let before = events.take(j);
    lemma_spawn_only_of_ready_file(state_after(StateView::Idle, before), events[j]);
    lemma_arguments_were_reported(before);
    let i = choose|i: int|
        0 <= i < before.len() && before[i] is Configured && kept_arguments(
            state_after(StateView::Idle, before),
        ) == Some(child_arguments_of(before[i]->argv));
    assert(events[i] == before[i]);
}

proof fn lemma_arguments_were_reported(events: Seq<EventView>)
    requires
        kept_arguments(state_after(StateView::Idle, events)) is Some,
    ensures
        exists|i: int|
            0 <= i < events.len() && events[i] is Configured && kept_arguments(
                state_after(StateView::Idle, events),
            ) == Some(child_arguments_of(events[i]->argv)),
    decreases events.len(),
{
    let last = events.len() - 1;
    let earlier = events.drop_last();
    let previous = state_after(StateView::Idle, earlier);
    if kept_arguments(previous) is Some {
        lemma_arguments_were_reported(earlier);
        let i = choose|i: int|
            0 <= i < earlier.len() && earlier[i] is Configured && kept_arguments(previous) == Some(
                child_arguments_of(earlier[i]->argv),
            );
        assert(events[i] == earlier[i]);
    } else {
        assert(events[last] is Configured);
    }
}

/// The launcher ends as its child did. In a run from the beginning, an end
/// that is no failure follows a child's end, and hands on what the child
/// left: its exit code as the launcher's exit code, or the signal that
/// ended it as the signal by which the launcher ends itself.
pub proof fn lemma_launcher_ends_as_child_did(events: Seq<EventView>, j: int)
    requires
        0 <= j < events.len(),
        action_at(StateView::Idle, events, j) is Terminate,
        !(action_at(StateView::Idle, events, j)->Terminate_outcome is Failed),
    ensures
        exists|i: int, status: ChildStatus|
            0 <= i < j && events[i] == (EventView::ChildFinished { status }) && action_at(
                StateView::Idle,
                events,
                j,
            ) == (ActionView::Terminate { outcome: propagated(status) }),
{
    let before = events.take(j);
    lemma_child_end_was_reported(before);
    let (i, status) = choose|i: int, status: ChildStatus|
        0 <= i < before.len() && before[i] == (EventView::ChildFinished { status })
            && ended_child(state_after(StateView::Idle, before)) == Some(status);
    assert(events[i] == before[i]);
}

/// The child's end that a state remembers.
pub open spec fn ended_child(state: StateView) -> Option<ChildStatus> {
    match state {
        StateView::ChildExited { code } => Some(ChildStatus::Exited(code)),
        StateView::ChildSignaled { signal } => Some(ChildStatus::Signaled(signal)),
        _ => None,
    }
}

proof fn lemma_child_end_was_reported(events: Seq<EventView>)
    requires
        ended_child(state_after(StateView::Idle, events)) is Some,
    ensures
        exists|i: int, status: ChildStatus|
            0 <= i < events.len() && events[i] == (EventView::ChildFinished { status })
                && ended_child(state_after(StateView::Idle, events)) == Some(status),
    decreases events.len(),
{
    let last = events.len() - 1;
    let earlier = events.drop_last();
    let previous = state_after(StateView::Idle, earlier);
    if ended_child(previous) is Some {
        lemma_child_end_was_reported(earlier);
        let (i, status) = choose|i: int, status: ChildStatus|
            0 <= i < earlier.len() && earlier[i] == (EventView::ChildFinished { status })
                && ended_child(previous) == Some(status);
        assert(events[i] == earlier[i]);
    } else {
        let status = events[last]->ChildFinished_status;
        assert(events[last] == (EventView::ChildFinished { status }));
    }
}

/// A run that fails exits with a code other than zero; a run whose child
/// exited by itself exits with the child's code.
pub proof fn lemma_exit_codes(outcome: OutcomeView)
    ensures
        outcome is Failed ==> exit_code_of(outcome) == Some(FAILURE_EXIT_CODE)
            && FAILURE_EXIT_CODE != 0,
        outcome is Code ==> exit_code_of(outcome) == Some(outcome->Code_0),
        outcome is Signal ==> exit_code_of(outcome) is None,
{
}

} // verus!

//! Decommission state machine: states and transitions for graceful pod shutdown.
//!
//! Drives the lifecycle Running → Draining → ReadinessLost → PreStopRunning →
//! (optional) StateHandover → DeletionAllowed. A verified drain leads from
//! Draining to DeletionAllowed directly.

use vstd::prelude::*;

verus! {

/// State of a pod under decommissioning.
#[derive(Clone, Copy, Debug, PartialEq, Eq, Structural, Hash)]
pub enum DecommissionState {
    /// Pod is not terminating or not yet tracked.
    Unknown,
    /// Pod has a deletion timestamp; traffic is being drained.
    Draining,
    /// Readiness is false; verifying that the endpoints are removed.
    ReadinessLost,
    /// The preStop hook is running.
    PreStopRunning,
    /// Optional: waiting for state handover (annotation or external signal).
    StateHandover,
    /// Safe to allow deletion: the finalizer may be removed.
    DeletionAllowed,
}

impl Default for DecommissionState {
    fn default() -> (state: Self)
        ensures
            state == DecommissionState::Unknown,
    {
        DecommissionState::Unknown
    }
}

/// Input events that drive the transitions.
#[derive(Clone, Copy, Debug)]
pub enum DecommissionEvent {
    PodTerminating,
    ReadinessLost,
    EndpointsRemoved,
    PreStopStarted,
    PreStopFinished,
    StateHandoverComplete,
    /// The pod is known to have no work in flight any more.
    DrainVerified,
    DeletionAllowed,
}

/// The transition table: the state that `event` leads to from `current`, if it
/// is one of those that leave `current`.
pub open spec fn leaves_to(current: DecommissionState, event: DecommissionEvent) -> Option<
    DecommissionState,
> {
    match current {
        DecommissionState::Unknown => match event {
            DecommissionEvent::PodTerminating => Some(DecommissionState::Draining),
            _ => None,
        },
        DecommissionState::Draining => match event {
            DecommissionEvent::ReadinessLost => Some(DecommissionState::ReadinessLost),
            DecommissionEvent::EndpointsRemoved => Some(DecommissionState::ReadinessLost),
            DecommissionEvent::DrainVerified => Some(DecommissionState::DeletionAllowed),
            _ => None,
        },
        DecommissionState::ReadinessLost => match event {
            DecommissionEvent::PreStopStarted => Some(DecommissionState::PreStopRunning),
            DecommissionEvent::PreStopFinished => Some(DecommissionState::DeletionAllowed),
            _ => None,
        },
        DecommissionState::PreStopRunning => match event {
            DecommissionEvent::PreStopFinished => Some(DecommissionState::DeletionAllowed),
            DecommissionEvent::StateHandoverComplete => Some(DecommissionState::StateHandover),
            _ => None,
        },
        DecommissionState::StateHandover => match event {
            DecommissionEvent::StateHandoverComplete => Some(DecommissionState::DeletionAllowed),
            DecommissionEvent::DeletionAllowed => Some(DecommissionState::DeletionAllowed),
            _ => None,
        },
        DecommissionState::DeletionAllowed => None,
    }
}

/// The state after `event`: what the table says, else the state unchanged.
pub open spec fn after_event(
    current: DecommissionState,
    event: DecommissionEvent,
) -> DecommissionState {
    match leaves_to(current, event) {
        Some(next) => next,
        None => current,
    }
}

/// Given the current state and an event, returns the next state. An event that
/// means nothing in the current state leaves it as it is.
pub fn transition(current: DecommissionState, event: DecommissionEvent) -> (next: DecommissionState)
    ensures
        next == after_event(current, event),
{
    match (current, event) {
        (DecommissionState::Unknown, DecommissionEvent::PodTerminating) => {
            DecommissionState::Draining
        },
        (DecommissionState::Draining, DecommissionEvent::ReadinessLost) => {
            DecommissionState::ReadinessLost
        },
        (DecommissionState::Draining, DecommissionEvent::EndpointsRemoved) => {
            DecommissionState::ReadinessLost
        },
        (DecommissionState::Draining, DecommissionEvent::DrainVerified) => {
            DecommissionState::DeletionAllowed
        },
        (DecommissionState::ReadinessLost, DecommissionEvent::PreStopStarted) => {
            DecommissionState::PreStopRunning
        },
        (DecommissionState::ReadinessLost, DecommissionEvent::PreStopFinished) => {
            DecommissionState::DeletionAllowed
        },
        (DecommissionState::PreStopRunning, DecommissionEvent::PreStopFinished) => {
            DecommissionState::DeletionAllowed
        },
        (DecommissionState::PreStopRunning, DecommissionEvent::StateHandoverComplete) => {
            DecommissionState::StateHandover
        },
        (DecommissionState::StateHandover, DecommissionEvent::StateHandoverComplete) => {
            DecommissionState::DeletionAllowed
        },
        (DecommissionState::StateHandover, DecommissionEvent::DeletionAllowed) => {
            DecommissionState::DeletionAllowed
        },
        (state, _) => state,
    }
}

/// The text under which a state is kept in the pod's state annotation.
pub open spec fn annotation_value(state: DecommissionState) -> Seq<char> {
    match state {
        DecommissionState::Unknown => "unknown"@,
        DecommissionState::Draining => "draining"@,
        DecommissionState::ReadinessLost => "readiness_lost"@,
        DecommissionState::PreStopRunning => "pre_stop_running"@,
        DecommissionState::StateHandover => "state_handover"@,
        DecommissionState::DeletionAllowed => "deletion_allowed"@,
    }
}

/// Text that keeps the state of a pod, for the annotation
/// `decomposition.dat6.io/state`.
pub fn state_to_annotation_value(state: DecommissionState) -> (text: String)
    ensures
        text@ == annotation_value(state),
{
    let text: &str = match state {
        DecommissionState::Unknown => "unknown",
        DecommissionState::Draining => "draining",
        DecommissionState::ReadinessLost => "readiness_lost",
        DecommissionState::PreStopRunning => "pre_stop_running",
        DecommissionState::StateHandover => "state_handover",
        DecommissionState::DeletionAllowed => "deletion_allowed",
    };
    text.to_string()
}

/// The state that an annotation text stands for; any text that is not the
/// value of a tracked state stands for `Unknown`.
pub open spec fn annotated_state(text: Seq<char>) -> DecommissionState {
    if text == "draining"@ {
        DecommissionState::Draining
    } else if text == "readiness_lost"@ {
        DecommissionState::ReadinessLost
    } else if text == "pre_stop_running"@ {
        DecommissionState::PreStopRunning
    } else if text == "state_handover"@ {
        DecommissionState::StateHandover
    } else if text == "deletion_allowed"@ {
        DecommissionState::DeletionAllowed
    } else {
        DecommissionState::Unknown
    }
}

/// How far along the lifecycle a state is.
pub open spec fn progress(state: DecommissionState) -> int {
    match state {
        DecommissionState::Unknown => 0,
        DecommissionState::Draining => 1,
        DecommissionState::ReadinessLost => 2,
        DecommissionState::PreStopRunning => 3,
        DecommissionState::StateHandover => 4,
        DecommissionState::DeletionAllowed => 5,
    }
}

/// The state after a sequence of events, in order.
pub open spec fn after_events(
    current: DecommissionState,
    events: Seq<DecommissionEvent>,
) -> DecommissionState
    decreases events.len(),
{
    if events.len() == 0 {
        current
    } else {
        after_event(after_events(current, events.drop_last()), events.last())
    }
}

/// The lifecycle only moves forward: no event takes a pod back to an earlier
/// state, and an event either leaves the state as it is or advances it.
pub proof fn events_never_move_back(current: DecommissionState, events: Seq<DecommissionEvent>)
    ensures
        progress(after_events(current, events)) >= progress(current),
        progress(after_events(current, events)) == progress(current) ==> after_events(
            current,
            events,
        ) == current,
    decreases events.len(),
{
    if events.len() > 0 {
        events_never_move_back(current, events.drop_last());
    }
}

/// Once deletion is allowed it stays allowed, whatever happens after.
pub proof fn deletion_stays_allowed(events: Seq<DecommissionEvent>)
    ensures
        after_events(DecommissionState::DeletionAllowed, events)
            == DecommissionState::DeletionAllowed,
    decreases events.len(),
{
    if events.len() > 0 {
        deletion_stays_allowed(events.drop_last());
    }
}

/// A pod is never deletable without having been seen to terminate: a pod that
/// is not tracked yet reaches another state only if one of the events was
/// `PodTerminating`.
pub proof fn tracking_starts_with_termination(events: Seq<DecommissionEvent>)
    requires
        after_events(DecommissionState::Unknown, events) != DecommissionState::Unknown,
    ensures
        exists|i: int|
            0 <= i < events.len() && #[trigger] events[i] == DecommissionEvent::PodTerminating,
    decreases events.len(),
{
    let before = events.drop_last();
    if after_events(DecommissionState::Unknown, before) != DecommissionState::Unknown {
        tracking_starts_with_termination(before);
        let i = choose|i: int|
            0 <= i < before.len() && #[trigger] before[i] == DecommissionEvent::PodTerminating;
        assert(events[i] == DecommissionEvent::PodTerminating);
    } else {
        assert(events[events.len() - 1] == DecommissionEvent::PodTerminating);
    }
}

/// Reading back the annotation that was written for a state gives that state.
pub proof fn annotation_round_trip(state: DecommissionState)
    ensures
        annotated_state(annotation_value(state)) == state,
{
    reveal_strlit("unknown");
    reveal_strlit("draining");
    reveal_strlit("readiness_lost");
    reveal_strlit("pre_stop_running");
    reveal_strlit("state_handover");
    reveal_strlit("deletion_allowed");
    assert("unknown"@[0] != "draining"@[0]);
    assert("readiness_lost"@[0] == 'r');
    assert("state_handover"@[0] == 's');
    assert("pre_stop_running"@[0] == 'p');
    assert("deletion_allowed"@[0] == 'd');
    assert("deletion_allowed"@.len() != "draining"@.len());
}

/// Two states never share an annotation.
pub proof fn annotations_are_distinct(one: DecommissionState, other: DecommissionState)
    requires
        annotation_value(one) == annotation_value(other),
    ensures
        one == other,
{
    annotation_round_trip(one);
    annotation_round_trip(other);
}

/// What each state is entered by. Nothing else enters it, and no event leads back to
/// `Unknown`.
pub proof fn states_are_entered_by(current: DecommissionState, event: DecommissionEvent)
    ensures
        after_event(current, event) is Draining && !(current is Draining) <==> current is Unknown
            && event is PodTerminating,
        after_event(current, event) is ReadinessLost && !(current is ReadinessLost) <==> current
            is Draining && (event is ReadinessLost || event is EndpointsRemoved),
        after_event(current, event) is PreStopRunning && !(current is PreStopRunning) <==> current
            is ReadinessLost && event is PreStopStarted,
        after_event(current, event) is StateHandover && !(current is StateHandover) <==> current
            is PreStopRunning && event is StateHandoverComplete,
        after_event(current, event) is DeletionAllowed && !(current is DeletionAllowed) <==> {
            ||| current is Draining && event is DrainVerified
            ||| (current is ReadinessLost || current is PreStopRunning) && event is PreStopFinished
            ||| current is StateHandover && (event is StateHandoverComplete
                || event is DeletionAllowed)
        },
        after_event(current, event) is Unknown ==> current is Unknown,
{
}

/// The texts that stand for the tracked states, and the only ones that do: any other
/// text stands for `Unknown`, which is written "unknown".
pub proof fn tracked_states_have_one_text(state: DecommissionState, text: Seq<char>)
    ensures
        annotated_state(text) is Draining <==> text == "draining"@,
        annotated_state(text) is ReadinessLost <==> text == "readiness_lost"@,
        annotated_state(text) is PreStopRunning <==> text == "pre_stop_running"@,
        annotated_state(text) is StateHandover <==> text == "state_handover"@,
        annotated_state(text) is DeletionAllowed <==> text == "deletion_allowed"@,
        annotation_value(state) == "unknown"@ <==> state is Unknown,
        !(state is Unknown) ==> (annotation_value(state) == text <==> annotated_state(text)
            == state),
{
    annotation_round_trip(DecommissionState::Unknown);
    annotation_round_trip(DecommissionState::Draining);
    annotation_round_trip(DecommissionState::ReadinessLost);
    annotation_round_trip(DecommissionState::PreStopRunning);
    annotation_round_trip(DecommissionState::StateHandover);
    annotation_round_trip(DecommissionState::DeletionAllowed);
}

} // verus!

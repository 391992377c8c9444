use dat6_kubernetes_controller::decommission::{
    state_to_annotation_value, transition, DecommissionEvent as E, DecommissionState as S,
};

const STATES: [S; 6] = [
    S::Unknown,
    S::Draining,
    S::ReadinessLost,
    S::PreStopRunning,
    S::StateHandover,
    S::DeletionAllowed,
];

const EVENTS: [E; 8] = [
    E::PodTerminating,
    E::ReadinessLost,
    E::EndpointsRemoved,
    E::PreStopStarted,
    E::PreStopFinished,
    E::StateHandoverComplete,
    E::DrainVerified,
    E::DeletionAllowed,
];

#[test]
fn default_state_is_unknown() {
    assert_eq!(S::default(), S::Unknown);
}

#[test]
fn every_transition_of_the_table() {
    let table = [
        (S::Unknown, E::PodTerminating, S::Draining),
        (S::Draining, E::ReadinessLost, S::ReadinessLost),
        (S::Draining, E::EndpointsRemoved, S::ReadinessLost),
        (S::Draining, E::DrainVerified, S::DeletionAllowed),
        (S::ReadinessLost, E::PreStopStarted, S::PreStopRunning),
        (S::ReadinessLost, E::PreStopFinished, S::DeletionAllowed),
        (S::PreStopRunning, E::PreStopFinished, S::DeletionAllowed),
        (S::PreStopRunning, E::StateHandoverComplete, S::StateHandover),
        (S::StateHandover, E::StateHandoverComplete, S::DeletionAllowed),
        (S::StateHandover, E::DeletionAllowed, S::DeletionAllowed),
    ];
    for (from, event, to) in table {
        assert_eq!(transition(from, event), to);
    }
    let mut changes: usize = 0;
    for state in STATES {
        for event in EVENTS {
            if transition(state, event) != state {
                changes += 1;
            }
        }
    }
    assert_eq!(changes, table.len());
}

#[test]
fn full_lifecycle_with_handover() {
    let mut state = S::Unknown;
    for event in [
        E::PodTerminating,
        E::EndpointsRemoved,
        E::PreStopStarted,
        E::StateHandoverComplete,
        E::StateHandoverComplete,
    ] {
        state = transition(state, event);
    }
    assert_eq!(state, S::DeletionAllowed);
}

#[test]
fn deletion_allowed_is_final() {
    for event in EVENTS {
        assert_eq!(transition(S::DeletionAllowed, event), S::DeletionAllowed);
    }
}

#[test]
fn untracked_pod_needs_termination_first() {
    for event in EVENTS {
        let next = transition(S::Unknown, event);
        assert_eq!(next != S::Unknown, matches!(event, E::PodTerminating));
    }
}

#[test]
fn annotation_values() {
    let values = [
        "unknown",
        "draining",
        "readiness_lost",
        "pre_stop_running",
        "state_handover",
        "deletion_allowed",
    ];
    for (state, value) in STATES.into_iter().zip(values) {
        assert_eq!(state_to_annotation_value(state), value);
    }
}

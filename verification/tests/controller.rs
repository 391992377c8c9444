use dat6_kubernetes_controller::controller::{
    add_pod_finalizer, carry_out, drainez_outcome, drainez_url, error_policy_deployment,
    error_policy_pod, error_policy_statefulset, fsm_state_of, gate_patch,
    patch_pod_readiness_gate_status, reconcile_deployment, reconcile_pod, reconcile_pod_at,
    reconcile_statefulset, remove_pod_finalizer, resume_pod, resume_pod_at, step_after_poll,
    ConditionsPatch, DrainezPollOutcome, DrainezReply, GateCondition, PodReply, PodStep, Requeue,
    POD_FINALIZER,
};
use dat6_kubernetes_controller::decommission::DecommissionState as S;
use dat6_kubernetes_controller::pod::{
    has_pod_finalizer, has_readiness_gate, read_fsm_state_from_pod, readiness_gate_is_true, Pod,
    PodCondition, PodMetadata, PodSpec, PodStatus, STATE_ANNOTATION,
};
use dat6_kubernetes_controller::policy::{
    DecommissionPolicy, PolicyDecision, READINESS_GATE_CONDITION_TYPE,
};
use dat6_kubernetes_controller::timestamp::Timestamp;

fn policy(early: bool, drain: bool) -> DecommissionPolicy {
    let mut policy = DecommissionPolicy::default();
    policy.early_readiness_removal = early;
    policy.drain_verification = drain;
    policy
}

fn at(secs: i64) -> Timestamp {
    Timestamp::new(secs, 0).unwrap()
}

fn condition(type_: &str, status: &str) -> PodCondition {
    PodCondition {
        type_: type_.to_string(),
        status: status.to_string(),
        last_probe_time: None,
        last_transition_time: Some(at(10)),
        reason: Some("Because".to_string()),
        message: None,
    }
}

/// A running pod with the readiness gate on it, still closed.
fn running_pod() -> Pod {
    Pod {
        metadata: PodMetadata {
            name: Some("web-0".to_string()),
            generate_name: Some("web-".to_string()),
            namespace: Some("default".to_string()),
            deletion_timestamp: None,
            annotations: None,
            finalizers: Some(vec!["other/finalizer".to_string()]),
        },
        spec: Some(PodSpec {
            readiness_gates: Some(vec![READINESS_GATE_CONDITION_TYPE.to_string()]),
            termination_grace_period_seconds: Some(40),
        }),
        status: Some(PodStatus {
            phase: Some("Running".to_string()),
            pod_ip: Some("10.0.0.7".to_string()),
            conditions: Some(vec![condition("Ready", "False")]),
        }),
    }
}

/// The same pod with the readiness gate open and the finalizer on it, terminating since the
/// second 1000.
fn terminating_pod() -> Pod {
    let mut pod = running_pod();
    pod.metadata.deletion_timestamp = Some(at(1_000));
    pod.metadata.finalizers =
        Some(vec!["other/finalizer".to_string(), POD_FINALIZER.to_string()]);
    pod.status.as_mut().unwrap().conditions = Some(vec![
        condition(READINESS_GATE_CONDITION_TYPE, "True"),
        condition("Ready", "True"),
    ]);
    pod
}

fn with_state(mut pod: Pod, state: &str) -> Pod {
    pod.metadata.annotations = Some(vec![(STATE_ANNOTATION.to_string(), state.to_string())]);
    pod
}

fn bare_pod() -> Pod {
    Pod {
        metadata: PodMetadata {
            name: None,
            generate_name: None,
            namespace: None,
            deletion_timestamp: None,
            annotations: None,
            finalizers: None,
        },
        spec: None,
        status: None,
    }
}

fn answered(reply: DrainezReply) -> PodReply {
    PodReply::Answered { reply }
}

fn secs(secs: u64) -> PodStep {
    PodStep::Finished { requeue: Requeue::Secs(secs) }
}

fn soon() -> PodStep {
    PodStep::Finished { requeue: Requeue::Millis(500) }
}

#[test]
fn names_and_defaults() {
    let mut pod = running_pod();
    assert_eq!(pod.name_any(), "web-0");
    pod.metadata.name = None;
    assert_eq!(pod.name_any(), "web-");
    let bare = bare_pod();
    assert_eq!(bare.name_any(), "");
    assert_eq!(bare.namespace_or_default(), "");
    assert_eq!(bare.phase_or_unknown(), "Unknown");
    assert_eq!(bare.grace_seconds(), 30);
    assert_eq!(bare.terminating_for(&at(5)), 0);
    assert!(!bare.is_ready());
    assert!(!bare.is_terminating());
    let pod = terminating_pod();
    assert_eq!(pod.namespace_or_default(), "default");
    assert_eq!(pod.phase_or_unknown(), "Running");
    assert_eq!(pod.grace_seconds(), 40);
    assert_eq!(pod.terminating_for(&at(1_041)), 41);
    assert_eq!(pod.terminating_for(&at(999)), 0);
    assert!(pod.is_ready());
    assert!(pod.is_terminating());
}

#[test]
fn gates_and_finalizers_are_found() {
    let pod = terminating_pod();
    assert!(has_pod_finalizer(&pod, POD_FINALIZER));
    assert!(has_pod_finalizer(&pod, "other/finalizer"));
    assert!(!has_pod_finalizer(&pod, "other"));
    assert!(has_readiness_gate(&pod, READINESS_GATE_CONDITION_TYPE));
    assert!(!has_readiness_gate(&pod, "Ready"));
    assert!(readiness_gate_is_true(&pod, READINESS_GATE_CONDITION_TYPE));
    assert!(!readiness_gate_is_true(&running_pod(), READINESS_GATE_CONDITION_TYPE));
    assert!(!readiness_gate_is_true(&running_pod(), "Ready"));
    assert!(!has_pod_finalizer(&bare_pod(), POD_FINALIZER));
    assert!(!has_readiness_gate(&bare_pod(), READINESS_GATE_CONDITION_TYPE));
    assert!(!readiness_gate_is_true(&bare_pod(), READINESS_GATE_CONDITION_TYPE));
}

#[test]
fn state_is_read_from_the_annotation() {
    for (text, state) in [
        ("unknown", S::Unknown),
        ("draining", S::Draining),
        ("readiness_lost", S::ReadinessLost),
        ("pre_stop_running", S::PreStopRunning),
        ("state_handover", S::StateHandover),
        ("deletion_allowed", S::DeletionAllowed),
        ("Draining", S::Unknown),
        ("", S::Unknown),
    ] {
        assert_eq!(read_fsm_state_from_pod(&with_state(running_pod(), text)), state);
    }
    assert_eq!(read_fsm_state_from_pod(&bare_pod()), S::Unknown);
    let mut pod = bare_pod();
    pod.metadata.annotations = Some(vec![
        ("app".to_string(), "draining".to_string()),
        (STATE_ANNOTATION.to_string(), "draining".to_string()),
        (STATE_ANNOTATION.to_string(), "state_handover".to_string()),
        ("team".to_string(), "web".to_string()),
    ]);
    assert_eq!(read_fsm_state_from_pod(&pod), S::StateHandover);
}

#[test]
fn terminating_pod_counts_as_draining() {
    assert_eq!(fsm_state_of(&terminating_pod()), S::Draining);
    assert_eq!(fsm_state_of(&running_pod()), S::Unknown);
    assert_eq!(
        fsm_state_of(&with_state(terminating_pod(), "deletion_allowed")),
        S::DeletionAllowed
    );
}

#[test]
fn finalizer_is_added_after_the_others() {
    assert_eq!(
        add_pod_finalizer(&running_pod()),
        Some(vec!["other/finalizer".to_string(), POD_FINALIZER.to_string()])
    );
    assert_eq!(add_pod_finalizer(&bare_pod()), Some(vec![POD_FINALIZER.to_string()]));
    assert_eq!(add_pod_finalizer(&terminating_pod()), None);
}

#[test]
fn finalizer_is_removed_alone() {
    let all: Vec<String> = ["a", POD_FINALIZER, "b", POD_FINALIZER]
        .into_iter()
        .map(String::from)
        .collect();
    assert_eq!(remove_pod_finalizer(Some(all)), vec!["a".to_string(), "b".to_string()]);
    assert!(remove_pod_finalizer(None).is_empty());
    let added = add_pod_finalizer(&running_pod());
    assert_eq!(Some(remove_pod_finalizer(added)), running_pod().metadata.finalizers);
}

#[test]
fn gate_patch_keeps_the_other_conditions() {
    let mut pod = terminating_pod();
    pod.status
        .as_mut()
        .unwrap()
        .conditions
        .as_mut()
        .unwrap()
        .push(condition(READINESS_GATE_CONDITION_TYPE, "Unknown"));
    let patch = gate_patch(&pod, "False", "Why", "What", "then".to_string());
    assert_eq!(
        patch,
        ConditionsPatch {
            kept: vec![condition("Ready", "True")],
            gate: GateCondition {
                status: "False".to_string(),
                last_transition_time: "then".to_string(),
                reason: "Why".to_string(),
                message: "What".to_string(),
            },
        }
    );
    assert!(gate_patch(&bare_pod(), "True", "", "", String::new()).kept.is_empty());
}

#[test]
fn gate_patch_is_dated() {
    let patch = patch_pod_readiness_gate_status(
        &terminating_pod(),
        "True",
        "Why",
        "What",
        &at(1_431_648_000),
    );
    assert_eq!(patch.gate.last_transition_time, "2015-05-15T00:00:00+00:00");
    assert_eq!(patch.gate.status, "True");
}

#[test]
fn url_of_a_pod() {
    assert_eq!(
        drainez_url(&running_pod()),
        Some("http://10.0.0.7:8080/drainez".to_string())
    );
    assert_eq!(drainez_url(&bare_pod()), None);
}

#[test]
fn replies_are_told_apart() {
    assert_eq!(
        drainez_outcome(DrainezReply::RequestFailed),
        DrainezPollOutcome::Unreachable
    );
    assert_eq!(drainez_outcome(DrainezReply::BodyUnreadable), DrainezPollOutcome::NotYet);
    assert_eq!(
        drainez_outcome(DrainezReply::Payload { ready_to_delete: false }),
        DrainezPollOutcome::NotYet
    );
    assert_eq!(
        drainez_outcome(DrainezReply::Payload { ready_to_delete: true }),
        DrainezPollOutcome::ReadyToDelete
    );
}

#[test]
fn poll_outcomes_decide() {
    let pod = terminating_pod();
    let verified = PodStep::PersistVerified { annotation: "deletion_allowed".to_string() };
    assert_eq!(
        step_after_poll(DrainezPollOutcome::ReadyToDelete, &pod, S::Draining, &at(1_001)),
        verified
    );
    assert_eq!(
        step_after_poll(DrainezPollOutcome::NotYet, &pod, S::Draining, &at(9_999)),
        soon()
    );
    assert_eq!(
        step_after_poll(DrainezPollOutcome::Unreachable, &pod, S::Draining, &at(1_039)),
        soon()
    );
    assert_eq!(
        step_after_poll(DrainezPollOutcome::Unreachable, &pod, S::Draining, &at(1_040)),
        verified
    );
    let mut pod = pod;
    pod.spec.as_mut().unwrap().termination_grace_period_seconds = None;
    assert_eq!(
        step_after_poll(DrainezPollOutcome::Unreachable, &pod, S::Draining, &at(1_029)),
        soon()
    );
    assert_eq!(
        step_after_poll(DrainezPollOutcome::Unreachable, &pod, S::Draining, &at(1_030)),
        verified
    );
}

#[test]
fn every_decision_is_carried_out() {
    let pod = with_state(terminating_pod(), "draining");
    let now = at(1_001);
    let step = |decision: PolicyDecision| carry_out(&decision, &pod, S::Draining, &now);
    assert_eq!(step(PolicyDecision::NoAction), secs(300));
    assert_eq!(
        step(PolicyDecision::DelayDeletion {
            reason: "busy".to_string(),
            requeue_after_secs: 7,
        }),
        secs(7)
    );
    assert_eq!(step(PolicyDecision::EnsurePreStop { requeue_after_secs: 8 }), secs(8));
    assert_eq!(
        step(PolicyDecision::WaitForStateHandover { requeue_after_secs: u64::MAX }),
        secs(u64::MAX)
    );
    assert_eq!(
        step(PolicyDecision::AllowDeletion),
        PodStep::FetchFinalizers { requeue: Requeue::Secs(300) }
    );
    assert_eq!(
        step(PolicyDecision::WaitForDrainVerification),
        PodStep::PollDrainez { url: "http://10.0.0.7:8080/drainez".to_string() }
    );
    assert_eq!(
        step(PolicyDecision::EnsureReadinessRemoved { requeue_after_secs: 3 }),
        PodStep::CloseGate {
            patch: ConditionsPatch {
                kept: vec![condition("Ready", "True")],
                gate: GateCondition {
                    status: "False".to_string(),
                    last_transition_time: "1970-01-01T00:16:41+00:00".to_string(),
                    reason: "EarlyReadinessRemoval".to_string(),
                    message: "S1: removed from Service endpoints before drain".to_string(),
                },
            },
            requeue: Requeue::Secs(3),
        }
    );
}

#[test]
fn running_pod_gets_the_finalizer_first() {
    let p = policy(true, true);
    let pod = running_pod();
    let step = reconcile_pod_at(&p, &pod, &at(0));
    assert_eq!(
        step,
        PodStep::AddFinalizer {
            finalizers: vec!["other/finalizer".to_string(), POD_FINALIZER.to_string()],
        }
    );
    assert_eq!(
        resume_pod_at(&p, &pod, step.clone(), PodReply::Succeeded, &at(0)),
        secs(1)
    );
    assert_eq!(resume_pod_at(&p, &pod, step, PodReply::Failed, &at(0)), secs(2));
    let mut pending = running_pod();
    pending.status.as_mut().unwrap().phase = Some("Pending".to_string());
    assert!(matches!(reconcile_pod_at(&p, &pending, &at(0)), PodStep::OpenGate { .. }));
}

#[test]
fn active_pod_gets_its_gate_opened() {
    let p = policy(true, false);
    let pod = running_pod();
    let step = reconcile_pod_at(&p, &pod, &at(0));
    assert_eq!(
        step,
        PodStep::OpenGate {
            patch: ConditionsPatch {
                kept: vec![condition("Ready", "False")],
                gate: GateCondition {
                    status: "True".to_string(),
                    last_transition_time: "1970-01-01T00:00:00+00:00".to_string(),
                    reason: "ReadyForService".to_string(),
                    message: "controller marks readiness gate true while pod is active"
                        .to_string(),
                },
            },
        }
    );
    assert_eq!(
        resume_pod_at(&p, &pod, step.clone(), PodReply::Succeeded, &at(0)),
        secs(300)
    );
    assert_eq!(resume_pod_at(&p, &pod, step, PodReply::Failed, &at(0)), secs(2));
    let mut open = running_pod();
    open.status.as_mut().unwrap().conditions =
        Some(vec![condition(READINESS_GATE_CONDITION_TYPE, "True")]);
    assert_eq!(reconcile_pod_at(&p, &open, &at(0)), secs(300));
    assert_eq!(reconcile_pod_at(&p, &bare_pod(), &at(0)), secs(300));
}

#[test]
fn early_readiness_removal_round() {
    let p = policy(true, false);
    let pod = terminating_pod();
    let step = reconcile_pod_at(&p, &pod, &at(1_001));
    assert_eq!(step, PodStep::PersistDraining { annotation: "draining".to_string() });
    assert_eq!(
        resume_pod_at(&p, &pod, step.clone(), PodReply::Failed, &at(1_001)),
        PodStep::Failed
    );
    let step = resume_pod_at(&p, &pod, step, PodReply::Succeeded, &at(1_002));
    assert!(matches!(
        &step,
        PodStep::CloseGate { patch, requeue: Requeue::Secs(1) } if patch.gate.status == "False"
    ));
    assert_eq!(
        resume_pod_at(&p, &pod, step.clone(), PodReply::Succeeded, &at(1_002)),
        secs(1)
    );
    assert_eq!(resume_pod_at(&p, &pod, step, PodReply::Failed, &at(1_002)), secs(2));
    let mut closed = with_state(terminating_pod(), "draining");
    closed.status.as_mut().unwrap().conditions =
        Some(vec![condition(READINESS_GATE_CONDITION_TYPE, "False")]);
    assert_eq!(reconcile_pod_at(&p, &closed, &at(1_003)), secs(300));
}

#[test]
fn drain_verification_round() {
    let p = policy(false, true);
    let pod = with_state(terminating_pod(), "draining");
    let poll = reconcile_pod_at(&p, &pod, &at(1_001));
    assert_eq!(
        poll,
        PodStep::PollDrainez { url: "http://10.0.0.7:8080/drainez".to_string() }
    );
    assert_eq!(
        resume_pod_at(&p, &pod, poll.clone(), answered(DrainezReply::BodyUnreadable), &at(9_999)),
        soon()
    );
    assert_eq!(
        resume_pod_at(&p, &pod, poll.clone(), answered(DrainezReply::RequestFailed), &at(1_039)),
        soon()
    );
    assert!(matches!(
        resume_pod_at(&p, &pod, poll.clone(), answered(DrainezReply::RequestFailed), &at(1_040)),
        PodStep::PersistVerified { .. }
    ));
    let step = resume_pod_at(
        &p,
        &pod,
        poll,
        answered(DrainezReply::Payload { ready_to_delete: true }),
        &at(1_002),
    );
    assert_eq!(step, PodStep::PersistVerified { annotation: "deletion_allowed".to_string() });
    assert_eq!(
        resume_pod_at(&p, &pod, step.clone(), PodReply::Failed, &at(1_002)),
        PodStep::Failed
    );
    let step = resume_pod_at(&p, &pod, step, PodReply::Succeeded, &at(1_002));
    assert_eq!(step, PodStep::FetchFinalizers { requeue: Requeue::Secs(1) });
    assert_eq!(
        resume_pod_at(&p, &pod, step.clone(), PodReply::Failed, &at(1_002)),
        PodStep::Failed
    );
    let fetched = PodReply::Fetched {
        finalizers: Some(vec![POD_FINALIZER.to_string(), "new/finalizer".to_string()]),
    };
    let step = resume_pod_at(&p, &pod, step, fetched, &at(1_002));
    assert_eq!(
        step,
        PodStep::ReleaseFinalizer {
            finalizers: vec!["new/finalizer".to_string()],
            requeue: Requeue::Secs(1),
        }
    );
    assert_eq!(
        resume_pod_at(&p, &pod, step.clone(), PodReply::Failed, &at(1_002)),
        PodStep::Failed
    );
    assert_eq!(resume_pod_at(&p, &pod, step, PodReply::Succeeded, &at(1_002)), secs(1));
}

#[test]
fn longest_round_takes_six_steps() {
    let p = policy(false, true);
    let mut pod = terminating_pod();
    pod.metadata.finalizers = None;
    let replies = [
        PodReply::Succeeded,
        PodReply::Failed,
        answered(DrainezReply::Payload { ready_to_delete: true }),
        PodReply::Succeeded,
        PodReply::Fetched { finalizers: None },
        PodReply::Succeeded,
    ];
    let mut step = reconcile_pod_at(&p, &pod, &at(1_001));
    let mut seen: Vec<PodStep> = Vec::new();
    for reply in replies {
        seen.push(step.clone());
        step = resume_pod_at(&p, &pod, step, reply, &at(1_001));
    }
    assert_eq!(step, secs(1));
    assert!(matches!(seen[0], PodStep::PersistDraining { .. }));
    assert_eq!(
        seen[1],
        PodStep::AddFinalizerLate { finalizers: vec![POD_FINALIZER.to_string()] }
    );
    assert!(matches!(seen[2], PodStep::PollDrainez { .. }));
    assert!(matches!(seen[3], PodStep::PersistVerified { .. }));
    assert!(matches!(seen[4], PodStep::FetchFinalizers { .. }));
    assert!(matches!(seen[5], PodStep::ReleaseFinalizer { .. }));
}

#[test]
fn pod_without_ip_is_given_up_past_its_grace_period() {
    let p = policy(false, true);
    let mut pod = with_state(terminating_pod(), "draining");
    pod.status.as_mut().unwrap().pod_ip = None;
    assert_eq!(reconcile_pod_at(&p, &pod, &at(1_039)), soon());
    assert!(matches!(
        reconcile_pod_at(&p, &pod, &at(1_040)),
        PodStep::PersistVerified { .. }
    ));
}

#[test]
fn dead_pods_are_released_past_their_grace_period() {
    let p = policy(false, true);
    let with_ip = with_state(terminating_pod(), "draining");
    let mut without_ip = with_ip.clone();
    without_ip.status.as_mut().unwrap().pod_ip = None;
    for pod in [with_ip, without_ip] {
        let mut step = reconcile_pod_at(&p, &pod, &at(1_040));
        if pod.status.as_ref().unwrap().pod_ip.is_some() {
            step = resume_pod_at(
                &p,
                &pod,
                step,
                answered(DrainezReply::RequestFailed),
                &at(1_040),
            );
        }
        assert_eq!(step, PodStep::PersistVerified { annotation: "deletion_allowed".to_string() });
        let step = resume_pod_at(&p, &pod, step, PodReply::Succeeded, &at(1_040));
        let fetched = PodReply::Fetched { finalizers: Some(vec![POD_FINALIZER.to_string()]) };
        let step = resume_pod_at(&p, &pod, step, fetched, &at(1_040));
        assert_eq!(
            step,
            PodStep::ReleaseFinalizer { finalizers: vec![], requeue: Requeue::Secs(1) }
        );
        assert_eq!(resume_pod_at(&p, &pod, step, PodReply::Succeeded, &at(1_040)), secs(1));
    }
}

#[test]
fn pod_without_ip_is_given_up_in_its_first_round() {
    let p = policy(false, true);
    let mut pod = terminating_pod();
    pod.status.as_mut().unwrap().pod_ip = None;
    pod.metadata.finalizers = None;
    let step = reconcile_pod_at(&p, &pod, &at(1_039));
    let step = resume_pod_at(&p, &pod, step, PodReply::Succeeded, &at(1_039));
    assert!(matches!(step, PodStep::AddFinalizerLate { .. }));
    assert_eq!(
        resume_pod_at(&p, &pod, step.clone(), PodReply::Succeeded, &at(1_039)),
        soon()
    );
    assert_eq!(
        resume_pod_at(&p, &pod, step, PodReply::Succeeded, &at(1_040)),
        PodStep::PersistVerified { annotation: "deletion_allowed".to_string() }
    );
}

#[test]
fn allowed_deletion_is_left_alone() {
    let mut pod = with_state(terminating_pod(), "deletion_allowed");
    pod.metadata.finalizers = Some(vec![POD_FINALIZER.to_string()]);
    assert_eq!(reconcile_pod_at(&policy(false, true), &pod, &at(9_999)), secs(300));
    assert!(matches!(
        reconcile_pod_at(&policy(true, true), &pod, &at(9_999)),
        PodStep::CloseGate { .. }
    ));
}

#[test]
fn both_strategies_close_the_gate_before_polling() {
    let p = policy(true, true);
    let pod = with_state(terminating_pod(), "draining");
    assert!(matches!(reconcile_pod_at(&p, &pod, &at(1_001)), PodStep::CloseGate { .. }));
    let mut closed = pod;
    closed.status.as_mut().unwrap().conditions =
        Some(vec![condition(READINESS_GATE_CONDITION_TYPE, "False")]);
    assert!(matches!(reconcile_pod_at(&p, &closed, &at(1_001)), PodStep::PollDrainez { .. }));
}

#[test]
fn baseline_only_records_the_state() {
    let p = DecommissionPolicy::default();
    let pod = terminating_pod();
    let step = reconcile_pod_at(&p, &pod, &at(1_001));
    assert_eq!(step, PodStep::PersistDraining { annotation: "draining".to_string() });
    assert_eq!(resume_pod_at(&p, &pod, step, PodReply::Succeeded, &at(1_001)), secs(300));
    assert_eq!(
        reconcile_pod_at(&p, &with_state(terminating_pod(), "draining"), &at(1_001)),
        secs(300)
    );
}

#[test]
fn replies_out_of_place_change_nothing() {
    let p = policy(true, true);
    let pod = with_state(terminating_pod(), "draining");
    let poll = PodStep::PollDrainez { url: "u".to_string() };
    assert_eq!(resume_pod_at(&p, &pod, poll.clone(), PodReply::Succeeded, &at(0)), poll);
    let fetch = PodStep::FetchFinalizers { requeue: Requeue::Secs(1) };
    assert_eq!(resume_pod_at(&p, &pod, fetch.clone(), PodReply::Succeeded, &at(0)), fetch);
    assert_eq!(resume_pod_at(&p, &pod, secs(1), PodReply::Failed, &at(0)), secs(1));
    assert_eq!(
        resume_pod_at(&p, &pod, PodStep::Failed, PodReply::Succeeded, &at(0)),
        PodStep::Failed
    );
}

#[test]
fn rounds_go_by_the_clock() {
    let p = policy(true, true);
    let mut pod = with_state(terminating_pod(), "draining");
    // Terminating since 1970: past every grace period by now.
    let step = resume_pod(
        &p,
        &pod,
        PodStep::PollDrainez { url: "u".to_string() },
        answered(DrainezReply::RequestFailed),
    );
    assert!(matches!(step, PodStep::PersistVerified { .. }));
    // Terminating in the year 5138: not yet.
    pod.metadata.deletion_timestamp = Some(at(100_000_000_000));
    let step = resume_pod(
        &p,
        &pod,
        PodStep::PollDrainez { url: "u".to_string() },
        answered(DrainezReply::RequestFailed),
    );
    assert_eq!(step, soon());
    match reconcile_pod(&p, &pod) {
        PodStep::CloseGate { patch, .. } => {
            let text = patch.gate.last_transition_time;
            let read = chrono::DateTime::parse_from_rfc3339(&text).unwrap();
            let age = chrono::Utc::now().signed_duration_since(read).num_seconds();
            assert!((0..60).contains(&age));
        }
        other => panic!("unexpected step {:?}", other),
    }
}

#[test]
fn requeue_times() {
    assert_eq!(error_policy_pod(), Requeue::Secs(5));
    assert_eq!(error_policy_deployment(), Requeue::Secs(5));
    assert_eq!(error_policy_statefulset(), Requeue::Secs(5));
    assert_eq!(reconcile_deployment(), Requeue::Secs(300));
    assert_eq!(reconcile_statefulset(), Requeue::Secs(300));
}

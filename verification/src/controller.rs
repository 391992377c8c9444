//! Reconcile loops for Pods, Deployments and StatefulSets.
//!
//! Reconciling a pod takes requests to the API server and to the pod itself, so
//! it is told in steps: [`reconcile_pod`] gives the first [`PodStep`], the caller
//! carries it out, and [`resume_pod`] gives the step that follows from the
//! [`PodReply`]. The loop uses the policy engine and the decommission state
//! machine to take the pod out of the Service endpoints, to hold its deletion
//! with a finalizer, and to let it go once it is drained.

use vstd::prelude::*;

use crate::decommission::{
    DecommissionEvent, DecommissionState, state_to_annotation_value, transition,
};
use crate::pod::{
    ConditionView, Pod, PodCondition, PodView, clone_text, has_pod_finalizer,
    has_readiness_gate, read_fsm_state_from_pod, readiness_gate_is_true, same_text,
};
use crate::policy::{
    DecommissionPolicy, PolicyDecision, PolicyEngine, READINESS_GATE_CONDITION_TYPE,
};
use crate::timestamp::{Timestamp, TimestampView, utc_now};

verus! {

/// Finalizer that the controller adds to pods under drain verification, so that
/// the pod resource is held until the drain has been verified.
pub const POD_FINALIZER: &'static str = "decomposition.dat6.io/finalizer";

/// When to reconcile an object again.
#[derive(Clone, Copy, Debug, PartialEq, Eq, Structural)]
pub enum Requeue {
    Secs(u64),
    Millis(u64),
}

/// Outcome of a single `/drainez` poll. "Still has work in flight" and "is
/// unreachable, most likely already dead" are kept apart, so that the reconcile
/// loop can wait in the first case and bound its waiting in the second.
#[derive(Clone, Copy, Debug, PartialEq, Eq, Structural)]
pub enum DrainezPollOutcome {
    /// `/drainez` returned `ready_to_delete: true`: safe to remove the finalizer.
    ReadyToDelete,
    /// `/drainez` responded but does not report that the pod is drained.
    NotYet,
    /// The pod has no IP or the HTTP request failed: the pod is most likely gone.
    Unreachable,
}

/// What came back from a request to `/drainez`.
#[derive(Clone, Copy, Debug, PartialEq, Eq, Structural)]
pub enum DrainezReply {
    /// No response arrived in time.
    RequestFailed,
    /// A response arrived whose body does not say whether the pod is drained.
    BodyUnreadable,
    /// The pod's answer.
    Payload { ready_to_delete: bool },
}

/// The condition that the controller sets for its readiness gate.
#[derive(Clone, Debug, PartialEq, Eq)]
pub struct GateCondition {
    pub status: String,
    pub last_transition_time: String,
    pub reason: String,
    pub message: String,
}

/// New list of status conditions of a pod: those that the pod has for other
/// types, in their order, and after them the one for the readiness gate.
#[derive(Clone, Debug, PartialEq, Eq)]
pub struct ConditionsPatch {
    pub kept: Vec<PodCondition>,
    pub gate: GateCondition,
}

/// What to do next for a pod.
#[derive(Clone, Debug, PartialEq, Eq)]
pub enum PodStep {
    /// Set the finalizers of the pod, which is running.
    AddFinalizer { finalizers: Vec<String> },
    /// Set the state annotation of a pod that was found terminating.
    PersistDraining { annotation: String },
    /// Set the finalizers of a pod that is terminating already. Kubernetes may be
    /// tearing it down, so this is only an attempt.
    AddFinalizerLate { finalizers: Vec<String> },
    /// Set the status conditions, with the readiness gate true.
    OpenGate { patch: ConditionsPatch },
    /// Set the status conditions, with the readiness gate false.
    CloseGate { patch: ConditionsPatch, requeue: Requeue },
    /// Ask the pod whether it is drained.
    PollDrainez { url: String },
    /// Set the state annotation of a pod that is drained, or past waiting for.
    PersistVerified { annotation: String },
    /// Read the finalizers that the pod has now.
    FetchFinalizers { requeue: Requeue },
    /// Set the finalizers of the pod, to let it go.
    ReleaseFinalizer { finalizers: Vec<String>, requeue: Requeue },
    /// Nothing more to do in this round.
    Finished { requeue: Requeue },
    /// The last request failed, and its error ends the round.
    Failed,
}

/// How a step went.
#[derive(Clone, Debug, PartialEq, Eq)]
pub enum PodReply {
    /// The request was carried out.
    Succeeded,
    /// The request failed.
    Failed,
    /// The finalizers that the pod has now.
    Fetched { finalizers: Option<Vec<String>> },
    /// What came back from the pod.
    Answered { reply: DrainezReply },
}

pub struct GateConditionView {
    pub status: Seq<char>,
    pub last_transition_time: Seq<char>,
    pub reason: Seq<char>,
    pub message: Seq<char>,
}

#[verifier::ext_equal]
pub struct ConditionsPatchView {
    pub kept: Seq<ConditionView>,
    pub gate: GateConditionView,
}

#[verifier::ext_equal]
pub enum PodStepView {
    AddFinalizer { finalizers: Seq<Seq<char>> },
    PersistDraining { annotation: Seq<char> },
    AddFinalizerLate { finalizers: Seq<Seq<char>> },
    OpenGate { patch: ConditionsPatchView },
    CloseGate { patch: ConditionsPatchView, requeue: Requeue },
    PollDrainez { url: Seq<char> },
    PersistVerified { annotation: Seq<char> },
    FetchFinalizers { requeue: Requeue },
    ReleaseFinalizer { finalizers: Seq<Seq<char>>, requeue: Requeue },
    Finished { requeue: Requeue },
    Failed,
}

#[verifier::ext_equal]
pub enum PodReplyView {
    Succeeded,
    Failed,
    Fetched { finalizers: Seq<Seq<char>> },
    Answered { reply: DrainezReply },
}

impl View for GateCondition {
    type V = GateConditionView;

    open spec fn view(&self) -> GateConditionView {
        GateConditionView {
            status: self.status@,
            last_transition_time: self.last_transition_time@,
            reason: self.reason@,
            message: self.message@,
        }
    }
}

impl View for ConditionsPatch {
    type V = ConditionsPatchView;

    open spec fn view(&self) -> ConditionsPatchView {
        ConditionsPatchView {
            kept: crate::pod::conditions_view(self.kept@),
            gate: self.gate@,
        }
    }
}

impl View for PodStep {
    type V = PodStepView;

    open spec fn view(&self) -> PodStepView {
        match *self {
            PodStep::AddFinalizer { finalizers } => PodStepView::AddFinalizer {
                finalizers: crate::pod::texts(finalizers@),
            },
            PodStep::PersistDraining { annotation } => PodStepView::PersistDraining {
                annotation: annotation@,
            },
            PodStep::AddFinalizerLate { finalizers } => PodStepView::AddFinalizerLate {
                finalizers: crate::pod::texts(finalizers@),
            },
            PodStep::OpenGate { patch } => PodStepView::OpenGate { patch: patch@ },
            PodStep::CloseGate { patch, requeue } => PodStepView::CloseGate {
                patch: patch@,
                requeue,
            },
            PodStep::PollDrainez { url } => PodStepView::PollDrainez { url: url@ },
            PodStep::PersistVerified { annotation } => PodStepView::PersistVerified {
                annotation: annotation@,
            },
            PodStep::FetchFinalizers { requeue } => PodStepView::FetchFinalizers { requeue },
            PodStep::ReleaseFinalizer { finalizers, requeue } => PodStepView::ReleaseFinalizer {
                finalizers: crate::pod::texts(finalizers@),
                requeue,
            },
            PodStep::Finished { requeue } => PodStepView::Finished { requeue },
            PodStep::Failed => PodStepView::Failed,
        }
    }
}

impl View for PodReply {
    type V = PodReplyView;

    open spec fn view(&self) -> PodReplyView {
        match *self {
            PodReply::Succeeded => PodReplyView::Succeeded,
            PodReply::Failed => PodReplyView::Failed,
            PodReply::Fetched { finalizers } => PodReplyView::Fetched {
                finalizers: crate::pod::optional_texts(finalizers),
            },
            PodReply::Answered { reply } => PodReplyView::Answered { reply },
        }
    }
}

// ---------- Finalizers ----------

/// The finalizers of a pod without the controller's own.
pub open spec fn without_ours(finalizers: Seq<Seq<char>>) -> Seq<Seq<char>> {
    finalizers.filter(|finalizer: Seq<char>| finalizer != POD_FINALIZER@)
}

/// The finalizers that the pod gets when the controller's own is added, after
/// those it has; nothing if it is among them already.
pub fn add_pod_finalizer(pod: &Pod) -> (added: Option<Vec<String>>)
    ensures
        added is Some <==> !pod@.finalizers.contains(POD_FINALIZER@),
        added matches Some(list) ==> crate::pod::texts(list@) == pod@.finalizers.push(
            POD_FINALIZER@,
        ),
{
    if has_pod_finalizer(pod, POD_FINALIZER) {
        return None;
    }
    let mut list: Vec<String> = Vec::new();
    if let Some(existing) = &pod.metadata.finalizers {
        let mut i: usize = 0;
        while i < existing.len()
            invariant
                i <= existing.len(),
                crate::pod::texts(list@) == crate::pod::texts(existing@).take(i as int),
            decreases existing.len() - i,
        {
            let ghost before = list@;
            list.push(existing[i].clone());
            assert(crate::pod::texts(list@) =~= crate::pod::texts(before).push(
                existing@[i as int]@,
            ));
            assert(crate::pod::texts(existing@).take(i + 1) =~= crate::pod::texts(existing@).take(
                i as int,
            ).push(existing@[i as int]@));
            i += 1;
        }
    }
    assert(crate::pod::texts(list@) =~= pod@.finalizers);
    list.push(POD_FINALIZER.to_string());
    assert(crate::pod::texts(list@) =~= pod@.finalizers.push(POD_FINALIZER@));
    Some(list)
}

/// The finalizers that remain when the controller's own is removed, in their
/// order.
pub fn remove_pod_finalizer(finalizers: Option<Vec<String>>) -> (remaining: Vec<String>)
    ensures
        crate::pod::texts(remaining@) == without_ours(crate::pod::optional_texts(finalizers)),
{
    let mut remaining: Vec<String> = Vec::new();
    let ghost all = crate::pod::optional_texts(finalizers);
    proof {
        reveal(Seq::filter);
    }
    assert(crate::pod::texts(remaining@) =~= without_ours(Seq::empty()));
    if let Some(list) = &finalizers {
        assert(all.take(0) =~= Seq::empty());
        let mut i: usize = 0;
        while i < list.len()
            invariant
                i <= list.len(),
                all == crate::pod::texts(list@),
                crate::pod::texts(remaining@) == without_ours(all.take(i as int)),
            decreases list.len() - i,
        {
            proof {
                reveal(Seq::filter);
                assert(all.take(i + 1).drop_last() =~= all.take(i as int));
            }
            let ghost before = remaining@;
            if !same_text(&list[i], POD_FINALIZER) {
                remaining.push(list[i].clone());
                assert(crate::pod::texts(remaining@) =~= crate::pod::texts(before).push(
                    all[i as int],
                ));
            }
            i += 1;
        }
        assert(all.take(list.len() as int) =~= all);
    }
    remaining
}

// ---------- Readiness gate ----------

/// The conditions of a pod that are not those of the controller's gate.
pub open spec fn other_conditions(conditions: Seq<ConditionView>) -> Seq<ConditionView> {
    conditions.filter(|condition: ConditionView| condition.type_ != READINESS_GATE_CONDITION_TYPE@)
}

/// The patch that gives the readiness gate's condition this status, reason and
/// message, from the time on that `at` writes.
pub open spec fn gate_patch_view(
    pod: PodView,
    status: Seq<char>,
    reason: Seq<char>,
    message: Seq<char>,
    at: Seq<char>,
) -> ConditionsPatchView {
    ConditionsPatchView {
        kept: other_conditions(pod.conditions),
        gate: GateConditionView { status, last_transition_time: at, reason, message },
    }
}

fn copy_condition(condition: &PodCondition) -> (copy: PodCondition)
    ensures
        copy@ == condition@,
{
    PodCondition {
        type_: condition.type_.clone(),
        status: condition.status.clone(),
        last_probe_time: condition.last_probe_time,
        last_transition_time: condition.last_transition_time,
        reason: clone_text(&condition.reason),
        message: clone_text(&condition.message),
    }
}

/// The status conditions of a pod with the readiness gate's condition set to
/// `status`; `at` is the time of the change.
pub fn gate_patch(pod: &Pod, status: &str, reason: &str, message: &str, at: String) -> (patch:
    ConditionsPatch)
    ensures
        patch@ == gate_patch_view(pod@, status@, reason@, message@, at@),
{
    let mut kept: Vec<PodCondition> = Vec::new();
    let ghost all = pod@.conditions;
    proof {
        reveal(Seq::filter);
    }
    assert(crate::pod::conditions_view(kept@) =~= other_conditions(Seq::empty()));
    if let Some(pod_status) = &pod.status {
        if let Some(conditions) = &pod_status.conditions {
            assert(all.take(0) =~= Seq::empty());
            let mut i: usize = 0;
            while i < conditions.len()
                invariant
                    i <= conditions.len(),
                    all == crate::pod::conditions_view(conditions@),
                    crate::pod::conditions_view(kept@) == other_conditions(all.take(i as int)),
                decreases conditions.len() - i,
            {
                proof {
                    reveal(Seq::filter);
                    assert(all.take(i + 1).drop_last() =~= all.take(i as int));
                }
                let ghost before = kept@;
                if !same_text(&conditions[i].type_, READINESS_GATE_CONDITION_TYPE) {
                    kept.push(copy_condition(&conditions[i]));
                    assert(crate::pod::conditions_view(kept@) =~= crate::pod::conditions_view(
                        before,
                    ).push(all[i as int]));
                }
                i += 1;
            }
            assert(all.take(conditions.len() as int) =~= all);
        }
    }
    assert(crate::pod::conditions_view(kept@) == other_conditions(all));
    ConditionsPatch {
        kept,
        gate: GateCondition {
            status: status.to_string(),
            last_transition_time: at,
            reason: reason.to_string(),
            message: message.to_string(),
        },
    }
}

/// The status conditions of a pod with the readiness gate's condition set to
/// `status` now.
pub fn patch_pod_readiness_gate_status(
    pod: &Pod,
    status: &str,
    reason: &str,
    message: &str,
    now: &Timestamp,
) -> (patch: ConditionsPatch)
    ensures
        patch@ == gate_patch_view(pod@, status@, reason@, message@, written(now@)),
{
    gate_patch(pod, status, reason, message, now.rfc3339())
}

/// A point in time as the patches write it.
pub open spec fn written(at: TimestampView) -> Seq<char> {
    crate::timestamp::rfc3339_text(at.secs, at.nanos)
}

// ---------- Drain verification ----------

/// Where a pod answers whether it is drained.
pub open spec fn drainez_url_of(ip: Seq<char>) -> Seq<char> {
    "http://"@ + ip + ":8080/drainez"@
}

/// Where a pod answers whether it is drained; nothing if the pod has no IP.
pub fn drainez_url(pod: &Pod) -> (url: Option<String>)
    ensures
        url is Some <==> pod@.pod_ip is Some,
        url matches Some(url) ==> url@ == drainez_url_of(pod@.pod_ip->0),
{
    if let Some(status) = &pod.status {
        if let Some(ip) = &status.pod_ip {
            let mut url: String = "http://".to_string();
            url.append(ip.as_str());
            url.append(":8080/drainez");
            return Some(url);
        }
    }
    None
}

/// What a reply says of the pod: no response means that the pod is unreachable,
/// and a response lets it go only if it says that the pod is drained.
pub open spec fn outcome_of(reply: DrainezReply) -> DrainezPollOutcome {
    match reply {
        DrainezReply::RequestFailed => DrainezPollOutcome::Unreachable,
        DrainezReply::BodyUnreadable => DrainezPollOutcome::NotYet,
        DrainezReply::Payload { ready_to_delete } => if ready_to_delete {
            DrainezPollOutcome::ReadyToDelete
        } else {
            DrainezPollOutcome::NotYet
        },
    }
}

/// What a reply says of the pod.
pub fn drainez_outcome(reply: DrainezReply) -> (outcome: DrainezPollOutcome)
    ensures
        outcome == outcome_of(reply),
{
    match reply {
        DrainezReply::RequestFailed => DrainezPollOutcome::Unreachable,
        DrainezReply::BodyUnreadable => DrainezPollOutcome::NotYet,
        DrainezReply::Payload { ready_to_delete } => {
            if ready_to_delete {
                DrainezPollOutcome::ReadyToDelete
            } else {
                DrainezPollOutcome::NotYet
            }
        },
    }
}

/// Whether the pod has been terminating for its whole grace period: the kubelet
/// has killed it by now.
pub open spec fn past_grace(pod: PodView, now: TimestampView) -> bool {
    pod.terminating_for(now) >= pod.grace_seconds()
}

/// Whether the outcome of a poll lets the pod go.
pub open spec fn lets_go(outcome: DrainezPollOutcome, pod: PodView, now: TimestampView) -> bool {
    match outcome {
        DrainezPollOutcome::ReadyToDelete => true,
        DrainezPollOutcome::NotYet => false,
        DrainezPollOutcome::Unreachable => past_grace(pod, now),
    }
}

/// The step after a poll: record the verified drain if the pod may go, else poll
/// again soon.
pub open spec fn after_poll(
    outcome: DrainezPollOutcome,
    pod: PodView,
    fsm_state: DecommissionState,
    now: TimestampView,
) -> PodStepView {
    if lets_go(outcome, pod, now) {
        PodStepView::PersistVerified {
            annotation: crate::decommission::annotation_value(
                crate::decommission::after_event(fsm_state, DecommissionEvent::DrainVerified),
            ),
        }
    } else {
        PodStepView::Finished { requeue: Requeue::Millis(500) }
    }
}

/// Decides what follows from the outcome of a poll.
pub fn step_after_poll(
    outcome: DrainezPollOutcome,
    pod: &Pod,
    fsm_state: DecommissionState,
    now: &Timestamp,
) -> (step: PodStep)
    ensures
        step@ == after_poll(outcome, pod@, fsm_state, now@),
{
    let go: bool = match outcome {
        DrainezPollOutcome::ReadyToDelete => true,
        DrainezPollOutcome::NotYet => false,
        DrainezPollOutcome::Unreachable => pod.terminating_for(now) >= pod.grace_seconds(),
    };
    if go {
        let next: DecommissionState = transition(fsm_state, DecommissionEvent::DrainVerified);
        PodStep::PersistVerified { annotation: state_to_annotation_value(next) }
    } else {
        PodStep::Finished { requeue: Requeue::Millis(500) }
    }
}

// ---------- Pod controller ----------

/// The decommission state of a pod: what its annotation keeps, and for a pod
/// that was not tracked so far and is terminating, the state that starts with.
pub open spec fn current_state(pod: PodView) -> DecommissionState {
    if pod.is_terminating() && pod.annotated_state() == DecommissionState::Unknown {
        crate::decommission::after_event(
            DecommissionState::Unknown,
            DecommissionEvent::PodTerminating,
        )
    } else {
        pod.annotated_state()
    }
}

/// Whether the controller's gate stands on a pod and is open.
pub open spec fn gate_is_open(pod: PodView) -> bool {
    pod.readiness_gates.contains(READINESS_GATE_CONDITION_TYPE@) && pod.condition_is_true(
        READINESS_GATE_CONDITION_TYPE@,
    )
}

/// What the policy decides for a pod. A pod counts as ready, and so as one whose
/// readiness can be removed, while the controller's gate on it is open.
pub open spec fn decision_for(policy: DecommissionPolicy, pod: PodView) -> PolicyDecision {
    crate::policy::decided(policy, pod.is_terminating(), gate_is_open(pod), current_state(pod))
}

/// The step that carries out a decision.
pub open spec fn carried_out(
    decision: PolicyDecision,
    pod: PodView,
    fsm_state: DecommissionState,
    now: TimestampView,
) -> PodStepView {
    match decision {
        PolicyDecision::NoAction => PodStepView::Finished { requeue: Requeue::Secs(300) },
        PolicyDecision::EnsureReadinessRemoved { requeue_after_secs } => PodStepView::CloseGate {
            patch: gate_patch_view(
                pod,
                "False"@,
                "EarlyReadinessRemoval"@,
                "S1: removed from Service endpoints before drain"@,
                written(now),
            ),
            requeue: Requeue::Secs(requeue_after_secs),
        },
        PolicyDecision::WaitForDrainVerification => match pod.pod_ip {
            Some(ip) => PodStepView::PollDrainez { url: drainez_url_of(ip) },
            None => after_poll(DrainezPollOutcome::Unreachable, pod, fsm_state, now),
        },
        PolicyDecision::DelayDeletion { reason, requeue_after_secs } => PodStepView::Finished {
            requeue: Requeue::Secs(requeue_after_secs),
        },
        PolicyDecision::EnsurePreStop { requeue_after_secs } => PodStepView::Finished {
            requeue: Requeue::Secs(requeue_after_secs),
        },
        PolicyDecision::AllowDeletion => PodStepView::FetchFinalizers {
            requeue: Requeue::Secs(300),
        },
        PolicyDecision::WaitForStateHandover { requeue_after_secs } => PodStepView::Finished {
            requeue: Requeue::Secs(requeue_after_secs),
        },
    }
}

/// The step that carries out a decision of the policy.
pub fn carry_out(
    decision: &PolicyDecision,
    pod: &Pod,
    fsm_state: DecommissionState,
    now: &Timestamp,
) -> (step: PodStep)
    ensures
        step@ == carried_out(*decision, pod@, fsm_state, now@),
{
    match decision {
        PolicyDecision::NoAction => PodStep::Finished { requeue: Requeue::Secs(300) },
        PolicyDecision::EnsureReadinessRemoved { requeue_after_secs } => PodStep::CloseGate {
            patch: patch_pod_readiness_gate_status(
                pod,
                "False",
                "EarlyReadinessRemoval",
                "S1: removed from Service endpoints before drain",
                now,
            ),
            requeue: Requeue::Secs(*requeue_after_secs),
        },
        PolicyDecision::WaitForDrainVerification => match drainez_url(pod) {
            Some(url) => PodStep::PollDrainez { url },
            None => step_after_poll(DrainezPollOutcome::Unreachable, pod, fsm_state, now),
        },
        PolicyDecision::DelayDeletion { requeue_after_secs, .. } => PodStep::Finished {
            requeue: Requeue::Secs(*requeue_after_secs),
        },
        PolicyDecision::EnsurePreStop { requeue_after_secs } => PodStep::Finished {
            requeue: Requeue::Secs(*requeue_after_secs),
        },
        PolicyDecision::AllowDeletion => PodStep::FetchFinalizers { requeue: Requeue::Secs(300) },
        PolicyDecision::WaitForStateHandover { requeue_after_secs } => PodStep::Finished {
            requeue: Requeue::Secs(*requeue_after_secs),
        },
    }
}

/// The step that carries out what the policy decides for a pod.
pub open spec fn decided_step(
    policy: DecommissionPolicy,
    pod: PodView,
    now: TimestampView,
) -> PodStepView {
    carried_out(decision_for(policy, pod), pod, current_state(pod), now)
}

/// Whether the readiness gate of a pod has to be opened: a gate counts as closed
/// until it is set, and an active pod is to be kept ready.
pub open spec fn gate_needs_opening(pod: PodView) -> bool {
    &&& !pod.is_terminating()
    &&& pod.readiness_gates.contains(READINESS_GATE_CONDITION_TYPE@)
    &&& !pod.condition_is_true(READINESS_GATE_CONDITION_TYPE@)
}

/// The step for a pod whose finalizer and state are seen to: open the readiness
/// gate of an active pod, then do what the policy decides.
pub open spec fn gate_step(
    policy: DecommissionPolicy,
    pod: PodView,
    now: TimestampView,
) -> PodStepView {
    if gate_needs_opening(pod) {
        PodStepView::OpenGate {
            patch: gate_patch_view(
                pod,
                "True"@,
                "ReadyForService"@,
                "controller marks readiness gate true while pod is active"@,
                written(now),
            ),
        }
    } else {
        decided_step(policy, pod, now)
    }
}

/// Whether drain verification is on and the pod is not held for it yet.
pub open spec fn lacks_finalizer(policy: DecommissionPolicy, pod: PodView) -> bool {
    policy.drain_verification && !pod.finalizers.contains(POD_FINALIZER@)
}

/// The first step of a round: hold a running pod with the finalizer, before it
/// can begin to terminate; else record that a terminating pod is draining.
pub open spec fn first_step(
    policy: DecommissionPolicy,
    pod: PodView,
    now: TimestampView,
) -> PodStepView {
    if lacks_finalizer(policy, pod) && !pod.is_terminating() && pod.phase_or_unknown()
        == "Running"@ {
        PodStepView::AddFinalizer { finalizers: pod.finalizers.push(POD_FINALIZER@) }
    } else if pod.is_terminating() && pod.annotated_state() == DecommissionState::Unknown {
        PodStepView::PersistDraining {
            annotation: crate::decommission::annotation_value(current_state(pod)),
        }
    } else {
        gate_step(policy, pod, now)
    }
}

/// The step that follows when `step` was carried out with this reply. A reply
/// that is not one to the step leaves it to be carried out.
pub open spec fn next_step(
    policy: DecommissionPolicy,
    pod: PodView,
    step: PodStepView,
    reply: PodReplyView,
    now: TimestampView,
) -> PodStepView {
    match (step, reply) {
        // Look at the pod again soon, to see the finalizer on it.
        (PodStepView::AddFinalizer { .. }, PodReplyView::Succeeded) => PodStepView::Finished {
            requeue: Requeue::Secs(1),
        },
        (PodStepView::AddFinalizer { .. }, PodReplyView::Failed) => PodStepView::Finished {
            requeue: Requeue::Secs(2),
        },
        (PodStepView::PersistDraining { .. }, PodReplyView::Succeeded) => if lacks_finalizer(
            policy,
            pod,
        ) {
            PodStepView::AddFinalizerLate { finalizers: pod.finalizers.push(POD_FINALIZER@) }
        } else {
            gate_step(policy, pod, now)
        },
        (PodStepView::PersistDraining { .. }, PodReplyView::Failed) => PodStepView::Failed,
        (PodStepView::AddFinalizerLate { .. }, PodReplyView::Succeeded) => gate_step(
            policy,
            pod,
            now,
        ),
        (PodStepView::AddFinalizerLate { .. }, PodReplyView::Failed) => gate_step(
            policy,
            pod,
            now,
        ),
        (PodStepView::OpenGate { .. }, PodReplyView::Succeeded) => decided_step(policy, pod, now),
        (PodStepView::OpenGate { .. }, PodReplyView::Failed) => PodStepView::Finished {
            requeue: Requeue::Secs(2),
        },
        (
            PodStepView::CloseGate { requeue, .. },
            PodReplyView::Succeeded,
        ) => PodStepView::Finished { requeue },
        (PodStepView::CloseGate { .. }, PodReplyView::Failed) => PodStepView::Finished {
            requeue: Requeue::Secs(2),
        },
        (PodStepView::PollDrainez { .. }, PodReplyView::Answered { reply }) => after_poll(
            outcome_of(reply),
            pod,
            current_state(pod),
            now,
        ),
        (
            PodStepView::PersistVerified { .. },
            PodReplyView::Succeeded,
        ) => PodStepView::FetchFinalizers { requeue: Requeue::Secs(1) },
        (PodStepView::PersistVerified { .. }, PodReplyView::Failed) => PodStepView::Failed,
        (
            PodStepView::FetchFinalizers { requeue },
            PodReplyView::Fetched { finalizers },
        ) => PodStepView::ReleaseFinalizer { finalizers: without_ours(finalizers), requeue },
        (PodStepView::FetchFinalizers { .. }, PodReplyView::Failed) => PodStepView::Failed,
        (
            PodStepView::ReleaseFinalizer { requeue, .. },
            PodReplyView::Succeeded,
        ) => PodStepView::Finished { requeue },
        (PodStepView::ReleaseFinalizer { .. }, PodReplyView::Failed) => PodStepView::Failed,
        (step, _) => step,
    }
}

/// The decommission state of a pod: what its annotation keeps, and `Draining`
/// for a terminating pod that was not tracked so far.
pub fn fsm_state_of(pod: &Pod) -> (state: DecommissionState)
    ensures
        state == current_state(pod@),
{
    let state: DecommissionState = read_fsm_state_from_pod(pod);
    if pod.is_terminating() && state == DecommissionState::Unknown {
        transition(state, DecommissionEvent::PodTerminating)
    } else {
        state
    }
}

/// What the policy decides for a pod, as a step.
fn policy_step(policy: &DecommissionPolicy, pod: &Pod, now: &Timestamp) -> (step: PodStep)
    ensures
        step@ == decided_step(*policy, pod@, now@),
{
    let fsm_state: DecommissionState = fsm_state_of(pod);
    let gate_open: bool = has_readiness_gate(pod, READINESS_GATE_CONDITION_TYPE)
        && readiness_gate_is_true(pod, READINESS_GATE_CONDITION_TYPE);
    let name: String = pod.name_any();
    let decision: PolicyDecision = PolicyEngine::evaluate(
        policy,
        name.as_str(),
        pod.is_terminating(),
        gate_open,
        &fsm_state,
    );
    carry_out(&decision, pod, fsm_state, now)
}

/// The step for a pod whose finalizer and state are seen to.
fn step_at_gate(policy: &DecommissionPolicy, pod: &Pod, now: &Timestamp) -> (step: PodStep)
    ensures
        step@ == gate_step(*policy, pod@, now@),
{
    if has_readiness_gate(pod, READINESS_GATE_CONDITION_TYPE) && !pod.is_terminating()
        && !readiness_gate_is_true(pod, READINESS_GATE_CONDITION_TYPE) {
        PodStep::OpenGate {
            patch: patch_pod_readiness_gate_status(
                pod,
                "True",
                "ReadyForService",
                "controller marks readiness gate true while pod is active",
                now,
            ),
        }
    } else {
        policy_step(policy, pod, now)
    }
}

/// The first step of a round for this pod, at a given time.
pub fn reconcile_pod_at(policy: &DecommissionPolicy, pod: &Pod, now: &Timestamp) -> (step: PodStep)
    ensures
        step@ == first_step(*policy, pod@, now@),
{
    let is_terminating: bool = pod.is_terminating();
    let phase: String = pod.phase_or_unknown();
    if policy.drain_verification && !is_terminating && same_text(&phase, "Running") {
        if let Some(finalizers) = add_pod_finalizer(pod) {
            return PodStep::AddFinalizer { finalizers };
        }
    }
    if is_terminating && read_fsm_state_from_pod(pod) == DecommissionState::Unknown {
        return PodStep::PersistDraining {
            annotation: state_to_annotation_value(fsm_state_of(pod)),
        };
    }
    step_at_gate(policy, pod, now)
}

/// The step that follows in a round for this pod, at a given time.
pub fn resume_pod_at(
    policy: &DecommissionPolicy,
    pod: &Pod,
    step: PodStep,
    reply: PodReply,
    now: &Timestamp,
) -> (next: PodStep)
    ensures
        next@ == next_step(*policy, pod@, step@, reply@, now@),
{
    match (step, reply) {
        (PodStep::AddFinalizer { .. }, PodReply::Succeeded) => PodStep::Finished {
            requeue: Requeue::Secs(1),
        },
        (PodStep::AddFinalizer { .. }, PodReply::Failed) => PodStep::Finished {
            requeue: Requeue::Secs(2),
        },
        (PodStep::PersistDraining { .. }, PodReply::Succeeded) => {
            if policy.drain_verification {
                if let Some(finalizers) = add_pod_finalizer(pod) {
                    return PodStep::AddFinalizerLate { finalizers };
                }
            }
            step_at_gate(policy, pod, now)
        },
        (PodStep::PersistDraining { .. }, PodReply::Failed) => PodStep::Failed,
        (PodStep::AddFinalizerLate { .. }, PodReply::Succeeded) => step_at_gate(policy, pod, now),
        (PodStep::AddFinalizerLate { .. }, PodReply::Failed) => step_at_gate(policy, pod, now),
        (PodStep::OpenGate { .. }, PodReply::Succeeded) => policy_step(policy, pod, now),
        (PodStep::OpenGate { .. }, PodReply::Failed) => PodStep::Finished {
            requeue: Requeue::Secs(2),
        },
        (PodStep::CloseGate { requeue, .. }, PodReply::Succeeded) => PodStep::Finished { requeue },
        (PodStep::CloseGate { .. }, PodReply::Failed) => PodStep::Finished {
            requeue: Requeue::Secs(2),
        },
        (PodStep::PollDrainez { .. }, PodReply::Answered { reply }) => step_after_poll(
            drainez_outcome(reply),
            pod,
            fsm_state_of(pod),
            now,
        ),
        (PodStep::PersistVerified { .. }, PodReply::Succeeded) => PodStep::FetchFinalizers {
            requeue: Requeue::Secs(1),
        },
        (PodStep::PersistVerified { .. }, PodReply::Failed) => PodStep::Failed,
        (
            PodStep::FetchFinalizers { requeue },
            PodReply::Fetched { finalizers },
        ) => PodStep::ReleaseFinalizer { finalizers: remove_pod_finalizer(finalizers), requeue },
        (PodStep::FetchFinalizers { .. }, PodReply::Failed) => PodStep::Failed,
        (PodStep::ReleaseFinalizer { requeue, .. }, PodReply::Succeeded) => PodStep::Finished {
            requeue,
        },
        (PodStep::ReleaseFinalizer { .. }, PodReply::Failed) => PodStep::Failed,
        (step, _) => step,
    }
}

/// Whether a point in time is one that the clock can show.
pub open spec fn on_the_clock(now: TimestampView) -> bool {
    crate::timestamp::representable(now) && now.secs >= 0 && !crate::timestamp::is_leap(now)
}

/// The first step of a round for this pod, by the clock.
pub fn reconcile_pod(policy: &DecommissionPolicy, pod: &Pod) -> (step: PodStep)
    ensures
        exists|now: TimestampView| #[trigger]
            on_the_clock(now) && step@ == first_step(*policy, pod@, now),
{
    let now: Timestamp = utc_now();
    assert(on_the_clock(now@));
    reconcile_pod_at(policy, pod, &now)
}

/// The step that follows in a round for this pod, by the clock.
pub fn resume_pod(
    policy: &DecommissionPolicy,
    pod: &Pod,
    step: PodStep,
    reply: PodReply,
) -> (next: PodStep)
    ensures
        exists|now: TimestampView| #[trigger]
            on_the_clock(now) && next@ == next_step(*policy, pod@, step@, reply@, now),
{
    let now: Timestamp = utc_now();
    assert(on_the_clock(now@));
    resume_pod_at(policy, pod, step, reply, &now)
}

/// When to reconcile a pod again after its round failed.
pub fn error_policy_pod() -> (requeue: Requeue)
    ensures
        requeue == Requeue::Secs(5),
{
    Requeue::Secs(5)
}

// ---------- Deployment and StatefulSet controllers ----------

/// When to reconcile a deployment again: nothing is enforced for it, beyond what
/// is done for its pods.
pub fn reconcile_deployment() -> (requeue: Requeue)
    ensures
        requeue == Requeue::Secs(300),
{
    Requeue::Secs(300)
}

/// When to reconcile a deployment again after its round failed.
pub fn error_policy_deployment() -> (requeue: Requeue)
    ensures
        requeue == Requeue::Secs(5),
{
    Requeue::Secs(5)
}

/// When to reconcile a stateful set again: nothing is enforced for it, beyond
/// what is done for its pods.
pub fn reconcile_statefulset() -> (requeue: Requeue)
    ensures
        requeue == Requeue::Secs(300),
{
    Requeue::Secs(300)
}

/// When to reconcile a stateful set again after its round failed.
pub fn error_policy_statefulset() -> (requeue: Requeue)
    ensures
        requeue == Requeue::Secs(5),
{
    Requeue::Secs(5)
}

} // verus!

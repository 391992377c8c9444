//! Policy engine: what the controller enforces during safe decomposition.
//!
//! - Graceful shutdown ordering
//! - Traffic draining before deletion
//! - Verification of readiness loss
//! - Optional state handover validation

use vstd::prelude::*;

use crate::decommission::DecommissionState;

verus! {

/// Configuration for how workloads are decommissioned.
#[derive(Clone, Debug)]
pub struct DecommissionPolicy {
    /// Enforce ordering when scaling down (e.g. drain leader last, or by ordinal).
    pub graceful_shutdown_ordering: GracefulShutdownOrdering,
    /// Require traffic to be drained before allowing deletion.
    pub traffic_drain: TrafficDrainPolicy,
    /// Require verification that the pod is no longer ready before deletion.
    pub verify_readiness_loss: bool,
    /// **S1, early readiness removal:** when a pod is terminating, set the custom
    /// readiness gate to False so that the pod is removed from Service endpoints
    /// immediately (stops new traffic), then let in-flight requests drain.
    pub early_readiness_removal: bool,
    /// **S2, active drain verification:** poll the pod's /drainez before allowing
    /// deletion.
    pub drain_verification: bool,
    /// Optional: validate state handover (e.g. migration, backup) before deletion.
    pub state_handover: Option<StateHandoverConfig>,
}

impl Default for DecommissionPolicy {
    /// The baseline: nothing is enforced.
    fn default() -> (policy: Self)
        ensures
            policy == (DecommissionPolicy {
                graceful_shutdown_ordering: GracefulShutdownOrdering::NoOrdering,
                traffic_drain: TrafficDrainPolicy::NoDrain,
                verify_readiness_loss: false,
                early_readiness_removal: false,
                drain_verification: false,
                state_handover: None,
            }),
    {
        DecommissionPolicy {
            graceful_shutdown_ordering: GracefulShutdownOrdering::NoOrdering,
            traffic_drain: TrafficDrainPolicy::NoDrain,
            verify_readiness_loss: false,
            early_readiness_removal: false,
            drain_verification: false,
            state_handover: None,
        }
    }
}

/// How to order shutdown of multiple pods (e.g. StatefulSet ordinals, or by label).
#[derive(Clone, Debug, PartialEq, Eq)]
pub enum GracefulShutdownOrdering {
    /// No ordering; any pod can be removed first.
    NoOrdering,
    /// By StatefulSet-style ordinal (higher index first, or configurable).
    ByOrdinal { drain_high_first: bool },
    /// By custom label value (e.g. "role=leader" last).
    ByLabel { label_key: String, drain_last_values: Vec<String> },
}

impl Default for GracefulShutdownOrdering {
    fn default() -> (ordering: Self)
        ensures
            ordering == GracefulShutdownOrdering::NoOrdering,
    {
        GracefulShutdownOrdering::NoOrdering
    }
}

/// When to consider traffic drained (before proceeding to deletion).
#[derive(Clone, Debug, PartialEq, Eq)]
pub enum TrafficDrainPolicy {
    /// No explicit drain; rely on kube-proxy/endpoints only.
    NoDrain,
    /// Wait until the pod is removed from Service endpoints.
    WaitForEndpointsRemoval,
    /// Custom delay after readiness goes false (e.g. for propagation).
    DelayAfterReadinessLoss { seconds: u32 },
}

impl Default for TrafficDrainPolicy {
    fn default() -> (drain: Self)
        ensures
            drain == TrafficDrainPolicy::NoDrain,
    {
        TrafficDrainPolicy::NoDrain
    }
}

/// What to wait for when a pod hands over its state.
#[derive(Clone, Debug)]
pub struct StateHandoverConfig {
    /// e.g. "migration-complete" or "backup-verified"
    pub completion_annotation: String,
    /// Max time to wait for the annotation before allowing deletion anyway.
    pub timeout_seconds: u32,
}

/// Result of evaluating the policy for a pod: what action to take next.
#[derive(Clone, Debug)]
pub enum PolicyDecision {
    /// No action; the pod is not terminating or the policy does not apply.
    NoAction,
    /// **S1:** set the custom readiness gate to False so that the pod is removed
    /// from Service endpoints.
    EnsureReadinessRemoved { requeue_after_secs: u64 },
    /// Delay deletion (e.g. traffic not yet drained).
    DelayDeletion { reason: String, requeue_after_secs: u64 },
    /// Inject or ensure that a preStop hook is present; then requeue.
    EnsurePreStop { requeue_after_secs: u64 },
    /// Allow deletion to proceed: remove the finalizer.
    AllowDeletion,
    /// Wait for state handover (annotation or external signal).
    WaitForStateHandover { requeue_after_secs: u64 },
    /// **S2:** poll the pod's /drainez and wait until it reports ready_to_delete.
    WaitForDrainVerification,
}

/// Policy engine: given the state of a pod and the policy, returns the next
/// decision.
pub struct PolicyEngine;

/// Condition type of the readiness gate that the controller owns. It must match
/// the `readinessGates` of the pod spec.
pub const READINESS_GATE_CONDITION_TYPE: &'static str = "decomposition.dat6.io/drain";

/// What the policy decides: early readiness removal comes first, for a
/// terminating pod that is still ready; then drain verification, for a
/// terminating pod that is draining; nothing otherwise.
pub open spec fn decided(
    policy: DecommissionPolicy,
    is_terminating: bool,
    is_ready: bool,
    fsm_state: DecommissionState,
) -> PolicyDecision {
    if is_terminating && is_ready && policy.early_readiness_removal {
        PolicyDecision::EnsureReadinessRemoved { requeue_after_secs: 1 }
    } else if is_terminating && fsm_state == DecommissionState::Draining
        && policy.drain_verification {
        PolicyDecision::WaitForDrainVerification
    } else {
        PolicyDecision::NoAction
    }
}

impl PolicyEngine {
    /// Evaluates what to do for this pod based on the policy and the state of the
    /// cluster.
    ///
    /// **S1, early readiness removal:** when it is enabled and the pod is
    /// terminating but still ready, the decision is `EnsureReadinessRemoved`, so
    /// that the controller sets the readiness gate to False and the pod leaves
    /// the Service endpoints before preStop and the grace period.
    pub fn evaluate(
        policy: &DecommissionPolicy,
        _pod_name: &str,
        is_terminating: bool,
        is_ready: bool,
        fsm_state: &DecommissionState,
    ) -> (decision: PolicyDecision)
        ensures
            decision == decided(*policy, is_terminating, is_ready, *fsm_state),
    {
        if policy.early_readiness_removal && is_terminating && is_ready {
            return PolicyDecision::EnsureReadinessRemoved { requeue_after_secs: 1 };
        }
        if policy.drain_verification && is_terminating && *fsm_state
            == DecommissionState::Draining {
            return PolicyDecision::WaitForDrainVerification;
        }
        PolicyDecision::NoAction
    }
}

/// The policy leaves a pod alone that is not terminating, whatever it enforces.
pub proof fn active_pods_are_left_alone(
    policy: DecommissionPolicy,
    is_ready: bool,
    fsm_state: DecommissionState,
)
    ensures
        decided(policy, false, is_ready, fsm_state) == PolicyDecision::NoAction,
{
}

/// With neither strategy enabled the policy never decides anything.
pub proof fn baseline_decides_nothing(
    policy: DecommissionPolicy,
    is_terminating: bool,
    is_ready: bool,
    fsm_state: DecommissionState,
)
    requires
        !policy.early_readiness_removal,
        !policy.drain_verification,
    ensures
        decided(policy, is_terminating, is_ready, fsm_state) == PolicyDecision::NoAction,
{
}

/// With both strategies enabled, a terminating pod first leaves the Service
/// endpoints; its drain is verified only once it is no longer ready.
pub proof fn readiness_is_removed_before_drain_is_verified(
    policy: DecommissionPolicy,
    is_terminating: bool,
    is_ready: bool,
    fsm_state: DecommissionState,
)
    requires
        policy.early_readiness_removal,
        decided(policy, is_terminating, is_ready, fsm_state)
            == PolicyDecision::WaitForDrainVerification,
    ensures
        !is_ready,
        is_terminating,
        fsm_state == DecommissionState::Draining,
{
}

/// When each decision comes, and that no other does: readiness is removed exactly for a
/// terminating pod that is ready, under early readiness removal; the drain is verified
/// exactly for a terminating pod that is draining, under drain verification, unless its
/// readiness is to be removed. No other part of the policy has a say.
pub proof fn decisions_come_exactly_when_due(
    policy: DecommissionPolicy,
    is_terminating: bool,
    is_ready: bool,
    fsm_state: DecommissionState,
)
    ensures
        decided(policy, is_terminating, is_ready, fsm_state)
            == (PolicyDecision::EnsureReadinessRemoved { requeue_after_secs: 1 }) <==> {
            &&& policy.early_readiness_removal
            &&& is_terminating
            &&& is_ready
        },
        decided(policy, is_terminating, is_ready, fsm_state)
            == PolicyDecision::WaitForDrainVerification <==> {
            &&& policy.drain_verification
            &&& is_terminating
            &&& fsm_state is Draining
            &&& !(policy.early_readiness_removal && is_ready)
        },
        decided(policy, is_terminating, is_ready, fsm_state) == PolicyDecision::NoAction || decided(
            policy,
            is_terminating,
            is_ready,
            fsm_state,
        ) == PolicyDecision::WaitForDrainVerification || decided(
            policy,
            is_terminating,
            is_ready,
            fsm_state,
        ) == (PolicyDecision::EnsureReadinessRemoved { requeue_after_secs: 1 }),
{
}

} // verus!

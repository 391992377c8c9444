use dat6_kubernetes_controller::decommission::DecommissionState as S;
use dat6_kubernetes_controller::policy::{
    DecommissionPolicy, GracefulShutdownOrdering, PolicyDecision, PolicyEngine, TrafficDrainPolicy,
    READINESS_GATE_CONDITION_TYPE,
};

fn policy(early: bool, drain: bool) -> DecommissionPolicy {
    let mut policy = DecommissionPolicy::default();
    policy.early_readiness_removal = early;
    policy.drain_verification = drain;
    policy
}

#[test]
fn default_policy_enforces_nothing() {
    let policy = DecommissionPolicy::default();
    assert_eq!(policy.graceful_shutdown_ordering, GracefulShutdownOrdering::NoOrdering);
    assert_eq!(policy.graceful_shutdown_ordering, GracefulShutdownOrdering::default());
    assert_eq!(policy.traffic_drain, TrafficDrainPolicy::NoDrain);
    assert_eq!(policy.traffic_drain, TrafficDrainPolicy::default());
    assert!(!policy.verify_readiness_loss);
    assert!(!policy.early_readiness_removal);
    assert!(!policy.drain_verification);
    assert!(policy.state_handover.is_none());
}

#[test]
fn gate_condition_type() {
    assert_eq!(READINESS_GATE_CONDITION_TYPE, "decomposition.dat6.io/drain");
}

#[test]
fn early_removal_needs_a_terminating_ready_pod() {
    let p = policy(true, false);
    assert!(matches!(
        PolicyEngine::evaluate(&p, "web-0", true, true, &S::Unknown),
        PolicyDecision::EnsureReadinessRemoved { requeue_after_secs: 1 }
    ));
    assert!(matches!(
        PolicyEngine::evaluate(&p, "web-0", true, false, &S::Draining),
        PolicyDecision::NoAction
    ));
    assert!(matches!(
        PolicyEngine::evaluate(&p, "web-0", false, true, &S::Draining),
        PolicyDecision::NoAction
    ));
}

#[test]
fn drain_verification_needs_a_terminating_draining_pod() {
    let p = policy(false, true);
    assert!(matches!(
        PolicyEngine::evaluate(&p, "web-0", true, true, &S::Draining),
        PolicyDecision::WaitForDrainVerification
    ));
    assert!(matches!(
        PolicyEngine::evaluate(&p, "web-0", false, true, &S::Draining),
        PolicyDecision::NoAction
    ));
    for state in [
        S::Unknown,
        S::ReadinessLost,
        S::PreStopRunning,
        S::StateHandover,
        S::DeletionAllowed,
    ] {
        assert!(matches!(
            PolicyEngine::evaluate(&p, "web-0", true, true, &state),
            PolicyDecision::NoAction
        ));
    }
}

#[test]
fn readiness_goes_before_the_drain_is_verified() {
    let p = policy(true, true);
    assert!(matches!(
        PolicyEngine::evaluate(&p, "web-0", true, true, &S::Draining),
        PolicyDecision::EnsureReadinessRemoved { requeue_after_secs: 1 }
    ));
    assert!(matches!(
        PolicyEngine::evaluate(&p, "web-0", true, false, &S::Draining),
        PolicyDecision::WaitForDrainVerification
    ));
}

#[test]
fn baseline_never_acts() {
    let p = DecommissionPolicy::default();
    for terminating in [false, true] {
        for ready in [false, true] {
            for state in [S::Unknown, S::Draining, S::DeletionAllowed] {
                assert!(matches!(
                    PolicyEngine::evaluate(&p, "", terminating, ready, &state),
                    PolicyDecision::NoAction
                ));
            }
        }
    }
}

//! What holds of the controller's reconcile loop, whatever the cluster answers.

use vstd::prelude::*;

use crate::controller::{
    ConditionsPatch, ConditionsPatchView, DrainezPollOutcome, DrainezReply, POD_FINALIZER,
    PodReply, PodReplyView, PodStep, PodStepView, Requeue,
};
use crate::decommission::DecommissionState;
use crate::pod::{ConditionView, PodView, STATE_ANNOTATION};
use crate::policy::{DecommissionPolicy, PolicyDecision, READINESS_GATE_CONDITION_TYPE};
use crate::timestamp::TimestampView;

verus! {

/// A step carried out: how it went, and when that was known.
pub struct Exchange {
    pub reply: PodReplyView,
    pub at: TimestampView,
}

/// The step of a round that began at `start`, after these exchanges.
pub open spec fn step_after(
    policy: DecommissionPolicy,
    pod: PodView,
    start: TimestampView,
    exchanges: Seq<Exchange>,
) -> PodStepView
    decreases exchanges.len(),
{
    if exchanges.len() == 0 {
        crate::controller::first_step(policy, pod, start)
    } else {
        crate::controller::next_step(
            policy,
            pod,
            step_after(policy, pod, start, exchanges.drop_last()),
            exchanges.last().reply,
            exchanges.last().at,
        )
    }
}

// ---------- Letting a pod go ----------

/// Whether the pod was found drained, or past its grace period and unreachable,
/// by the exchange at this place of a round.
pub open spec fn drain_is_seen_at(
    policy: DecommissionPolicy,
    pod: PodView,
    start: TimestampView,
    exchanges: Seq<Exchange>,
    i: int,
) -> bool {
    &&& 0 <= i < exchanges.len()
    &&& step_after(policy, pod, start, exchanges.take(i)) is PollDrainez
    &&& exchanges[i].reply matches PodReplyView::Answered { reply }
        && crate::controller::lets_go(crate::controller::outcome_of(reply), pod, exchanges[i].at)
}

/// Whether a pod without an IP, which cannot be asked, was past its grace period
/// at some time of a round.
pub open spec fn given_up_without_ip(
    pod: PodView,
    start: TimestampView,
    exchanges: Seq<Exchange>,
) -> bool {
    &&& pod.pod_ip is None
    &&& crate::controller::past_grace(pod, start) || exists|i: int|
        0 <= i < exchanges.len() && crate::controller::past_grace(
            pod,
            (#[trigger] exchanges[i]).at,
        )
}

/// Whether a round gave reason to let the pod go.
pub open spec fn drain_is_seen(
    policy: DecommissionPolicy,
    pod: PodView,
    start: TimestampView,
    exchanges: Seq<Exchange>,
) -> bool {
    ||| exists|i: int| #[trigger] drain_is_seen_at(policy, pod, start, exchanges, i)
    ||| given_up_without_ip(pod, start, exchanges)
}

/// Whether the exchange at this place of a round put on record that deletion is
/// allowed.
pub open spec fn deletion_is_recorded_at(
    policy: DecommissionPolicy,
    pod: PodView,
    start: TimestampView,
    exchanges: Seq<Exchange>,
    i: int,
) -> bool {
    &&& 0 <= i < exchanges.len()
    &&& step_after(policy, pod, start, exchanges.take(i)) == (PodStepView::PersistVerified {
        annotation: crate::decommission::annotation_value(DecommissionState::DeletionAllowed),
    })
    &&& exchanges[i].reply is Succeeded
}

/// Whether drain verification is at work on a pod.
pub open spec fn under_verification(policy: DecommissionPolicy, pod: PodView) -> bool {
    &&& policy.drain_verification
    &&& pod.is_terminating()
    &&& crate::controller::current_state(pod) == DecommissionState::Draining
}

proof fn drain_stays_seen(
    policy: DecommissionPolicy,
    pod: PodView,
    start: TimestampView,
    exchanges: Seq<Exchange>,
)
    requires
        exchanges.len() > 0,
        drain_is_seen(policy, pod, start, exchanges.drop_last()),
    ensures
        drain_is_seen(policy, pod, start, exchanges),
{
    let before = exchanges.drop_last();
    if exists|i: int| #[trigger] drain_is_seen_at(policy, pod, start, before, i) {
        let i = choose|i: int| #[trigger] drain_is_seen_at(policy, pod, start, before, i);
        assert(before.take(i) =~= exchanges.take(i));
        assert(before[i] == exchanges[i]);
        assert(drain_is_seen_at(policy, pod, start, exchanges, i));
    } else if !crate::controller::past_grace(pod, start) {
        let i = choose|i: int|
            0 <= i < before.len() && crate::controller::past_grace(pod, (#[trigger] before[i]).at);
        assert(before[i] == exchanges[i]);
    }
}

/// How the steps that let a pod go come about.
proof fn way_to_release(
    policy: DecommissionPolicy,
    pod: PodView,
    start: TimestampView,
    exchanges: Seq<Exchange>,
)
    ensures
        step_after(policy, pod, start, exchanges) is PollDrainez ==> under_verification(
            policy,
            pod,
        ),
        step_after(policy, pod, start, exchanges) matches PodStepView::PersistVerified {
            annotation,
        } ==> {
            &&& annotation == crate::decommission::annotation_value(
                DecommissionState::DeletionAllowed,
            )
            &&& under_verification(policy, pod)
            &&& drain_is_seen(policy, pod, start, exchanges)
        },
        step_after(policy, pod, start, exchanges) is FetchFinalizers || step_after(
            policy,
            pod,
            start,
            exchanges,
        ) is ReleaseFinalizer ==> {
            &&& under_verification(policy, pod)
            &&& drain_is_seen(policy, pod, start, exchanges)
            &&& exists|i: int| #[trigger]
                deletion_is_recorded_at(policy, pod, start, exchanges, i)
        },
    decreases exchanges.len(),
{
    if exchanges.len() > 0 {
        let before = exchanges.drop_last();
        let last = exchanges.len() - 1;
        let step = step_after(policy, pod, start, before);
        way_to_release(policy, pod, start, before);
        assert(exchanges.take(last) =~= before);
        if drain_is_seen(policy, pod, start, before) {
            drain_stays_seen(policy, pod, start, exchanges);
        }
        if step is PollDrainez && step_after(
            policy,
            pod,
            start,
            exchanges,
        ) is PersistVerified {
            assert(drain_is_seen_at(policy, pod, start, exchanges, last));
        } else if step is PersistVerified && step_after(
            policy,
            pod,
            start,
            exchanges,
        ) is FetchFinalizers {
            assert(deletion_is_recorded_at(policy, pod, start, exchanges, last));
        } else if step is FetchFinalizers || step is ReleaseFinalizer {
            let i = choose|i: int| #[trigger]
                deletion_is_recorded_at(policy, pod, start, before, i);
            assert(before.take(i) =~= exchanges.take(i));
            assert(before[i] == exchanges[i]);
            assert(deletion_is_recorded_at(policy, pod, start, exchanges, i));
        } else {
            assert(exchanges[last].at == exchanges.last().at);
        }
    }
}

/// The finalizer is removed only where deletion is allowed: whenever a round
/// comes to release it, drain verification is on, the pod is terminating, its
/// drain was seen (or it was unreachable past its grace period) in the same round,
/// and that deletion is allowed was put on record first.
pub proof fn finalizer_is_released_only_after_the_drain(
    policy: DecommissionPolicy,
    pod: PodView,
    start: TimestampView,
    exchanges: Seq<Exchange>,
)
    requires
        step_after(policy, pod, start, exchanges) is ReleaseFinalizer,
    ensures
        under_verification(policy, pod),
        drain_is_seen(policy, pod, start, exchanges),
        exists|i: int| #[trigger] deletion_is_recorded_at(policy, pod, start, exchanges, i),
{
    way_to_release(policy, pod, start, exchanges);
}

/// Whether the requests that let a pod go succeed, from this place of a round on:
/// recording that deletion is allowed, reading the finalizers that the pod has
/// then, and setting them.
pub open spec fn release_succeeds(
    exchanges: Seq<Exchange>,
    from: int,
    finalizers: Seq<Seq<char>>,
) -> bool {
    &&& exchanges.len() == from + 3
    &&& exchanges[from].reply is Succeeded
    &&& exchanges[from + 1].reply == (PodReplyView::Fetched { finalizers })
    &&& exchanges[from + 2].reply is Succeeded
}

/// Whether a round comes to let the pod go from this place on: it records that
/// deletion is allowed, takes the controller's finalizer from those that the pod
/// has then, and ends.
pub open spec fn pod_is_released(
    policy: DecommissionPolicy,
    pod: PodView,
    start: TimestampView,
    exchanges: Seq<Exchange>,
    from: int,
    finalizers: Seq<Seq<char>>,
) -> bool {
    &&& step_after(policy, pod, start, exchanges.take(from)) == (PodStepView::PersistVerified {
        annotation: crate::decommission::annotation_value(DecommissionState::DeletionAllowed),
    })
    &&& step_after(policy, pod, start, exchanges.take(from + 2))
        == (PodStepView::ReleaseFinalizer {
        finalizers: crate::controller::without_ours(finalizers),
        requeue: Requeue::Secs(1),
    })
    &&& step_after(policy, pod, start, exchanges) == (PodStepView::Finished {
        requeue: Requeue::Secs(1),
    })
}

/// Whether drain verification is what a round comes to for a pod: it is at work on
/// the pod, and no gate has to be closed first.
pub open spec fn comes_to_verification(policy: DecommissionPolicy, pod: PodView) -> bool {
    &&& under_verification(policy, pod)
    &&& policy.early_readiness_removal ==> !crate::controller::gate_is_open(pod)
}

/// How many steps a round takes before it comes to drain verification: a pod that
/// is not on record yet is recorded as draining, and is then held if it is not.
pub open spec fn steps_before_verification(policy: DecommissionPolicy, pod: PodView) -> int {
    if pod.annotated_state() == DecommissionState::Draining {
        0
    } else if crate::controller::lacks_finalizer(policy, pod) {
        2
    } else {
        1
    }
}

/// Whether the steps before drain verification are carried out. That the pod is
/// held late may fail: it is only an attempt.
pub open spec fn preparation_succeeds(
    policy: DecommissionPolicy,
    pod: PodView,
    exchanges: Seq<Exchange>,
) -> bool {
    let count = steps_before_verification(policy, pod);
    &&& exchanges.len() >= count
    &&& count >= 1 ==> exchanges[0].reply is Succeeded
    &&& count >= 2 ==> exchanges[1].reply is Succeeded || exchanges[1].reply is Failed
}

/// When a round comes to drain verification.
pub open spec fn verification_time(
    policy: DecommissionPolicy,
    pod: PodView,
    start: TimestampView,
    exchanges: Seq<Exchange>,
) -> TimestampView {
    let count = steps_before_verification(policy, pod);
    if count == 0 {
        start
    } else {
        exchanges[count - 1].at
    }
}

/// Once the steps before drain verification are carried out, a pod with an IP is
/// asked whether it is drained, and one without is taken for unreachable.
pub proof fn preparation_leads_to_verification(
    policy: DecommissionPolicy,
    pod: PodView,
    start: TimestampView,
    exchanges: Seq<Exchange>,
)
    requires
        comes_to_verification(policy, pod),
        preparation_succeeds(policy, pod, exchanges),
    ensures
        step_after(
            policy,
            pod,
            start,
            exchanges.take(steps_before_verification(policy, pod)),
        ) == match pod.pod_ip {
            Some(ip) => PodStepView::PollDrainez { url: crate::controller::drainez_url_of(ip) },
            None => crate::controller::after_poll(
                DrainezPollOutcome::Unreachable,
                pod,
                DecommissionState::Draining,
                verification_time(policy, pod, start, exchanges),
            ),
        },
{
    let count = steps_before_verification(policy, pod);
    assert(exchanges.take(0).len() == 0);
    if count >= 1 {
        assert(step_after(policy, pod, start, exchanges.take(0)) is PersistDraining);
        assert(exchanges.take(1).drop_last() =~= exchanges.take(0));
        assert(exchanges.take(1).last() == exchanges[0]);
    }
    if count >= 2 {
        assert(step_after(policy, pod, start, exchanges.take(1)) is AddFinalizerLate);
        assert(exchanges.take(2).drop_last() =~= exchanges.take(1));
        assert(exchanges.take(2).last() == exchanges[1]);
    }
}

proof fn release_follows_the_record(
    policy: DecommissionPolicy,
    pod: PodView,
    start: TimestampView,
    exchanges: Seq<Exchange>,
    from: int,
    finalizers: Seq<Seq<char>>,
)
    requires
        from >= 0,
        release_succeeds(exchanges, from, finalizers),
        step_after(policy, pod, start, exchanges.take(from)) == (PodStepView::PersistVerified {
            annotation: crate::decommission::annotation_value(DecommissionState::DeletionAllowed),
        }),
    ensures
        pod_is_released(policy, pod, start, exchanges, from, finalizers),
{
    assert(exchanges.take(from + 1).drop_last() =~= exchanges.take(from));
    assert(step_after(policy, pod, start, exchanges.take(from + 1)) is FetchFinalizers);
    assert(exchanges.take(from + 2).drop_last() =~= exchanges.take(from + 1));
    assert(exchanges.drop_last() =~= exchanges.take(from + 2));
}

/// A drained pod is let go: where a round comes to drain verification, the pod says
/// that it is drained and the requests succeed, the finalizer is removed. This holds
/// of the round that first finds the pod terminating as well as of later ones.
pub proof fn drained_pod_is_let_go(
    policy: DecommissionPolicy,
    pod: PodView,
    start: TimestampView,
    exchanges: Seq<Exchange>,
    from: int,
    finalizers: Seq<Seq<char>>,
)
    requires
        comes_to_verification(policy, pod),
        pod.pod_ip is Some,
        from == steps_before_verification(policy, pod),
        preparation_succeeds(policy, pod, exchanges),
        exchanges[from].reply == (PodReplyView::Answered {
            reply: DrainezReply::Payload { ready_to_delete: true },
        }),
        release_succeeds(exchanges, from + 1, finalizers),
    ensures
        step_after(policy, pod, start, exchanges.take(from)) == (PodStepView::PollDrainez {
            url: crate::controller::drainez_url_of(pod.pod_ip->0),
        }),
        pod_is_released(policy, pod, start, exchanges, from + 1, finalizers),
{
    preparation_leads_to_verification(policy, pod, start, exchanges);
    assert(exchanges.take(from + 1).drop_last() =~= exchanges.take(from));
    release_follows_the_record(policy, pod, start, exchanges, from + 1, finalizers);
}

/// A dead pod does not block its own deletion for ever: where a round comes to drain
/// verification, the pod does not answer and is past its grace period by then, and
/// the round's other requests succeed, the finalizer is removed.
pub proof fn unreachable_pod_is_let_go(
    policy: DecommissionPolicy,
    pod: PodView,
    start: TimestampView,
    exchanges: Seq<Exchange>,
    from: int,
    finalizers: Seq<Seq<char>>,
)
    requires
        comes_to_verification(policy, pod),
        pod.pod_ip is Some,
        from == steps_before_verification(policy, pod),
        preparation_succeeds(policy, pod, exchanges),
        exchanges[from].reply == (PodReplyView::Answered { reply: DrainezReply::RequestFailed }),
        crate::controller::past_grace(pod, exchanges[from].at),
        release_succeeds(exchanges, from + 1, finalizers),
    ensures
        step_after(policy, pod, start, exchanges.take(from)) == (PodStepView::PollDrainez {
            url: crate::controller::drainez_url_of(pod.pod_ip->0),
        }),
        pod_is_released(policy, pod, start, exchanges, from + 1, finalizers),
{
    preparation_leads_to_verification(policy, pod, start, exchanges);
    assert(exchanges.take(from + 1).drop_last() =~= exchanges.take(from));
    release_follows_the_record(policy, pod, start, exchanges, from + 1, finalizers);
}

/// Neither does a pod without an IP, which cannot be asked: where it is past its
/// grace period when a round comes to drain verification, and the requests succeed,
/// the finalizer is removed.
pub proof fn pod_without_ip_is_let_go(
    policy: DecommissionPolicy,
    pod: PodView,
    start: TimestampView,
    exchanges: Seq<Exchange>,
    from: int,
    finalizers: Seq<Seq<char>>,
)
    requires
        comes_to_verification(policy, pod),
        pod.pod_ip is None,
        from == steps_before_verification(policy, pod),
        preparation_succeeds(policy, pod, exchanges),
        crate::controller::past_grace(
            pod,
            verification_time(policy, pod, start, exchanges),
        ),
        release_succeeds(exchanges, from, finalizers),
    ensures
        pod_is_released(policy, pod, start, exchanges, from, finalizers),
{
    preparation_leads_to_verification(policy, pod, start, exchanges);
    release_follows_the_record(policy, pod, start, exchanges, from, finalizers);
}

/// What was put on record is not taken up again: a terminating pod whose record says
/// that deletion is allowed is neither asked whether it is drained nor let go, so a
/// finalizer that could not be removed in the round that wrote the record stays. All
/// that may still be done is to close its readiness gate.
pub proof fn allowed_deletion_is_not_taken_up_again(
    policy: DecommissionPolicy,
    pod: PodView,
    start: TimestampView,
    exchanges: Seq<Exchange>,
)
    requires
        pod.is_terminating(),
        pod.annotated_state() == DecommissionState::DeletionAllowed,
    ensures
        step_after(policy, pod, start, exchanges) is CloseGate || step_after(
            policy,
            pod,
            start,
            exchanges,
        ) is Finished,
        !(policy.early_readiness_removal && crate::controller::gate_is_open(pod)) ==> step_after(
            policy,
            pod,
            start,
            exchanges,
        ) == (PodStepView::Finished { requeue: Requeue::Secs(300) }),
    decreases exchanges.len(),
{
    if exchanges.len() > 0 {
        allowed_deletion_is_not_taken_up_again(policy, pod, start, exchanges.drop_last());
    }
}

/// A pod that reports work in flight, or whose answer cannot be read, is never let
/// go, however long it has been terminating: it is asked again.
pub proof fn pod_with_work_in_flight_is_held(
    policy: DecommissionPolicy,
    pod: PodView,
    url: Seq<char>,
    reply: DrainezReply,
    now: TimestampView,
)
    requires
        reply == (DrainezReply::Payload { ready_to_delete: false }) || reply
            == DrainezReply::BodyUnreadable,
    ensures
        crate::controller::next_step(
            policy,
            pod,
            PodStepView::PollDrainez { url },
            PodReplyView::Answered { reply },
            now,
        ) == (PodStepView::Finished { requeue: Requeue::Millis(500) }),
{
}

/// An unreachable pod is asked again while its grace period lasts; past it, the next
/// step is to record that deletion is allowed.
pub proof fn unreachable_pod_is_given_up_past_its_grace_period(
    policy: DecommissionPolicy,
    pod: PodView,
    url: Seq<char>,
    now: TimestampView,
)
    requires
        under_verification(policy, pod),
    ensures
        crate::controller::next_step(
            policy,
            pod,
            PodStepView::PollDrainez { url },
            PodReplyView::Answered { reply: DrainezReply::RequestFailed },
            now,
        ) == if crate::controller::past_grace(pod, now) {
            PodStepView::PersistVerified {
                annotation: crate::decommission::annotation_value(
                    DecommissionState::DeletionAllowed,
                ),
            }
        } else {
            PodStepView::Finished { requeue: Requeue::Millis(500) }
        },
{
}

/// Once an unreachable pod is past its grace period it stays so, as the clock
/// moves on. Its deletion does not lie in a leap second.
pub proof fn grace_period_stays_over(pod: PodView, now: TimestampView, later: TimestampView)
    requires
        crate::controller::on_the_clock(now),
        crate::controller::on_the_clock(later),
        pod.deletion_timestamp matches Some(since) ==> crate::timestamp::representable(since)
            && !crate::timestamp::is_leap(since),
        crate::timestamp::nanos_between(later, now) >= 0,
        crate::controller::past_grace(pod, now),
    ensures
        crate::controller::past_grace(pod, later),
{
    if let Some(since) = pod.deletion_timestamp {
        crate::timestamp::elapsed_seconds_never_shrink(now, later, since);
    }
}

// ---------- Strategies ----------

/// Without drain verification no round touches a finalizer, asks a pod whether it
/// is drained or puts on record that it is.
pub proof fn finalizers_are_left_alone_without_drain_verification(
    policy: DecommissionPolicy,
    pod: PodView,
    start: TimestampView,
    exchanges: Seq<Exchange>,
)
    requires
        !policy.drain_verification,
    ensures
        !(step_after(policy, pod, start, exchanges) is AddFinalizer),
        !(step_after(policy, pod, start, exchanges) is AddFinalizerLate),
        !(step_after(policy, pod, start, exchanges) is PollDrainez),
        !(step_after(policy, pod, start, exchanges) is PersistVerified),
        !(step_after(policy, pod, start, exchanges) is FetchFinalizers),
        !(step_after(policy, pod, start, exchanges) is ReleaseFinalizer),
    decreases exchanges.len(),
{
    if exchanges.len() > 0 {
        finalizers_are_left_alone_without_drain_verification(
            policy,
            pod,
            start,
            exchanges.drop_last(),
        );
    }
}

/// The readiness gate of a pod is closed only under early readiness removal, on a
/// pod that is terminating, has the controller's gate and has it open.
pub proof fn gate_is_closed_only_on_terminating_pods(
    policy: DecommissionPolicy,
    pod: PodView,
    start: TimestampView,
    exchanges: Seq<Exchange>,
)
    requires
        step_after(policy, pod, start, exchanges) is CloseGate,
    ensures
        policy.early_readiness_removal,
        pod.is_terminating(),
        pod.readiness_gates.contains(READINESS_GATE_CONDITION_TYPE@),
        pod.condition_is_true(READINESS_GATE_CONDITION_TYPE@),
    decreases exchanges.len(),
{
    if exchanges.len() > 0 && step_after(
        policy,
        pod,
        start,
        exchanges.drop_last(),
    ) is CloseGate {
        gate_is_closed_only_on_terminating_pods(policy, pod, start, exchanges.drop_last());
    }
}

/// Under early readiness removal, a terminating pod whose gate is open gets it
/// closed, before anything is asked of the pod and before it is let go: that is
/// done at once, or as soon as the state of the pod and its finalizer were seen
/// to.
pub proof fn terminating_pod_leaves_the_endpoints_first(
    policy: DecommissionPolicy,
    pod: PodView,
    start: TimestampView,
    exchanges: Seq<Exchange>,
)
    requires
        policy.early_readiness_removal,
        pod.is_terminating(),
        crate::controller::gate_is_open(pod),
        forall|i: int|
            0 <= i < exchanges.len() ==> !(#[trigger] step_after(
                policy,
                pod,
                start,
                exchanges.take(i),
            ) is CloseGate),
    ensures
        match step_after(policy, pod, start, exchanges) {
            PodStepView::CloseGate { patch, requeue } => patch.gate.status == "False"@ && requeue
                == Requeue::Secs(1),
            PodStepView::PersistDraining { .. } => true,
            PodStepView::AddFinalizerLate { .. } => true,
            PodStepView::Failed => true,
            _ => false,
        },
    decreases exchanges.len(),
{
    if exchanges.len() > 0 {
        let before = exchanges.drop_last();
        assert forall|i: int| 0 <= i < before.len() implies !(#[trigger] step_after(
            policy,
            pod,
            start,
            before.take(i),
        ) is CloseGate) by {
            assert(before.take(i) =~= exchanges.take(i));
        }
        terminating_pod_leaves_the_endpoints_first(policy, pod, start, before);
        assert(exchanges.take(exchanges.len() - 1) =~= before);
    }
}

/// Under drain verification a running pod is held by the finalizer before anything
/// else is done to it, and keeps the finalizers that it has.
pub proof fn running_pod_is_held_first(
    policy: DecommissionPolicy,
    pod: PodView,
    start: TimestampView,
)
    requires
        policy.drain_verification,
        !pod.is_terminating(),
        pod.phase == Some("Running"@),
        !pod.finalizers.contains(POD_FINALIZER@),
    ensures
        crate::controller::first_step(policy, pod, start) == (PodStepView::AddFinalizer {
            finalizers: pod.finalizers.push(POD_FINALIZER@),
        }),
{
}

/// A pod that the controller holds is not asked to be held again.
pub proof fn held_pod_is_not_held_twice(
    policy: DecommissionPolicy,
    pod: PodView,
    start: TimestampView,
    exchanges: Seq<Exchange>,
)
    requires
        pod.finalizers.contains(POD_FINALIZER@),
    ensures
        !(step_after(policy, pod, start, exchanges) is AddFinalizer),
        !(step_after(policy, pod, start, exchanges) is AddFinalizerLate),
    decreases exchanges.len(),
{
    if exchanges.len() > 0 {
        held_pod_is_not_held_twice(policy, pod, start, exchanges.drop_last());
    }
}

// ---------- State on record ----------

/// What a round puts on record never takes a pod back to an earlier state.
pub proof fn recorded_state_never_moves_back(
    policy: DecommissionPolicy,
    pod: PodView,
    start: TimestampView,
    exchanges: Seq<Exchange>,
)
    ensures
        step_after(policy, pod, start, exchanges) matches PodStepView::PersistDraining {
            annotation,
        } ==> crate::decommission::progress(crate::decommission::annotated_state(annotation))
            > crate::decommission::progress(pod.annotated_state()),
        step_after(policy, pod, start, exchanges) matches PodStepView::PersistVerified {
            annotation,
        } ==> crate::decommission::progress(crate::decommission::annotated_state(annotation))
            > crate::decommission::progress(pod.annotated_state()),
    decreases exchanges.len(),
{
    crate::decommission::annotation_round_trip(DecommissionState::Draining);
    crate::decommission::annotation_round_trip(DecommissionState::DeletionAllowed);
    way_to_release(policy, pod, start, exchanges);
    if exchanges.len() > 0 {
        recorded_state_never_moves_back(policy, pod, start, exchanges.drop_last());
    }
}

/// Reading the record back: once a terminating pod carries the annotation that a
/// round wrote for it, it counts as draining just as it did in that round, and no
/// later round writes that again.
pub proof fn draining_is_recorded_once(
    policy: DecommissionPolicy,
    pod: PodView,
    start: TimestampView,
    annotation: Seq<char>,
    recorded: PodView,
    later: TimestampView,
    exchanges: Seq<Exchange>,
)
    requires
        crate::controller::first_step(policy, pod, start) == (PodStepView::PersistDraining {
            annotation,
        }),
        recorded == (PodView {
            annotations: pod.annotations.insert(STATE_ANNOTATION@, annotation),
            ..pod
        }),
    ensures
        recorded.annotated_state() == DecommissionState::Draining,
        crate::controller::current_state(recorded) == crate::controller::current_state(pod),
        !(step_after(policy, recorded, later, exchanges) is PersistDraining),
    decreases exchanges.len(),
{
    crate::decommission::annotation_round_trip(DecommissionState::Draining);
    assert(recorded.annotated_state() == DecommissionState::Draining);
    if exchanges.len() > 0 {
        draining_is_recorded_once(
            policy,
            pod,
            start,
            annotation,
            recorded,
            later,
            exchanges.drop_last(),
        );
    }
}

// ---------- Rounds end ----------

/// Whether a reply is one to a step.
pub open spec fn answers(step: PodStepView, reply: PodReplyView) -> bool {
    match step {
        PodStepView::PollDrainez { .. } => reply is Answered,
        PodStepView::FetchFinalizers { .. } => reply is Fetched || reply is Failed,
        PodStepView::Finished { .. } => false,
        PodStepView::Failed => false,
        _ => reply is Succeeded || reply is Failed,
    }
}

/// Whether a round is over.
pub open spec fn is_over(step: PodStepView) -> bool {
    step is Finished || step is Failed
}

/// How many steps there can be from here on, this one counted.
pub open spec fn steps_left(pod: PodView, step: PodStepView) -> nat {
    match step {
        PodStepView::PersistDraining { .. } => 6,
        PodStepView::AddFinalizerLate { .. } => 5,
        PodStepView::OpenGate { .. } => if pod.is_terminating() {
            5
        } else {
            1
        },
        PodStepView::PollDrainez { .. } => 4,
        PodStepView::PersistVerified { .. } => 3,
        PodStepView::FetchFinalizers { .. } => 2,
        PodStepView::ReleaseFinalizer { .. } => 1,
        PodStepView::AddFinalizer { .. } => 1,
        PodStepView::CloseGate { .. } => 1,
        PodStepView::Finished { .. } => 0,
        PodStepView::Failed => 0,
    }
}

/// Every reply brings a round closer to its end, and a round that is over stays
/// as it is.
pub proof fn replies_bring_the_end_closer(
    policy: DecommissionPolicy,
    pod: PodView,
    step: PodStepView,
    reply: PodReplyView,
    now: TimestampView,
)
    ensures
        answers(step, reply) ==> steps_left(
            pod,
            crate::controller::next_step(policy, pod, step, reply, now),
        ) < steps_left(pod, step),
        !answers(step, reply) ==> crate::controller::next_step(policy, pod, step, reply, now)
            == step,
        is_over(step) <==> steps_left(pod, step) == 0,
{
}

/// A round ends after at most six steps, whatever the cluster answers: after six
/// replies it is over, and it never takes a seventh.
pub proof fn rounds_end(
    policy: DecommissionPolicy,
    pod: PodView,
    start: TimestampView,
    exchanges: Seq<Exchange>,
)
    requires
        forall|i: int|
            0 <= i < exchanges.len() ==> answers(
                #[trigger] step_after(policy, pod, start, exchanges.take(i)),
                exchanges[i].reply,
            ),
    ensures
        exchanges.len() + steps_left(pod, step_after(policy, pod, start, exchanges)) <= 6,
        exchanges.len() == 6 ==> is_over(step_after(policy, pod, start, exchanges)),
    decreases exchanges.len(),
{
    if exchanges.len() > 0 {
        let before = exchanges.drop_last();
        let last = exchanges.len() - 1;
        assert forall|i: int| 0 <= i < before.len() implies answers(
            #[trigger] step_after(policy, pod, start, before.take(i)),
            before[i].reply,
        ) by {
            assert(before.take(i) =~= exchanges.take(i));
            assert(before[i] == exchanges[i]);
        }
        rounds_end(policy, pod, start, before);
        assert(exchanges.take(last) =~= before);
        assert(answers(
            step_after(policy, pod, start, exchanges.take(last)),
            exchanges[last].reply,
        ));
        replies_bring_the_end_closer(
            policy,
            pod,
            step_after(policy, pod, start, before),
            exchanges.last().reply,
            exchanges.last().at,
        );
    }
}

// ---------- Patches ----------

/// The controller's finalizer is gone after it was removed, and every other one is
/// still there.
pub proof fn removal_takes_only_our_finalizer(finalizers: Seq<Seq<char>>, finalizer: Seq<char>)
    ensures
        crate::controller::without_ours(finalizers).contains(finalizer) <==> finalizers.contains(
            finalizer,
        ) && finalizer != POD_FINALIZER@,
{
    let others = |f: Seq<char>| f != POD_FINALIZER@;
    assert(crate::controller::without_ours(finalizers) == finalizers.filter(others));
    if finalizers.filter(others).contains(finalizer) {
        let i = choose|i: int|
            0 <= i < finalizers.filter(others).len() && finalizers.filter(others)[i] == finalizer;
        finalizers.lemma_filter_pred(others, i);
        finalizers.lemma_filter_contains_rev(others, finalizer);
    }
    if finalizers.contains(finalizer) && finalizer != POD_FINALIZER@ {
        let i = choose|i: int| 0 <= i < finalizers.len() && finalizers[i] == finalizer;
        finalizers.lemma_filter_contains(others, i);
    }
}

/// Removing the controller's finalizer undoes adding it.
pub proof fn removal_undoes_addition(finalizers: Seq<Seq<char>>)
    requires
        !finalizers.contains(POD_FINALIZER@),
    ensures
        crate::controller::without_ours(finalizers.push(POD_FINALIZER@)) == finalizers,
        crate::controller::without_ours(finalizers) == finalizers,
    decreases finalizers.len(),
{
    reveal(Seq::filter);
    let added = finalizers.push(POD_FINALIZER@);
    assert(added.drop_last() =~= finalizers);
    assert(added.last() == POD_FINALIZER@);
    assert(crate::controller::without_ours(added) == crate::controller::without_ours(finalizers));
    if finalizers.len() > 0 {
        let before = finalizers.drop_last();
        assert forall|i: int| 0 <= i < before.len() implies before[i] != POD_FINALIZER@ by {
            assert(finalizers[i] == before[i]);
        }
        assert(finalizers.contains(finalizers.last()));
        removal_undoes_addition(before);
        assert(before.push(finalizers.last()) =~= finalizers);
    } else {
        assert(crate::controller::without_ours(finalizers) =~= finalizers);
    }
}

/// A pod after a patch of its conditions. `gate` is the condition that the patch
/// gave the readiness gate, as the API server reports it.
pub open spec fn patched(pod: PodView, patch: ConditionsPatchView, gate: ConditionView) -> PodView
    recommends
        gate.type_ == READINESS_GATE_CONDITION_TYPE@,
        gate.status == patch.gate.status,
{
    PodView { conditions: patch.kept.push(gate), ..pod }
}

/// A patch of the conditions sets the readiness gate and nothing else: afterwards
/// it is true just when the patch says "True", and the conditions of every other
/// type are as they were.
pub proof fn patch_sets_only_the_gate(
    pod: PodView,
    status: Seq<char>,
    reason: Seq<char>,
    message: Seq<char>,
    at: Seq<char>,
    gate: ConditionView,
    condition_type: Seq<char>,
)
    requires
        gate.type_ == READINESS_GATE_CONDITION_TYPE@,
        gate.status == status,
    ensures
        patched(
            pod,
            crate::controller::gate_patch_view(pod, status, reason, message, at),
            gate,
        ).condition_is_true(condition_type) == if condition_type
            == READINESS_GATE_CONDITION_TYPE@ {
            status == "True"@
        } else {
            pod.condition_is_true(condition_type)
        },
        crate::controller::other_conditions(
            patched(
                pod,
                crate::controller::gate_patch_view(pod, status, reason, message, at),
                gate,
            ).conditions,
        ) == crate::controller::other_conditions(pod.conditions),
{
    let other = |c: ConditionView| c.type_ != READINESS_GATE_CONDITION_TYPE@;
    let kept = pod.conditions.filter(other);
    let patch = crate::controller::gate_patch_view(pod, status, reason, message, at);
    let after = patched(pod, patch, gate);
    assert(patch.kept == kept);
    assert(after.conditions[kept.len() as int] == gate);
    assert forall|i: int| 0 <= i < kept.len() implies other(#[trigger] kept[i])
        && pod.conditions.contains(kept[i]) by {
        pod.conditions.lemma_filter_pred(other, i);
        assert(kept.contains(kept[i]));
        pod.conditions.lemma_filter_contains_rev(other, kept[i]);
    }
    if condition_type != READINESS_GATE_CONDITION_TYPE@ {
        if pod.condition_is_true(condition_type) {
            let i = choose|i: int|
                0 <= i < pod.conditions.len() && (#[trigger] pod.conditions[i]).type_
                    == condition_type && pod.conditions[i].status == "True"@;
            pod.conditions.lemma_filter_contains(other, i);
            let j = choose|j: int| 0 <= j < kept.len() && kept[j] == pod.conditions[i];
            assert(after.conditions[j] == kept[j]);
        }
        if after.condition_is_true(condition_type) {
            let i = choose|i: int|
                0 <= i < after.conditions.len() && (#[trigger] after.conditions[i]).type_
                    == condition_type && after.conditions[i].status == "True"@;
            assert(after.conditions[i] == kept[i]);
            assert(pod.conditions.contains(kept[i]));
        }
    } else if after.condition_is_true(condition_type) {
        let i = choose|i: int|
            0 <= i < after.conditions.len() && (#[trigger] after.conditions[i]).type_
                == condition_type && after.conditions[i].status == "True"@;
        if i < kept.len() {
            assert(after.conditions[i] == kept[i]);
        }
    }
    filter_is_idempotent(pod.conditions);
    reveal(Seq::filter);
    assert(after.conditions.drop_last() =~= kept);
}

proof fn filter_is_idempotent(conditions: Seq<ConditionView>)
    ensures
        crate::controller::other_conditions(crate::controller::other_conditions(conditions))
            == crate::controller::other_conditions(conditions),
    decreases conditions.len(),
{
    reveal(Seq::filter);
    if conditions.len() > 0 {
        filter_is_idempotent(conditions.drop_last());
        let kept = crate::controller::other_conditions(conditions.drop_last());
        assert(kept.push(conditions.last()).drop_last() =~= kept);
    }
}

/// An active pod is kept ready, and only once: after its gate was opened, nothing
/// is left to do for it there, and no round opens it again.
pub proof fn gate_is_opened_once(
    policy: DecommissionPolicy,
    pod: PodView,
    start: TimestampView,
    gate: ConditionView,
    opened: PodView,
    later: TimestampView,
    exchanges: Seq<Exchange>,
)
    requires
        crate::controller::gate_step(policy, pod, start) is OpenGate,
        gate.type_ == READINESS_GATE_CONDITION_TYPE@,
        gate.status == "True"@,
        opened == patched(
            pod,
            crate::controller::gate_step(policy, pod, start)->OpenGate_patch,
            gate,
        ),
    ensures
        !pod.is_terminating(),
        crate::controller::gate_step(policy, opened, later) == (PodStepView::Finished {
            requeue: Requeue::Secs(300),
        }),
        !(step_after(policy, opened, later, exchanges) is OpenGate),
    decreases exchanges.len(),
{
    let patch = crate::controller::gate_step(policy, pod, start)->OpenGate_patch;
    patch_sets_only_the_gate(
        pod,
        "True"@,
        patch.gate.reason,
        patch.gate.message,
        patch.gate.last_transition_time,
        gate,
        READINESS_GATE_CONDITION_TYPE@,
    );
    if exchanges.len() > 0 {
        gate_is_opened_once(policy, pod, start, gate, opened, later, exchanges.drop_last());
    }
}

/// A terminating pod leaves the Service endpoints once: after its gate was closed,
/// no round closes it again or opens it. Under drain verification, the pod is then
/// asked whether it is drained.
pub proof fn gate_is_closed_once(
    policy: DecommissionPolicy,
    pod: PodView,
    start: TimestampView,
    gate: ConditionView,
    closed_pod: PodView,
    later: TimestampView,
    exchanges: Seq<Exchange>,
)
    requires
        crate::controller::gate_step(policy, pod, start) is CloseGate,
        gate.type_ == READINESS_GATE_CONDITION_TYPE@,
        gate.status == "False"@,
        closed_pod == patched(
            pod,
            crate::controller::gate_step(policy, pod, start)->CloseGate_patch,
            gate,
        ),
    ensures
        !(step_after(policy, closed_pod, later, exchanges) is CloseGate),
        !(step_after(policy, closed_pod, later, exchanges) is OpenGate),
        under_verification(policy, pod) && pod.pod_ip is Some ==> crate::controller::gate_step(
            policy,
            closed_pod,
            later,
        ) == (PodStepView::PollDrainez { url: crate::controller::drainez_url_of(pod.pod_ip->0) }),
    decreases exchanges.len(),
{
    let patch = crate::controller::gate_step(policy, pod, start)->CloseGate_patch;
    patch_sets_only_the_gate(
        pod,
        "False"@,
        patch.gate.reason,
        patch.gate.message,
        patch.gate.last_transition_time,
        gate,
        READINESS_GATE_CONDITION_TYPE@,
    );
    reveal_strlit("False");
    reveal_strlit("True");
    assert("False"@.len() != "True"@.len());
    if exchanges.len() > 0 {
        gate_is_closed_once(policy, pod, start, gate, closed_pod, later, exchanges.drop_last());
    }
}

// ---------- What each step is for, in the fields of a pod ----------

/// The names under which the controller is known on a cluster.
pub proof fn names_on_the_cluster()
    ensures
        POD_FINALIZER@ == "decomposition.dat6.io/finalizer"@,
        READINESS_GATE_CONDITION_TYPE@ == "decomposition.dat6.io/drain"@,
        STATE_ANNOTATION@ == "decomposition.dat6.io/state"@,
{
}

/// The times that the clock can show: from 1970 to the end of the calendar, outside leap
/// seconds.
pub proof fn clock_range(now: TimestampView)
    ensures
        crate::controller::on_the_clock(now) <==> 0 <= now.secs <= 8_210_266_876_799 && 0
            <= now.nanos < 1_000_000_000,
{
}

/// A round begins by adding the finalizer exactly if drain verification is on and the
/// pod is running, not terminating and without it. The finalizers that the pod has are
/// kept, in order, and the controller's own comes after them.
pub proof fn finalizer_is_added_to_running_pods(
    policy: DecommissionPolicy,
    pod: PodView,
    start: TimestampView,
)
    ensures
        crate::controller::first_step(policy, pod, start) is AddFinalizer <==> {
            &&& policy.drain_verification
            &&& pod.deletion_timestamp is None
            &&& pod.phase == Some("Running"@)
            &&& !pod.finalizers.contains(POD_FINALIZER@)
        },
        crate::controller::first_step(policy, pod, start) matches PodStepView::AddFinalizer {
            finalizers,
        } ==> {
            &&& finalizers.len() == pod.finalizers.len() + 1
            &&& finalizers.last() == POD_FINALIZER@
            &&& forall|i: int|
                0 <= i < pod.finalizers.len() ==> #[trigger] finalizers[i] == pod.finalizers[i]
        },
{
    reveal_strlit("Running");
    reveal_strlit("Unknown");
    assert("Running"@[0] == 'R');
    assert("Unknown"@[0] == 'U');
}

/// A round begins by recording that a pod is draining exactly if the pod is terminating
/// and its annotation does not tell a tracked state, under every policy.
pub proof fn termination_is_recorded(
    policy: DecommissionPolicy,
    pod: PodView,
    start: TimestampView,
)
    ensures
        crate::controller::first_step(policy, pod, start) is PersistDraining <==> {
            &&& pod.deletion_timestamp is Some
            &&& !(pod.annotations.contains_key(STATE_ANNOTATION@) && {
                ||| pod.annotations[STATE_ANNOTATION@] == "draining"@
                ||| pod.annotations[STATE_ANNOTATION@] == "readiness_lost"@
                ||| pod.annotations[STATE_ANNOTATION@] == "pre_stop_running"@
                ||| pod.annotations[STATE_ANNOTATION@] == "state_handover"@
                ||| pod.annotations[STATE_ANNOTATION@] == "deletion_allowed"@
            })
        },
        crate::controller::first_step(policy, pod, start) matches PodStepView::PersistDraining {
            annotation,
        } ==> annotation == "draining"@,
{
}

/// Under every policy, a round begins by opening the readiness gate exactly of a pod that
/// is not terminating, has that gate and no condition that says it is true, unless the pod
/// has to be given the finalizer first.
pub proof fn gate_of_active_pods_is_opened(
    policy: DecommissionPolicy,
    pod: PodView,
    start: TimestampView,
)
    ensures
        crate::controller::first_step(policy, pod, start) is OpenGate <==> {
            &&& pod.deletion_timestamp is None
            &&& pod.readiness_gates.contains(READINESS_GATE_CONDITION_TYPE@)
            &&& !(exists|i: int|
                0 <= i < pod.conditions.len() && (#[trigger] pod.conditions[i]).type_
                    == READINESS_GATE_CONDITION_TYPE@ && pod.conditions[i].status == "True"@)
            &&& !(policy.drain_verification && pod.phase == Some("Running"@)
                && !pod.finalizers.contains(POD_FINALIZER@))
        },
        crate::controller::first_step(policy, pod, start) matches PodStepView::OpenGate {
            patch,
        } ==> {
            &&& patch.gate.status == "True"@
            &&& patch.gate.reason == "ReadyForService"@
            &&& patch.gate.message
                == "controller marks readiness gate true while pod is active"@
            &&& patch.gate.last_transition_time == crate::timestamp::rfc3339_text(
                start.secs,
                start.nanos,
            )
        },
{
    reveal_strlit("Running");
    reveal_strlit("Unknown");
    assert("Running"@[0] == 'R');
    assert("Unknown"@[0] == 'U');
}

/// A round begins by closing the readiness gate exactly if early readiness removal is on
/// and the pod is terminating, is on record, has that gate and a condition that says it is
/// true, whatever its finalizers and its state on record are. The pod is looked at again
/// after a second.
pub proof fn gate_of_terminating_pods_is_closed(
    policy: DecommissionPolicy,
    pod: PodView,
    start: TimestampView,
)
    ensures
        crate::controller::first_step(policy, pod, start) is CloseGate <==> {
            &&& policy.early_readiness_removal
            &&& pod.deletion_timestamp is Some
            &&& pod.readiness_gates.contains(READINESS_GATE_CONDITION_TYPE@)
            &&& exists|i: int|
                0 <= i < pod.conditions.len() && (#[trigger] pod.conditions[i]).type_
                    == READINESS_GATE_CONDITION_TYPE@ && pod.conditions[i].status == "True"@
            &&& pod.annotations.contains_key(STATE_ANNOTATION@) && {
                ||| pod.annotations[STATE_ANNOTATION@] == "draining"@
                ||| pod.annotations[STATE_ANNOTATION@] == "readiness_lost"@
                ||| pod.annotations[STATE_ANNOTATION@] == "pre_stop_running"@
                ||| pod.annotations[STATE_ANNOTATION@] == "state_handover"@
                ||| pod.annotations[STATE_ANNOTATION@] == "deletion_allowed"@
            }
        },
        crate::controller::first_step(policy, pod, start) matches PodStepView::CloseGate {
            patch,
            requeue,
        } ==> {
            &&& requeue == Requeue::Secs(1)
            &&& patch.gate.status == "False"@
            &&& patch.gate.reason == "EarlyReadinessRemoval"@
            &&& patch.gate.message == "S1: removed from Service endpoints before drain"@
            &&& patch.gate.last_transition_time == crate::timestamp::rfc3339_text(
                start.secs,
                start.nanos,
            )
        },
{
}

/// A round begins by asking a pod whether it is drained exactly if drain verification is
/// on and the pod is terminating, on record as draining and has an IP, unless its gate has
/// to be closed first. It is asked at its IP.
pub proof fn draining_pods_are_asked(
    policy: DecommissionPolicy,
    pod: PodView,
    start: TimestampView,
)
    ensures
        crate::controller::first_step(policy, pod, start) is PollDrainez <==> {
            &&& policy.drain_verification
            &&& pod.deletion_timestamp is Some
            &&& pod.annotations.contains_key(STATE_ANNOTATION@)
            &&& pod.annotations[STATE_ANNOTATION@] == "draining"@
            &&& pod.pod_ip is Some
            &&& !(policy.early_readiness_removal && pod.readiness_gates.contains(
                READINESS_GATE_CONDITION_TYPE@,
            ) && (exists|i: int|
                0 <= i < pod.conditions.len() && (#[trigger] pod.conditions[i]).type_
                    == READINESS_GATE_CONDITION_TYPE@ && pod.conditions[i].status == "True"@))
        },
        crate::controller::first_step(policy, pod, start) matches PodStepView::PollDrainez {
            url,
        } ==> url == "http://"@ + pod.pod_ip->0 + ":8080/drainez"@,
{
}

/// A round begins by recording that deletion is allowed exactly where a pod would be asked
/// but has no IP, and has been terminating for its whole grace period; within it, the
/// round is over and the pod is looked at again after half a second.
pub proof fn pods_without_ip_are_given_up(
    policy: DecommissionPolicy,
    pod: PodView,
    start: TimestampView,
)
    requires
        policy.drain_verification,
        pod.deletion_timestamp is Some,
        pod.annotations.contains_key(STATE_ANNOTATION@),
        pod.annotations[STATE_ANNOTATION@] == "draining"@,
        pod.pod_ip is None,
        !(policy.early_readiness_removal && pod.readiness_gates.contains(
            READINESS_GATE_CONDITION_TYPE@,
        ) && (exists|i: int|
            0 <= i < pod.conditions.len() && (#[trigger] pod.conditions[i]).type_
                == READINESS_GATE_CONDITION_TYPE@ && pod.conditions[i].status == "True"@)),
    ensures
        ({
            let grace: int = match pod.termination_grace_period_seconds {
                Some(secs) => secs,
                None => 30,
            };
            grace <= 0 || (pod.deletion_timestamp matches Some(since)
                && crate::timestamp::whole_seconds_between(start, since) >= grace)
        }) ==> crate::controller::first_step(policy, pod, start)
            == (PodStepView::PersistVerified { annotation: "deletion_allowed"@ }),
        !({
            let grace: int = match pod.termination_grace_period_seconds {
                Some(secs) => secs,
                None => 30,
            };
            grace <= 0 || (pod.deletion_timestamp matches Some(since)
                && crate::timestamp::whole_seconds_between(start, since) >= grace)
        }) ==> crate::controller::first_step(policy, pod, start)
            == (PodStepView::Finished { requeue: Requeue::Millis(500) }),
{
}

/// Where none of this is due a round is over at once, and the pod is looked at again after
/// five minutes. A pod that is let go without having been asked has no IP; and no round
/// begins with a step that only follows another.
pub proof fn nothing_else_begins_a_round(
    policy: DecommissionPolicy,
    pod: PodView,
    start: TimestampView,
)
    ensures
        match crate::controller::first_step(policy, pod, start) {
            PodStepView::AddFinalizerLate { .. } => false,
            PodStepView::FetchFinalizers { .. } => false,
            PodStepView::ReleaseFinalizer { .. } => false,
            PodStepView::Failed => false,
            PodStepView::PersistVerified { .. } => {
                &&& policy.drain_verification
                &&& pod.deletion_timestamp is Some
                &&& pod.pod_ip is None
                &&& pod.annotations.contains_key(STATE_ANNOTATION@)
                &&& pod.annotations[STATE_ANNOTATION@] == "draining"@
            },
            PodStepView::Finished { requeue } => requeue == Requeue::Secs(300) || {
                &&& requeue == Requeue::Millis(500)
                &&& policy.drain_verification
                &&& pod.deletion_timestamp is Some
                &&& pod.pod_ip is None
                &&& pod.annotations.contains_key(STATE_ANNOTATION@)
                &&& pod.annotations[STATE_ANNOTATION@] == "draining"@
            },
            _ => true,
        },
{
}

/// A pod that does not answer is let go exactly if the whole seconds since its deletion was
/// requested are at least its own grace period, 30 seconds if it names none, whatever that
/// is; else it is asked again after half a second.
pub proof fn unreachable_pod_waits_out_its_own_grace_period(
    policy: DecommissionPolicy,
    pod: PodView,
    url: Seq<char>,
    now: TimestampView,
)
    ensures
        ({
            let grace: int = match pod.termination_grace_period_seconds {
                Some(secs) => secs,
                None => 30,
            };
            grace <= 0 || (pod.deletion_timestamp matches Some(since)
                && crate::timestamp::whole_seconds_between(now, since) >= grace)
        }) <==> crate::controller::next_step(
            policy,
            pod,
            PodStepView::PollDrainez { url },
            PodReplyView::Answered { reply: DrainezReply::RequestFailed },
            now,
        ) is PersistVerified,
        !({
            let grace: int = match pod.termination_grace_period_seconds {
                Some(secs) => secs,
                None => 30,
            };
            grace <= 0 || (pod.deletion_timestamp matches Some(since)
                && crate::timestamp::whole_seconds_between(now, since) >= grace)
        }) <==> crate::controller::next_step(
            policy,
            pod,
            PodStepView::PollDrainez { url },
            PodReplyView::Answered { reply: DrainezReply::RequestFailed },
            now,
        ) == (PodStepView::Finished { requeue: Requeue::Millis(500) }),
{
}

/// The same outside leap seconds, in nanoseconds: the pod is let go exactly from the moment
/// on that lies its grace period after the request for its deletion.
pub proof fn unreachable_pod_is_let_go_from_the_end_of_its_grace_period(
    policy: DecommissionPolicy,
    pod: PodView,
    url: Seq<char>,
    since: TimestampView,
    grace: int,
    now: TimestampView,
)
    requires
        pod.deletion_timestamp == Some(since),
        pod.termination_grace_period_seconds == Some(grace) || (
        pod.termination_grace_period_seconds is None && grace == 30),
        grace > 0,
        0 <= since.nanos < 1_000_000_000,
        0 <= now.nanos < 1_000_000_000,
    ensures
        crate::controller::next_step(
            policy,
            pod,
            PodStepView::PollDrainez { url },
            PodReplyView::Answered { reply: DrainezReply::RequestFailed },
            now,
        ) is PersistVerified <==> now.secs * 1_000_000_000 + now.nanos >= (since.secs + grace)
            * 1_000_000_000 + since.nanos,
{
    crate::timestamp::whole_seconds_have_passed(now, since, grace);
}

/// A pod's answer decides alone: one that says the pod is drained lets it go whatever the
/// time is, and any other answer does not, whatever the time is.
pub proof fn answer_decides_whatever_the_time(
    policy: DecommissionPolicy,
    pod: PodView,
    url: Seq<char>,
    reply: DrainezReply,
    now: TimestampView,
)
    requires
        reply != DrainezReply::RequestFailed,
    ensures
        crate::controller::next_step(
            policy,
            pod,
            PodStepView::PollDrainez { url },
            PodReplyView::Answered { reply },
            now,
        ) is PersistVerified <==> reply == (DrainezReply::Payload { ready_to_delete: true }),
        crate::controller::next_step(
            policy,
            pod,
            PodStepView::PollDrainez { url },
            PodReplyView::Answered { reply },
            now,
        ) == (PodStepView::Finished { requeue: Requeue::Millis(500) }) <==> reply != (
        DrainezReply::Payload { ready_to_delete: true }),
{
}

/// What is recorded of a pod that is let go: that deletion is allowed, if it is draining by
/// its annotation or was found terminating without one; a pod in another state stays on
/// record in that one.
pub proof fn deletion_is_recorded_for_draining_pods(
    policy: DecommissionPolicy,
    pod: PodView,
    url: Seq<char>,
    reply: DrainezReply,
    now: TimestampView,
)
    ensures
        crate::controller::next_step(
            policy,
            pod,
            PodStepView::PollDrainez { url },
            PodReplyView::Answered { reply },
            now,
        ) matches PodStepView::PersistVerified { annotation } ==> annotation
            == if pod.annotations.contains_key(STATE_ANNOTATION@) && {
            ||| pod.annotations[STATE_ANNOTATION@] == "draining"@
            ||| pod.annotations[STATE_ANNOTATION@] == "readiness_lost"@
            ||| pod.annotations[STATE_ANNOTATION@] == "pre_stop_running"@
            ||| pod.annotations[STATE_ANNOTATION@] == "state_handover"@
            ||| pod.annotations[STATE_ANNOTATION@] == "deletion_allowed"@
        } && pod.annotations[STATE_ANNOTATION@] != "draining"@ {
            pod.annotations[STATE_ANNOTATION@]
        } else if pod.deletion_timestamp is None && !(
        pod.annotations.contains_key(STATE_ANNOTATION@) && {
            ||| pod.annotations[STATE_ANNOTATION@] == "draining"@
            ||| pod.annotations[STATE_ANNOTATION@] == "readiness_lost"@
            ||| pod.annotations[STATE_ANNOTATION@] == "pre_stop_running"@
            ||| pod.annotations[STATE_ANNOTATION@] == "state_handover"@
            ||| pod.annotations[STATE_ANNOTATION@] == "deletion_allowed"@
        }) {
            "unknown"@
        } else {
            "deletion_allowed"@
        },
{
    if pod.annotations.contains_key(STATE_ANNOTATION@) {
        crate::decommission::tracked_states_have_one_text(
            crate::decommission::annotated_state(pod.annotations[STATE_ANNOTATION@]),
            pod.annotations[STATE_ANNOTATION@],
        );
    }
}

/// What the outcome of a poll leads to, for a pod in any state: a drained pod is let go, one
/// with work left is not, and an unreachable one exactly past its own grace period. Only a
/// draining pod comes to be on record as one whose deletion is allowed.
pub proof fn poll_outcomes_lead_to(
    outcome: DrainezPollOutcome,
    pod: PodView,
    fsm_state: DecommissionState,
    now: TimestampView,
)
    ensures
        crate::controller::after_poll(outcome, pod, fsm_state, now) is PersistVerified <==> {
            ||| outcome is ReadyToDelete
            ||| outcome is Unreachable && {
                let grace: int = match pod.termination_grace_period_seconds {
                    Some(secs) => secs,
                    None => 30,
                };
                grace <= 0 || (pod.deletion_timestamp matches Some(since)
                    && crate::timestamp::whole_seconds_between(now, since) >= grace)
            }
        },
        crate::controller::after_poll(outcome, pod, fsm_state, now) is PersistVerified
            || crate::controller::after_poll(outcome, pod, fsm_state, now) == (
        PodStepView::Finished { requeue: Requeue::Millis(500) }),
        crate::controller::after_poll(outcome, pod, fsm_state, now) matches
            PodStepView::PersistVerified { annotation } ==> annotation == match fsm_state {
            DecommissionState::Unknown => "unknown"@,
            DecommissionState::Draining => "deletion_allowed"@,
            DecommissionState::ReadinessLost => "readiness_lost"@,
            DecommissionState::PreStopRunning => "pre_stop_running"@,
            DecommissionState::StateHandover => "state_handover"@,
            DecommissionState::DeletionAllowed => "deletion_allowed"@,
        },
{
}

/// A reply says that a pod is unreachable exactly if no response came, and that it is
/// drained exactly if the response says so.
pub proof fn replies_are_told_apart(reply: DrainezReply)
    ensures
        crate::controller::outcome_of(reply) is Unreachable <==> reply is RequestFailed,
        crate::controller::outcome_of(reply) is ReadyToDelete <==> reply == (
        DrainezReply::Payload { ready_to_delete: true }),
{
}

/// A terminating pod without a tracked state on record counts as draining; every other pod
/// is in the state that its annotation tells.
pub proof fn untracked_terminating_pod_is_draining(pod: PodView)
    ensures
        pod.deletion_timestamp is Some && !(pod.annotations.contains_key(STATE_ANNOTATION@) && {
            ||| pod.annotations[STATE_ANNOTATION@] == "draining"@
            ||| pod.annotations[STATE_ANNOTATION@] == "readiness_lost"@
            ||| pod.annotations[STATE_ANNOTATION@] == "pre_stop_running"@
            ||| pod.annotations[STATE_ANNOTATION@] == "state_handover"@
            ||| pod.annotations[STATE_ANNOTATION@] == "deletion_allowed"@
        }) ==> crate::controller::current_state(pod) is Draining,
        pod.annotations.contains_key(STATE_ANNOTATION@) && {
            ||| pod.annotations[STATE_ANNOTATION@] == "draining"@
            ||| pod.annotations[STATE_ANNOTATION@] == "readiness_lost"@
            ||| pod.annotations[STATE_ANNOTATION@] == "pre_stop_running"@
            ||| pod.annotations[STATE_ANNOTATION@] == "state_handover"@
            ||| pod.annotations[STATE_ANNOTATION@] == "deletion_allowed"@
        } ==> crate::decommission::annotation_value(crate::controller::current_state(pod))
            == pod.annotations[STATE_ANNOTATION@],
        pod.deletion_timestamp is None && !(pod.annotations.contains_key(STATE_ANNOTATION@) && {
            ||| pod.annotations[STATE_ANNOTATION@] == "draining"@
            ||| pod.annotations[STATE_ANNOTATION@] == "readiness_lost"@
            ||| pod.annotations[STATE_ANNOTATION@] == "pre_stop_running"@
            ||| pod.annotations[STATE_ANNOTATION@] == "state_handover"@
            ||| pod.annotations[STATE_ANNOTATION@] == "deletion_allowed"@
        }) ==> crate::controller::current_state(pod) is Unknown,
{
    if pod.annotations.contains_key(STATE_ANNOTATION@) {
        crate::decommission::tracked_states_have_one_text(
            crate::decommission::annotated_state(pod.annotations[STATE_ANNOTATION@]),
            pod.annotations[STATE_ANNOTATION@],
        );
    }
}

/// Where a pod is asked: at port 8080 of its IP, whatever that looks like.
pub proof fn url_is_built_round_the_ip(ip: Seq<char>)
    ensures
        crate::controller::drainez_url_of(ip).len() == ip.len() + 20,
        crate::controller::drainez_url_of(ip).take(7) == "http://"@,
        crate::controller::drainez_url_of(ip).subrange(7, 7 + ip.len() as int) == ip,
        crate::controller::drainez_url_of(ip).skip(7 + ip.len() as int) == ":8080/drainez"@,
{
    reveal_strlit("http://");
    reveal_strlit(":8080/drainez");
    let url = crate::controller::drainez_url_of(ip);
    assert(url.take(7) =~= "http://"@);
    assert(url.subrange(7, 7 + ip.len() as int) =~= ip);
    assert(url.skip(7 + ip.len() as int) =~= ":8080/drainez"@);
}

/// How the policy's decisions are carried out: the waiting ones look at the pod again after
/// the time that they name, deletion is allowed by reading the finalizers, readiness is
/// removed by closing the pod's readiness gate, and a drain is verified by asking the pod, or by
/// taking it for unreachable if it has no IP.
pub proof fn decisions_are_carried_out(
    decision: PolicyDecision,
    pod: PodView,
    fsm_state: DecommissionState,
    now: TimestampView,
)
    ensures
        match decision {
            PolicyDecision::NoAction => crate::controller::carried_out(
                decision,
                pod,
                fsm_state,
                now,
            ) == (PodStepView::Finished { requeue: Requeue::Secs(300) }),
            PolicyDecision::DelayDeletion {
                requeue_after_secs,
                ..
            } => crate::controller::carried_out(decision, pod, fsm_state, now) == (
            PodStepView::Finished { requeue: Requeue::Secs(requeue_after_secs) }),
            PolicyDecision::EnsurePreStop { requeue_after_secs } => crate::controller::carried_out(
                decision,
                pod,
                fsm_state,
                now,
            ) == (PodStepView::Finished { requeue: Requeue::Secs(requeue_after_secs) }),
            PolicyDecision::WaitForStateHandover {
                requeue_after_secs,
            } => crate::controller::carried_out(decision, pod, fsm_state, now) == (
            PodStepView::Finished { requeue: Requeue::Secs(requeue_after_secs) }),
            PolicyDecision::AllowDeletion => crate::controller::carried_out(
                decision,
                pod,
                fsm_state,
                now,
            ) == (PodStepView::FetchFinalizers { requeue: Requeue::Secs(300) }),
            PolicyDecision::EnsureReadinessRemoved { requeue_after_secs } => {
                crate::controller::carried_out(decision, pod, fsm_state, now) matches
                    PodStepView::CloseGate { patch, requeue } && {
                    &&& requeue == Requeue::Secs(requeue_after_secs)
                    &&& patch.kept == crate::controller::gate_patch_view(
                        pod,
                        patch.gate.status,
                        patch.gate.reason,
                        patch.gate.message,
                        patch.gate.last_transition_time,
                    ).kept
                    &&& patch.gate.status == "False"@
                    &&& patch.gate.reason == "EarlyReadinessRemoval"@
                    &&& patch.gate.message == "S1: removed from Service endpoints before drain"@
                    &&& patch.gate.last_transition_time == crate::timestamp::rfc3339_text(
                        now.secs,
                        now.nanos,
                    )
                }
            },
            PolicyDecision::WaitForDrainVerification => match pod.pod_ip {
                Some(ip) => crate::controller::carried_out(decision, pod, fsm_state, now) == (
                PodStepView::PollDrainez { url: "http://"@ + ip + ":8080/drainez"@ }),
                None => crate::controller::carried_out(decision, pod, fsm_state, now)
                    == crate::controller::after_poll(
                    DrainezPollOutcome::Unreachable,
                    pod,
                    fsm_state,
                    now,
                ),
            },
        },
{
}

// ---------- What follows a request ----------

/// A pod that was given the finalizer is looked at again after a second, and one that could
/// not be after two; under every policy, for every pod.
pub proof fn pod_is_looked_at_again_after_the_finalizer(
    policy: DecommissionPolicy,
    pod: PodView,
    finalizers: Seq<Seq<char>>,
    now: TimestampView,
)
    ensures
        crate::controller::next_step(
            policy,
            pod,
            PodStepView::AddFinalizer { finalizers },
            PodReplyView::Succeeded,
            now,
        ) == (PodStepView::Finished { requeue: Requeue::Secs(1) }),
        crate::controller::next_step(
            policy,
            pod,
            PodStepView::AddFinalizer { finalizers },
            PodReplyView::Failed,
            now,
        ) == (PodStepView::Finished { requeue: Requeue::Secs(2) }),
{
}

/// A round fails exactly if the record, the finalizers or the release of a pod could not be
/// written or read; every other failed request only has the pod looked at again soon, or
/// passed over.
pub proof fn only_records_and_releases_fail_a_round(
    policy: DecommissionPolicy,
    pod: PodView,
    step: PodStepView,
    reply: PodReplyView,
    now: TimestampView,
)
    requires
        !(step is Failed),
    ensures
        crate::controller::next_step(policy, pod, step, reply, now) is Failed <==> {
            &&& reply is Failed
            &&& {
                ||| step is PersistDraining
                ||| step is PersistVerified
                ||| step is FetchFinalizers
                ||| step is ReleaseFinalizer
            }
        },
{
}

/// A gate that was closed has the pod looked at again when the step says; one that could
/// not be opened or closed after two seconds; and an active pod whose gate was opened after
/// five minutes.
pub proof fn pod_is_looked_at_again_after_its_gate(
    policy: DecommissionPolicy,
    pod: PodView,
    patch: ConditionsPatchView,
    requeue: Requeue,
    now: TimestampView,
)
    ensures
        crate::controller::next_step(
            policy,
            pod,
            PodStepView::CloseGate { patch, requeue },
            PodReplyView::Succeeded,
            now,
        ) == (PodStepView::Finished { requeue }),
        crate::controller::next_step(
            policy,
            pod,
            PodStepView::CloseGate { patch, requeue },
            PodReplyView::Failed,
            now,
        ) == (PodStepView::Finished { requeue: Requeue::Secs(2) }),
        crate::controller::next_step(
            policy,
            pod,
            PodStepView::OpenGate { patch },
            PodReplyView::Failed,
            now,
        ) == (PodStepView::Finished { requeue: Requeue::Secs(2) }),
        pod.deletion_timestamp is None ==> crate::controller::next_step(
            policy,
            pod,
            PodStepView::OpenGate { patch },
            PodReplyView::Succeeded,
            now,
        ) == (PodStepView::Finished { requeue: Requeue::Secs(300) }),
{
}

/// Recording that deletion is allowed is followed by reading the finalizers, and setting
/// them by looking at the pod again when the step says.
pub proof fn release_takes_its_course(
    policy: DecommissionPolicy,
    pod: PodView,
    annotation: Seq<char>,
    finalizers: Seq<Seq<char>>,
    requeue: Requeue,
    now: TimestampView,
)
    ensures
        crate::controller::next_step(
            policy,
            pod,
            PodStepView::PersistVerified { annotation },
            PodReplyView::Succeeded,
            now,
        ) == (PodStepView::FetchFinalizers { requeue: Requeue::Secs(1) }),
        crate::controller::next_step(
            policy,
            pod,
            PodStepView::ReleaseFinalizer { finalizers, requeue },
            PodReplyView::Succeeded,
            now,
        ) == (PodStepView::Finished { requeue }),
{
}

/// A round that is over stays as it is, whatever reply comes.
pub proof fn ended_round_stays_as_it_is(
    policy: DecommissionPolicy,
    pod: PodView,
    requeue: Requeue,
    reply: PodReplyView,
    now: TimestampView,
)
    ensures
        crate::controller::next_step(
            policy,
            pod,
            PodStepView::Finished { requeue },
            reply,
            now,
        ) == (PodStepView::Finished { requeue }),
        crate::controller::next_step(policy, pod, PodStepView::Failed, reply, now)
            == PodStepView::Failed,
{
}

/// A pod that was recorded as draining is held late exactly if drain verification is on and
/// it is not held. The finalizers that it has are kept, in order, and the controller's own
/// comes after them.
pub proof fn late_finalizer_comes_after_the_others(
    policy: DecommissionPolicy,
    pod: PodView,
    annotation: Seq<char>,
    now: TimestampView,
)
    ensures
        crate::controller::next_step(
            policy,
            pod,
            PodStepView::PersistDraining { annotation },
            PodReplyView::Succeeded,
            now,
        ) is AddFinalizerLate <==> policy.drain_verification && !pod.finalizers.contains(
            POD_FINALIZER@,
        ),
        crate::controller::next_step(
            policy,
            pod,
            PodStepView::PersistDraining { annotation },
            PodReplyView::Succeeded,
            now,
        ) matches PodStepView::AddFinalizerLate { finalizers } ==> {
            &&& finalizers.len() == pod.finalizers.len() + 1
            &&& finalizers.last() == POD_FINALIZER@
            &&& forall|i: int|
                0 <= i < pod.finalizers.len() ==> #[trigger] finalizers[i] == pod.finalizers[i]
        },
{
}

/// Once a pod is on record, and held or tried to be, the round goes on as one would begin
/// that finds the record and the finalizer on the pod.
pub proof fn round_goes_on_as_if_on_record(
    policy: DecommissionPolicy,
    pod: PodView,
    annotation: Seq<char>,
    finalizers: Seq<Seq<char>>,
    patch: ConditionsPatchView,
    recorded: PodView,
    now: TimestampView,
)
    requires
        recorded == (PodView {
            annotations: if pod.annotations.contains_key(STATE_ANNOTATION@) && {
                ||| pod.annotations[STATE_ANNOTATION@] == "draining"@
                ||| pod.annotations[STATE_ANNOTATION@] == "readiness_lost"@
                ||| pod.annotations[STATE_ANNOTATION@] == "pre_stop_running"@
                ||| pod.annotations[STATE_ANNOTATION@] == "state_handover"@
                ||| pod.annotations[STATE_ANNOTATION@] == "deletion_allowed"@
            } {
                pod.annotations
            } else {
                pod.annotations.insert(STATE_ANNOTATION@, "draining"@)
            },
            finalizers: pod.finalizers.push(POD_FINALIZER@),
            ..pod
        }),
    ensures
        !(policy.drain_verification && !pod.finalizers.contains(POD_FINALIZER@))
            ==> crate::controller::next_step(
            policy,
            pod,
            PodStepView::PersistDraining { annotation },
            PodReplyView::Succeeded,
            now,
        ) == crate::controller::first_step(policy, recorded, now),
        crate::controller::next_step(
            policy,
            pod,
            PodStepView::AddFinalizerLate { finalizers },
            PodReplyView::Succeeded,
            now,
        ) == crate::controller::first_step(policy, recorded, now),
        crate::controller::next_step(
            policy,
            pod,
            PodStepView::AddFinalizerLate { finalizers },
            PodReplyView::Failed,
            now,
        ) == crate::controller::first_step(policy, recorded, now),
        pod.deletion_timestamp is Some ==> crate::controller::next_step(
            policy,
            pod,
            PodStepView::OpenGate { patch },
            PodReplyView::Succeeded,
            now,
        ) == crate::controller::first_step(policy, recorded, now),
{
    assert(recorded.finalizers[pod.finalizers.len() as int] == POD_FINALIZER@);
    assert(recorded.finalizers.contains(POD_FINALIZER@));
    if pod.annotated_state() is Unknown {
        assert(recorded.annotations[STATE_ANNOTATION@] == "draining"@);
        assert(recorded.annotated_state() is Draining);
    }
    let gate = READINESS_GATE_CONDITION_TYPE@;
    assert(recorded.condition_is_true(gate) == pod.condition_is_true(gate));
}

/// Whenever a round sets finalizers to hold a pod, early or late, those that the pod has are
/// all kept, in order, and the controller's own comes after them.
pub proof fn holding_a_pod_keeps_its_finalizers(
    policy: DecommissionPolicy,
    pod: PodView,
    start: TimestampView,
    exchanges: Seq<Exchange>,
    finalizers: Seq<Seq<char>>,
)
    requires
        step_after(policy, pod, start, exchanges) == (PodStepView::AddFinalizer { finalizers })
            || step_after(policy, pod, start, exchanges) == (PodStepView::AddFinalizerLate {
            finalizers,
        }),
    ensures
        finalizers.len() == pod.finalizers.len() + 1,
        finalizers.last() == POD_FINALIZER@,
        forall|i: int|
            0 <= i < pod.finalizers.len() ==> #[trigger] finalizers[i] == pod.finalizers[i],
        !pod.finalizers.contains(POD_FINALIZER@),
    decreases exchanges.len(),
{
    if exchanges.len() > 0 {
        let before = step_after(policy, pod, start, exchanges.drop_last());
        if before == (PodStepView::AddFinalizer { finalizers }) || before == (
        PodStepView::AddFinalizerLate { finalizers }) {
            holding_a_pod_keeps_its_finalizers(
                policy,
                pod,
                start,
                exchanges.drop_last(),
                finalizers,
            );
        }
    }
}

/// The texts that a round writes on a pod: that it is draining, and that its deletion is
/// allowed.
pub proof fn round_records_two_states(
    policy: DecommissionPolicy,
    pod: PodView,
    start: TimestampView,
    exchanges: Seq<Exchange>,
)
    ensures
        step_after(policy, pod, start, exchanges) matches PodStepView::PersistDraining {
            annotation,
        } ==> annotation == "draining"@,
        step_after(policy, pod, start, exchanges) matches PodStepView::PersistVerified {
            annotation,
        } ==> annotation == "deletion_allowed"@,
    decreases exchanges.len(),
{
    way_to_release(policy, pod, start, exchanges);
    if exchanges.len() > 0 {
        round_records_two_states(policy, pod, start, exchanges.drop_last());
    }
}

// ---------- Lists that are kept ----------

/// The places of the items that a filter keeps.
proof fn filter_places<A>(items: Seq<A>, keep: spec_fn(A) -> bool) -> (places: Seq<int>)
    ensures
        places.len() == items.filter(keep).len(),
        forall|k: int|
            0 <= k < places.len() ==> 0 <= #[trigger] places[k] < items.len() && keep(
                items[places[k]],
            ) && items.filter(keep)[k] == items[places[k]],
        forall|k: int, l: int|
            0 <= k < l < places.len() ==> #[trigger] places[k] < #[trigger] places[l],
        forall|j: int|
            0 <= j < items.len() && keep(#[trigger] items[j]) ==> places.contains(j),
    decreases items.len(),
{
    reveal(Seq::filter);
    if items.len() == 0 {
        Seq::empty()
    } else {
        let before = items.drop_last();
        let last = items.len() - 1;
        let earlier = filter_places(before, keep);
        assert forall|j: int| 0 <= j < before.len() implies #[trigger] items[j] == before[j] by {}
        if keep(items.last()) {
            let places = earlier.push(last);
            assert forall|j: int| 0 <= j < items.len() && keep(#[trigger] items[j]) implies
                places.contains(j) by {
                if j == last {
                    assert(places[earlier.len() as int] == last);
                } else {
                    assert(keep(before[j]));
                    let k = choose|k: int| 0 <= k < earlier.len() && earlier[k] == j;
                    assert(places[k] == j);
                }
            }
            places
        } else {
            assert forall|j: int| 0 <= j < items.len() && keep(#[trigger] items[j]) implies
                earlier.contains(j) by {
                assert(keep(before[j]));
            }
            earlier
        }
    }
}

/// A patch of the conditions keeps exactly the conditions of the pod that are not of the
/// gate's type, whatever they say, each as it was and in their order. The result gives the
/// place of each in the pod's own list.
pub proof fn patch_keeps_every_other_condition(
    pod: PodView,
    status: Seq<char>,
    reason: Seq<char>,
    message: Seq<char>,
    at: Seq<char>,
) -> (places: Seq<int>)
    ensures
        ({
            let kept = crate::controller::gate_patch_view(pod, status, reason, message, at).kept;
            &&& places.len() == kept.len()
            &&& forall|k: int|
                0 <= k < places.len() ==> 0 <= #[trigger] places[k] < pod.conditions.len()
                    && pod.conditions[places[k]].type_ != READINESS_GATE_CONDITION_TYPE@
                    && kept[k] == pod.conditions[places[k]]
        }),
        forall|k: int, l: int|
            0 <= k < l < places.len() ==> #[trigger] places[k] < #[trigger] places[l],
        forall|j: int|
            0 <= j < pod.conditions.len() && (#[trigger] pod.conditions[j]).type_
                != READINESS_GATE_CONDITION_TYPE@ ==> places.contains(j),
{
    filter_places(
        pod.conditions,
        |condition: ConditionView| condition.type_ != READINESS_GATE_CONDITION_TYPE@,
    )
}

/// A patch of the conditions gives its gate the status, reason, message and time that were
/// asked for.
pub proof fn patch_says_what_was_asked(
    pod: PodView,
    status: Seq<char>,
    reason: Seq<char>,
    message: Seq<char>,
    at: Seq<char>,
    now: TimestampView,
)
    ensures
        crate::controller::gate_patch_view(pod, status, reason, message, at).gate.status == status,
        crate::controller::gate_patch_view(pod, status, reason, message, at).gate.reason == reason,
        crate::controller::gate_patch_view(pod, status, reason, message, at).gate.message
            == message,
        crate::controller::gate_patch_view(
            pod,
            status,
            reason,
            message,
            at,
        ).gate.last_transition_time == at,
        crate::controller::written(now) == crate::timestamp::rfc3339_text(now.secs, now.nanos),
{
}

/// Whenever a round patches the conditions of a pod, it keeps exactly those of a type other than
/// that of its gate, each as it was and in their order, and sets that gate to "True" on an
/// active pod or to "False" on a terminating one.
pub proof fn round_keeps_every_other_condition(
    policy: DecommissionPolicy,
    pod: PodView,
    start: TimestampView,
    exchanges: Seq<Exchange>,
    patch: ConditionsPatchView,
    requeue: Requeue,
) -> (places: Seq<int>)
    requires
        step_after(policy, pod, start, exchanges) == (PodStepView::OpenGate { patch })
            || step_after(policy, pod, start, exchanges) == (PodStepView::CloseGate {
            patch,
            requeue,
        }),
    ensures
        step_after(policy, pod, start, exchanges) is OpenGate <==> pod.deletion_timestamp is None,
        patch.gate.status == if pod.deletion_timestamp is None {
            "True"@
        } else {
            "False"@
        },
        places.len() == patch.kept.len(),
        forall|k: int|
            0 <= k < places.len() ==> 0 <= #[trigger] places[k] < pod.conditions.len()
                && pod.conditions[places[k]].type_ != READINESS_GATE_CONDITION_TYPE@
                && patch.kept[k] == pod.conditions[places[k]],
        forall|k: int, l: int|
            0 <= k < l < places.len() ==> #[trigger] places[k] < #[trigger] places[l],
        forall|j: int|
            0 <= j < pod.conditions.len() && (#[trigger] pod.conditions[j]).type_
                != READINESS_GATE_CONDITION_TYPE@ ==> places.contains(j),
    decreases exchanges.len(),
{
    if exchanges.len() > 0 && step_after(policy, pod, start, exchanges) == step_after(
        policy,
        pod,
        start,
        exchanges.drop_last(),
    ) {
        round_keeps_every_other_condition(
            policy,
            pod,
            start,
            exchanges.drop_last(),
            patch,
            requeue,
        )
    } else {
        patch_keeps_every_other_condition(
            pod,
            patch.gate.status,
            patch.gate.reason,
            patch.gate.message,
            patch.gate.last_transition_time,
        )
    }
}

/// Letting a pod go sets exactly the finalizers that the pod has then and that are not the
/// controller's own, in their order, however often one stands there. The result gives the
/// place of each in the pod's own list.
pub proof fn release_keeps_every_other_finalizer(
    policy: DecommissionPolicy,
    pod: PodView,
    fetched: Seq<Seq<char>>,
    requeue: Requeue,
    now: TimestampView,
) -> (places: Seq<int>)
    ensures
        crate::controller::next_step(
            policy,
            pod,
            PodStepView::FetchFinalizers { requeue },
            PodReplyView::Fetched { finalizers: fetched },
            now,
        ) matches PodStepView::ReleaseFinalizer { finalizers, requeue: same } && {
            &&& same == requeue
            &&& places.len() == finalizers.len()
            &&& forall|k: int|
                0 <= k < places.len() ==> 0 <= #[trigger] places[k] < fetched.len()
                    && fetched[places[k]] != POD_FINALIZER@ && finalizers[k] == fetched[places[k]]
        },
        forall|k: int, l: int|
            0 <= k < l < places.len() ==> #[trigger] places[k] < #[trigger] places[l],
        forall|j: int|
            0 <= j < fetched.len() && #[trigger] fetched[j] != POD_FINALIZER@
                ==> places.contains(j),
{
    filter_places(fetched, |finalizer: Seq<char>| finalizer != POD_FINALIZER@)
}

/// The same of the list that is left when the controller's finalizer is removed.
pub proof fn removal_keeps_every_other_finalizer(finalizers: Seq<Seq<char>>) -> (places: Seq<int>)
    ensures
        places.len() == crate::controller::without_ours(finalizers).len(),
        forall|k: int|
            0 <= k < places.len() ==> 0 <= #[trigger] places[k] < finalizers.len()
                && finalizers[places[k]] != POD_FINALIZER@ && crate::controller::without_ours(
                finalizers,
            )[k] == finalizers[places[k]],
        forall|k: int, l: int|
            0 <= k < l < places.len() ==> #[trigger] places[k] < #[trigger] places[l],
        forall|j: int|
            0 <= j < finalizers.len() && #[trigger] finalizers[j] != POD_FINALIZER@
                ==> places.contains(j),
{
    filter_places(finalizers, |finalizer: Seq<char>| finalizer != POD_FINALIZER@)
}

// ---------- Steps and replies in full ----------

/// What is known of a step is all of what it holds: what is stated of steps is stated of the
/// lists and texts that are carried out.
pub proof fn step_is_known_in_full(step: PodStep)
    ensures
        match step {
            PodStep::AddFinalizer { finalizers: list } => step@ matches PodStepView::AddFinalizer {
                finalizers,
            } && finalizers.len() == list@.len() && forall|i: int|
                0 <= i < list@.len() ==> #[trigger] finalizers[i] == list@[i]@,
            PodStep::AddFinalizerLate { finalizers: list } => step@ matches
                PodStepView::AddFinalizerLate { finalizers } && finalizers.len() == list@.len()
                && forall|i: int|
                0 <= i < list@.len() ==> #[trigger] finalizers[i] == list@[i]@,
            PodStep::ReleaseFinalizer { finalizers: list, requeue } => step@ matches
                PodStepView::ReleaseFinalizer { finalizers, requeue: same } && same == requeue
                && finalizers.len() == list@.len() && forall|i: int|
                0 <= i < list@.len() ==> #[trigger] finalizers[i] == list@[i]@,
            PodStep::PersistDraining { annotation } => step@ == (PodStepView::PersistDraining {
                annotation: annotation@,
            }),
            PodStep::PersistVerified { annotation } => step@ == (PodStepView::PersistVerified {
                annotation: annotation@,
            }),
            PodStep::OpenGate { patch } => step@ == (PodStepView::OpenGate { patch: patch@ }),
            PodStep::CloseGate { patch, requeue } => step@ == (PodStepView::CloseGate {
                patch: patch@,
                requeue,
            }),
            PodStep::PollDrainez { url } => step@ == (PodStepView::PollDrainez { url: url@ }),
            PodStep::FetchFinalizers { requeue } => step@ == (PodStepView::FetchFinalizers {
                requeue,
            }),
            PodStep::Finished { requeue } => step@ == (PodStepView::Finished { requeue }),
            PodStep::Failed => step@ is Failed,
        },
{
}

/// What is known of a reply is all of what it holds; finalizers that are absent are none.
pub proof fn reply_is_known_in_full(reply: PodReply)
    ensures
        match reply {
            PodReply::Succeeded => reply@ is Succeeded,
            PodReply::Failed => reply@ is Failed,
            PodReply::Answered { reply: answer } => reply@ == (PodReplyView::Answered {
                reply: answer,
            }),
            PodReply::Fetched { finalizers: Some(list) } => reply@ matches PodReplyView::Fetched {
                finalizers,
            } && finalizers.len() == list@.len() && forall|i: int|
                0 <= i < list@.len() ==> #[trigger] finalizers[i] == list@[i]@,
            PodReply::Fetched { finalizers: None } => reply@ matches PodReplyView::Fetched {
                finalizers,
            } && finalizers.len() == 0,
        },
{
}

/// What is known of a patch is all of what it holds.
pub proof fn patch_is_known_in_full(patch: ConditionsPatch)
    ensures
        patch@.kept.len() == patch.kept@.len(),
        forall|i: int| 0 <= i < patch.kept@.len() ==> #[trigger] patch@.kept[i] == patch.kept@[i]@,
        patch@.gate.status == patch.gate.status@,
        patch@.gate.last_transition_time == patch.gate.last_transition_time@,
        patch@.gate.reason == patch.gate.reason@,
        patch@.gate.message == patch.gate.message@,
{
}

} // verus!

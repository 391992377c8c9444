//! The part of a pod that the controller's decisions read.

use vstd::prelude::*;

use crate::decommission::DecommissionState;
use crate::timestamp::{Timestamp, TimestampView};

verus! {

/// Annotation that keeps the decommission state of a pod.
pub const STATE_ANNOTATION: &'static str = "decomposition.dat6.io/state";

/// A pod, as the API server reports it.
#[derive(Clone, Debug, PartialEq, Eq)]
pub struct Pod {
    pub metadata: PodMetadata,
    pub spec: Option<PodSpec>,
    pub status: Option<PodStatus>,
}

#[derive(Clone, Debug, PartialEq, Eq)]
pub struct PodMetadata {
    pub name: Option<String>,
    pub generate_name: Option<String>,
    pub namespace: Option<String>,
    /// When deletion was requested; absent while the pod is not terminating.
    pub deletion_timestamp: Option<Timestamp>,
    /// Keys and values; the last entry of a key is the one that holds.
    pub annotations: Option<Vec<(String, String)>>,
    pub finalizers: Option<Vec<String>>,
}

#[derive(Clone, Debug, PartialEq, Eq)]
pub struct PodSpec {
    /// Condition types of the readiness gates.
    pub readiness_gates: Option<Vec<String>>,
    pub termination_grace_period_seconds: Option<i64>,
}

#[derive(Clone, Debug, PartialEq, Eq)]
pub struct PodStatus {
    pub phase: Option<String>,
    pub pod_ip: Option<String>,
    pub conditions: Option<Vec<PodCondition>>,
}

#[derive(Clone, Debug, PartialEq, Eq)]
pub struct PodCondition {
    pub type_: String,
    pub status: String,
    pub last_probe_time: Option<Timestamp>,
    pub last_transition_time: Option<Timestamp>,
    pub reason: Option<String>,
    pub message: Option<String>,
}

/// What a pod holds. A list that is absent counts as empty, and so does every
/// list of a part of the pod that is absent.
#[verifier::ext_equal]
pub struct PodView {
    pub name: Option<Seq<char>>,
    pub generate_name: Option<Seq<char>>,
    pub namespace: Option<Seq<char>>,
    pub deletion_timestamp: Option<TimestampView>,
    pub annotations: Map<Seq<char>, Seq<char>>,
    pub finalizers: Seq<Seq<char>>,
    pub readiness_gates: Seq<Seq<char>>,
    pub termination_grace_period_seconds: Option<int>,
    pub phase: Option<Seq<char>>,
    pub pod_ip: Option<Seq<char>>,
    pub conditions: Seq<ConditionView>,
}

#[verifier::ext_equal]
pub struct ConditionView {
    pub type_: Seq<char>,
    pub status: Seq<char>,
    pub last_probe_time: Option<TimestampView>,
    pub last_transition_time: Option<TimestampView>,
    pub reason: Option<Seq<char>>,
    pub message: Option<Seq<char>>,
}

pub open spec fn optional_text(text: Option<String>) -> Option<Seq<char>> {
    match text {
        Some(text) => Some(text@),
        None => None,
    }
}

pub open spec fn optional_time(at: Option<Timestamp>) -> Option<TimestampView> {
    match at {
        Some(at) => Some(at@),
        None => None,
    }
}

pub open spec fn texts(list: Seq<String>) -> Seq<Seq<char>> {
    Seq::new(list.len(), |i: int| list[i]@)
}

pub open spec fn optional_texts(list: Option<Vec<String>>) -> Seq<Seq<char>> {
    match list {
        Some(list) => texts(list@),
        None => Seq::empty(),
    }
}

/// The map that a list of entries stands for: of two entries with one key the
/// later one holds.
pub open spec fn entries_map(entries: Seq<(String, String)>) -> Map<Seq<char>, Seq<char>>
    decreases entries.len(),
{
    if entries.len() == 0 {
        Map::empty()
    } else {
        entries_map(entries.drop_last()).insert(entries.last().0@, entries.last().1@)
    }
}

pub open spec fn conditions_view(conditions: Seq<PodCondition>) -> Seq<ConditionView> {
    Seq::new(conditions.len(), |i: int| conditions[i]@)
}

impl View for PodCondition {
    type V = ConditionView;

    open spec fn view(&self) -> ConditionView {
        ConditionView {
            type_: self.type_@,
            status: self.status@,
            last_probe_time: optional_time(self.last_probe_time),
            last_transition_time: optional_time(self.last_transition_time),
            reason: optional_text(self.reason),
            message: optional_text(self.message),
        }
    }
}

impl View for Pod {
    type V = PodView;

    open spec fn view(&self) -> PodView {
        PodView {
            name: optional_text(self.metadata.name),
            generate_name: optional_text(self.metadata.generate_name),
            namespace: optional_text(self.metadata.namespace),
            deletion_timestamp: optional_time(self.metadata.deletion_timestamp),
            annotations: match self.metadata.annotations {
                Some(entries) => entries_map(entries@),
                None => Map::empty(),
            },
            finalizers: optional_texts(self.metadata.finalizers),
            readiness_gates: match self.spec {
                Some(spec) => optional_texts(spec.readiness_gates),
                None => Seq::empty(),
            },
            termination_grace_period_seconds: match self.spec {
                Some(spec) => match spec.termination_grace_period_seconds {
                    Some(secs) => Some(secs as int),
                    None => None,
                },
                None => None,
            },
            phase: match self.status {
                Some(status) => optional_text(status.phase),
                None => None,
            },
            pod_ip: match self.status {
                Some(status) => optional_text(status.pod_ip),
                None => None,
            },
            conditions: match self.status {
                Some(status) => match status.conditions {
                    Some(conditions) => conditions_view(conditions@),
                    None => Seq::empty(),
                },
                None => Seq::empty(),
            },
        }
    }
}

impl PodView {
    /// The name of the pod, else the prefix it is to be named from, else nothing.
    pub open spec fn name_any(self) -> Seq<char> {
        match (self.name, self.generate_name) {
            (Some(name), _) => name,
            (None, Some(prefix)) => prefix,
            (None, None) => Seq::empty(),
        }
    }

    pub open spec fn namespace_or_default(self) -> Seq<char> {
        match self.namespace {
            Some(namespace) => namespace,
            None => Seq::empty(),
        }
    }

    pub open spec fn phase_or_unknown(self) -> Seq<char> {
        match self.phase {
            Some(phase) => phase,
            None => "Unknown"@,
        }
    }

    pub open spec fn is_terminating(self) -> bool {
        self.deletion_timestamp is Some
    }

    /// Whether some condition of this type has the status "True".
    pub open spec fn condition_is_true(self, condition_type: Seq<char>) -> bool {
        exists|i: int|
            0 <= i < self.conditions.len() && (#[trigger] self.conditions[i]).type_
                == condition_type && self.conditions[i].status == "True"@
    }

    /// The decommission state that the pod's annotation keeps.
    pub open spec fn annotated_state(self) -> DecommissionState {
        if self.annotations.contains_key(STATE_ANNOTATION@) {
            crate::decommission::annotated_state(self.annotations[STATE_ANNOTATION@])
        } else {
            DecommissionState::Unknown
        }
    }

    /// The time that the kubelet gives the pod to shut down.
    pub open spec fn grace_seconds(self) -> int {
        match self.termination_grace_period_seconds {
            Some(secs) => secs,
            None => 30,
        }
    }
}

/// Whether two texts are the same.
pub(crate) fn same_text(one: &String, other: &str) -> (same: bool)
    ensures
        same == (one@ == other@),
{
    *one == other.to_string()
}

/// A copy of a text that may be absent.
pub(crate) fn clone_text(text: &Option<String>) -> (copy: Option<String>)
    ensures
        optional_text(copy) == optional_text(*text),
{
    match text {
        Some(text) => Some(text.clone()),
        None => None,
    }
}

/// Whether a list has a text.
pub(crate) fn contains_text(list: &Vec<String>, text: &str) -> (found: bool)
    ensures
        found == texts(list@).contains(text@),
{
    let mut i: usize = 0;
    while i < list.len()
        invariant
            i <= list.len(),
            forall|j: int| 0 <= j < i ==> texts(list@)[j] != text@,
        decreases list.len() - i,
    {
        if same_text(&list[i], text) {
            assert(texts(list@)[i as int] == text@);
            return true;
        }
        i += 1;
    }
    false
}

/// The value that a list of entries has for a key.
fn lookup<'a>(entries: &'a Vec<(String, String)>, key: &str) -> (value: Option<&'a String>)
    ensures
        value is Some <==> entries_map(entries@).contains_key(key@),
        value matches Some(value) ==> value@ == entries_map(entries@)[key@],
{
    let mut left: usize = entries.len();
    assert(entries@.take(left as int) =~= entries@);
    while left > 0
        invariant
            left <= entries.len(),
            entries_map(entries@).contains_key(key@) == entries_map(
                entries@.take(left as int),
            ).contains_key(key@),
            entries_map(entries@).contains_key(key@) ==> entries_map(entries@)[key@]
                == entries_map(entries@.take(left as int))[key@],
        decreases left,
    {
        let entry = &entries[left - 1];
        assert(entries@.take(left as int).drop_last() =~= entries@.take(left - 1));
        assert(entries@.take(left as int).last() == entries@[left - 1]);
        if same_text(&entry.0, key) {
            return Some(&entry.1);
        }
        left -= 1;
    }
    None
}

/// Whether some condition of this type has the status "True".
fn condition_is_true(pod: &Pod, condition_type: &str) -> (found: bool)
    ensures
        found == pod@.condition_is_true(condition_type@),
{
    if let Some(status) = &pod.status {
        if let Some(conditions) = &status.conditions {
            let mut i: usize = 0;
            while i < conditions.len()
                invariant
                    i <= conditions.len(),
                    pod@.conditions == conditions_view(conditions@),
                    forall|j: int|
                        0 <= j < i ==> !((#[trigger] pod@.conditions[j]).type_ == condition_type@
                            && pod@.conditions[j].status == "True"@),
                decreases conditions.len() - i,
            {
                let condition = &conditions[i];
                assert(pod@.conditions[i as int] == condition@);
                if same_text(&condition.type_, condition_type) && same_text(
                    &condition.status,
                    "True",
                ) {
                    return true;
                }
                i += 1;
            }
        }
    }
    false
}

impl Pod {
    /// The name of the pod, else the prefix it is to be named from, else nothing.
    pub fn name_any(&self) -> (name: String)
        ensures
            name@ == self@.name_any(),
    {
        match &self.metadata.name {
            Some(name) => name.clone(),
            None => match &self.metadata.generate_name {
                Some(prefix) => prefix.clone(),
                None => String::new(),
            },
        }
    }

    /// The namespace of the pod, empty if it has none.
    pub fn namespace_or_default(&self) -> (namespace: String)
        ensures
            namespace@ == self@.namespace_or_default(),
    {
        match &self.metadata.namespace {
            Some(namespace) => namespace.clone(),
            None => String::new(),
        }
    }

    /// The phase of the pod, "Unknown" if it reports none.
    pub fn phase_or_unknown(&self) -> (phase: String)
        ensures
            phase@ == self@.phase_or_unknown(),
    {
        if let Some(status) = &self.status {
            if let Some(phase) = &status.phase {
                return phase.clone();
            }
        }
        "Unknown".to_string()
    }

    /// Whether deletion of the pod was requested.
    pub fn is_terminating(&self) -> (terminating: bool)
        ensures
            terminating == self@.is_terminating(),
    {
        self.metadata.deletion_timestamp.is_some()
    }

    /// Whether the pod reports itself ready.
    pub fn is_ready(&self) -> (ready: bool)
        ensures
            ready == self@.condition_is_true("Ready"@),
    {
        condition_is_true(self, "Ready")
    }

    /// The time that the kubelet gives the pod to shut down, 30 seconds if the
    /// pod does not say.
    pub fn grace_seconds(&self) -> (secs: i64)
        ensures
            secs == self@.grace_seconds(),
    {
        match &self.spec {
            Some(spec) => match spec.termination_grace_period_seconds {
                Some(secs) => secs,
                None => 30,
            },
            None => 30,
        }
    }

    /// How long the pod has been terminating, in whole seconds.
    pub fn terminating_for(&self, now: &Timestamp) -> (secs: i64)
        ensures
            secs == self@.terminating_for(now@),
            secs >= 0,
    {
        match &self.metadata.deletion_timestamp {
            Some(since) => now.seconds_since(since),
            None => 0,
        }
    }
}

impl PodView {
    /// How long the pod has been terminating, in whole seconds.
    pub open spec fn terminating_for(self, now: TimestampView) -> int {
        match self.deletion_timestamp {
            Some(since) => crate::timestamp::elapsed_seconds(now, since),
            None => 0,
        }
    }
}

/// The decommission state that the pod's annotation keeps; `Unknown` if the
/// pod has no such annotation or its text is not that of a tracked state.
pub fn read_fsm_state_from_pod(pod: &Pod) -> (state: DecommissionState)
    ensures
        state == pod@.annotated_state(),
{
    let text: &String = match &pod.metadata.annotations {
        Some(entries) => match lookup(entries, STATE_ANNOTATION) {
            Some(text) => text,
            None => {
                return DecommissionState::Unknown;
            },
        },
        None => {
            return DecommissionState::Unknown;
        },
    };
    if same_text(text, "draining") {
        DecommissionState::Draining
    } else if same_text(text, "readiness_lost") {
        DecommissionState::ReadinessLost
    } else if same_text(text, "pre_stop_running") {
        DecommissionState::PreStopRunning
    } else if same_text(text, "state_handover") {
        DecommissionState::StateHandover
    } else if same_text(text, "deletion_allowed") {
        DecommissionState::DeletionAllowed
    } else {
        DecommissionState::Unknown
    }
}

/// Whether the pod has this finalizer.
pub fn has_pod_finalizer(pod: &Pod, key: &str) -> (found: bool)
    ensures
        found == pod@.finalizers.contains(key@),
{
    match &pod.metadata.finalizers {
        Some(list) => contains_text(list, key),
        None => false,
    }
}

/// Whether the pod spec has a readiness gate of this condition type.
pub fn has_readiness_gate(pod: &Pod, condition_type: &str) -> (found: bool)
    ensures
        found == pod@.readiness_gates.contains(condition_type@),
{
    match &pod.spec {
        Some(spec) => match &spec.readiness_gates {
            Some(gates) => contains_text(gates, condition_type),
            None => false,
        },
        None => false,
    }
}

/// Whether the condition behind a readiness gate is true.
pub fn readiness_gate_is_true(pod: &Pod, condition_type: &str) -> (is_true: bool)
    ensures
        is_true == pod@.condition_is_true(condition_type@),
{
    condition_is_true(pod, condition_type)
}

/// What is known of a pod is all of what it holds: every field of its metadata, spec and
/// status, entry by entry and in order, an absent list as an empty one.
pub proof fn pod_is_known_in_full(pod: Pod)
    ensures
        match pod.metadata.name {
            Some(name) => pod@.name == Some(name@),
            None => pod@.name is None,
        },
        match pod.metadata.generate_name {
            Some(prefix) => pod@.generate_name == Some(prefix@),
            None => pod@.generate_name is None,
        },
        match pod.metadata.namespace {
            Some(namespace) => pod@.namespace == Some(namespace@),
            None => pod@.namespace is None,
        },
        match pod.metadata.deletion_timestamp {
            Some(at) => pod@.deletion_timestamp == Some(at@),
            None => pod@.deletion_timestamp is None,
        },
        match pod.metadata.finalizers {
            Some(list) => pod@.finalizers.len() == list@.len() && forall|i: int|
                0 <= i < list@.len() ==> #[trigger] pod@.finalizers[i] == list@[i]@,
            None => pod@.finalizers.len() == 0,
        },
        match pod.spec {
            Some(spec) => {
                &&& match spec.readiness_gates {
                    Some(list) => pod@.readiness_gates.len() == list@.len() && forall|i: int|
                        0 <= i < list@.len() ==> #[trigger] pod@.readiness_gates[i] == list@[i]@,
                    None => pod@.readiness_gates.len() == 0,
                }
                &&& match spec.termination_grace_period_seconds {
                    Some(secs) => pod@.termination_grace_period_seconds == Some(secs as int),
                    None => pod@.termination_grace_period_seconds is None,
                }
            },
            None => pod@.readiness_gates.len() == 0
                && pod@.termination_grace_period_seconds is None,
        },
        match pod.status {
            Some(status) => {
                &&& match status.phase {
                    Some(phase) => pod@.phase == Some(phase@),
                    None => pod@.phase is None,
                }
                &&& match status.pod_ip {
                    Some(ip) => pod@.pod_ip == Some(ip@),
                    None => pod@.pod_ip is None,
                }
                &&& match status.conditions {
                    Some(list) => pod@.conditions.len() == list@.len() && forall|i: int|
                        0 <= i < list@.len() ==> #[trigger] pod@.conditions[i] == list@[i]@,
                    None => pod@.conditions.len() == 0,
                }
            },
            None => pod@.phase is None && pod@.pod_ip is None && pod@.conditions.len() == 0,
        },
{
}

/// What is known of a condition is all of what it holds.
pub proof fn condition_is_known_in_full(condition: PodCondition)
    ensures
        condition@.type_ == condition.type_@,
        condition@.status == condition.status@,
        match condition.last_probe_time {
            Some(at) => condition@.last_probe_time == Some(at@),
            None => condition@.last_probe_time is None,
        },
        match condition.last_transition_time {
            Some(at) => condition@.last_transition_time == Some(at@),
            None => condition@.last_transition_time is None,
        },
        match condition.reason {
            Some(reason) => condition@.reason == Some(reason@),
            None => condition@.reason is None,
        },
        match condition.message {
            Some(message) => condition@.message == Some(message@),
            None => condition@.message is None,
        },
{
}

/// Of several entries with one key, the last one holds.
pub proof fn last_entry_of_a_key_holds(entries: Seq<(String, String)>, i: int)
    requires
        0 <= i < entries.len(),
        forall|j: int| i < j < entries.len() ==> (#[trigger] entries[j]).0@ != entries[i].0@,
    ensures
        entries_map(entries).contains_key(entries[i].0@),
        entries_map(entries)[entries[i].0@] == entries[i].1@,
    decreases entries.len(),
{
    if i < entries.len() - 1 {
        let before = entries.drop_last();
        assert(entries[entries.len() - 1].0@ != entries[i].0@);
        assert forall|j: int| i < j < before.len() implies (#[trigger] before[j]).0@
            != before[i].0@ by {
            assert(before[j] == entries[j]);
        }
        last_entry_of_a_key_holds(before, i);
    }
}

/// A key that no entry has is absent.
pub proof fn key_without_an_entry_is_absent(entries: Seq<(String, String)>, key: Seq<char>)
    requires
        forall|i: int| 0 <= i < entries.len() ==> (#[trigger] entries[i]).0@ != key,
    ensures
        !entries_map(entries).contains_key(key),
    decreases entries.len(),
{
    if entries.len() > 0 {
        let before = entries.drop_last();
        assert forall|i: int| 0 <= i < before.len() implies (#[trigger] before[i]).0@ != key by {
            assert(before[i] == entries[i]);
        }
        key_without_an_entry_is_absent(before, key);
        assert(entries[entries.len() - 1].0@ != key);
    }
}

/// The annotations of a pod are those of its list of entries.
pub proof fn annotations_are_the_entries(pod: Pod)
    ensures
        match pod.metadata.annotations {
            Some(entries) => pod@.annotations == entries_map(entries@),
            None => forall|key: Seq<char>| !(#[trigger] pod@.annotations.contains_key(key)),
        },
{
}

/// What a pod goes by where it does not say: its name stands before the prefix it is to
/// be named from, its namespace is empty, its phase "Unknown" and its grace period 30
/// seconds, but a value that it gives is taken as it is.
pub proof fn given_values_hold(pod: PodView)
    ensures
        pod.name matches Some(name) ==> pod.name_any() == name,
        pod.name is None ==> (pod.generate_name matches Some(prefix) ==> pod.name_any() == prefix),
        pod.name is None && pod.generate_name is None ==> pod.name_any().len() == 0,
        pod.namespace matches Some(namespace) ==> pod.namespace_or_default() == namespace,
        pod.namespace is None ==> pod.namespace_or_default().len() == 0,
        pod.phase matches Some(phase) ==> pod.phase_or_unknown() == phase,
        pod.phase is None ==> pod.phase_or_unknown() == "Unknown"@,
        pod.termination_grace_period_seconds matches Some(secs) ==> pod.grace_seconds() == secs,
        pod.termination_grace_period_seconds is None ==> pod.grace_seconds() == 30,
        pod.is_terminating() <==> pod.deletion_timestamp is Some,
{
}

/// A pod has been terminating for a number of seconds exactly if as many whole ones have
/// passed since its deletion was requested; never less than none, and none if it was not
/// requested.
pub proof fn termination_is_timed_from_the_deletion(pod: PodView, now: TimestampView, secs: int)
    ensures
        pod.terminating_for(now) >= 0,
        secs > 0 ==> (pod.terminating_for(now) >= secs <==> (pod.deletion_timestamp matches Some(
            since,
        ) && crate::timestamp::whole_seconds_between(now, since) >= secs)),
{
}

/// A condition type is true exactly if some condition of the pod has the type and the
/// status "True", wherever it stands in the list and whatever the others say.
pub proof fn one_true_condition_is_enough(pod: PodView, condition_type: Seq<char>)
    ensures
        forall|i: int|
            0 <= i < pod.conditions.len() && (#[trigger] pod.conditions[i]).type_ == condition_type
                && pod.conditions[i].status == "True"@ ==> pod.condition_is_true(condition_type),
        (forall|i: int|
            0 <= i < pod.conditions.len() && (#[trigger] pod.conditions[i]).type_ == condition_type
                ==> pod.conditions[i].status != "True"@) ==> !pod.condition_is_true(condition_type),
{
}

/// The record of a pod: each tracked state is read from its own text under the state
/// annotation, and from nothing else.
pub proof fn record_is_read_from_the_annotation(pod: PodView)
    ensures
        STATE_ANNOTATION@ == "decomposition.dat6.io/state"@,
        pod.annotated_state() is Draining <==> pod.annotations.contains_key(STATE_ANNOTATION@)
            && pod.annotations[STATE_ANNOTATION@] == "draining"@,
        pod.annotated_state() is ReadinessLost <==> pod.annotations.contains_key(STATE_ANNOTATION@)
            && pod.annotations[STATE_ANNOTATION@] == "readiness_lost"@,
        pod.annotated_state() is PreStopRunning <==> pod.annotations.contains_key(STATE_ANNOTATION@)
            && pod.annotations[STATE_ANNOTATION@] == "pre_stop_running"@,
        pod.annotated_state() is StateHandover <==> pod.annotations.contains_key(STATE_ANNOTATION@)
            && pod.annotations[STATE_ANNOTATION@] == "state_handover"@,
        pod.annotated_state() is DeletionAllowed <==> pod.annotations.contains_key(
            STATE_ANNOTATION@,
        ) && pod.annotations[STATE_ANNOTATION@] == "deletion_allowed"@,
{
    crate::decommission::tracked_states_have_one_text(
        DecommissionState::Unknown,
        pod.annotations[STATE_ANNOTATION@],
    );
}

} // verus!

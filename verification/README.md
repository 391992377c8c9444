# dat6_kubernetes_controller

A Kubernetes controller that takes pods out of service without losing requests.
Its decisions are a library that is verified with Verus; the program around it
talks to the cluster.

| Path | Role |
|------|------|
| `src/decommission.rs` | The states of a pod that shuts down, and their transitions. |
| `src/policy.rs` | What is enforced: `DecommissionPolicy`, `PolicyEngine::evaluate`. |
| `src/pod.rs` | The part of a pod that the decisions read. |
| `src/controller.rs` | The reconcile loop of a pod, as steps and replies. |
| `src/guarantees.rs` | What holds of every round of that loop. |
| `src/timestamp.rs` | Points in time; the calls into `chrono`. |
| `src/settings.rs` | How environment variables are read. |
| `src/drainable.rs` | The decisions of the drainable HTTP service. |
| `app/` | The program: watchers, HTTP servers, metrics. |

A pod is reconciled in rounds. `reconcile_pod` gives the first step of a round,
the program carries it out, and `resume_pod` gives the step that follows from how
it went, until the round is finished or has failed.

Strategies are switched on by environment variables:

- `DAT6_EARLY_READINESS_REMOVAL=1`: a terminating pod leaves the Service endpoints
  at once, through the readiness gate `decomposition.dat6.io/drain`.
- `DAT6_DRAIN_VERIFICATION=1`: the finalizer `decomposition.dat6.io/finalizer` holds
  a pod until its `/drainez` endpoint reports that no request is in flight, or until
  it is unreachable past its grace period.

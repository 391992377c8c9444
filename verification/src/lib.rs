//! Safe container decomposition controller: the decisions of a Kubernetes
//! controller that takes pods out of service without losing requests.
//!
//! - [`decommission`]: the states a pod goes through while it shuts down.
//! - [`policy`]: what the controller enforces, and what it does next for a pod.
//! - [`pod`]: the part of a pod that the decisions read.
//! - [`controller`]: the reconcile loop of a pod, as steps and replies.
//! - [`guarantees`]: what holds of every round of the loop.
//! - [`timestamp`]: points in time, and how much time lies between them.
//! - [`settings`]: how environment variables are read.
//! - [`drainable`]: the HTTP service that tells the controller when it is drained.

pub mod controller;
pub mod decommission;
pub mod drainable;
pub mod guarantees;
pub mod pod;
pub mod policy;
pub mod settings;
pub mod timestamp;

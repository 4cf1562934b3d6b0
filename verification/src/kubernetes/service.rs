//! The status of a service in the cluster, and how a service is reconciled with its
//! deployment.

use vstd::prelude::*;
use vstd::string::*;

verus! {

use super::K8sError;

/// The phase of a service's life.
#[derive(Debug, Clone, Copy, PartialEq, Eq, Structural)]
pub enum ServicePhase {
    Pending,
    Starting,
    Running,
    Failed,
    Terminated,
}

/// The status of a service: its phase, a message, and when it was last updated, as a
/// timestamp in the form of RFC 3339.
#[derive(Debug, Clone, PartialEq, Eq)]
pub struct ServiceStatus {
    pub phase: ServicePhase,
    pub message: Option<String>,
    pub last_updated: Option<String>,
}

/// What was found when a service's deployment was looked up.
#[derive(Debug, Clone, PartialEq, Eq)]
pub enum DeploymentLookup {
    /// The deployment is there, with this many replicas available, if it says so.
    Found { available_replicas: Option<i32> },
    /// There is no such deployment.
    Missing,
    /// The lookup failed with this error.
    Failed(K8sError),
}

/// What to do for a service after its deployment has been looked up.
#[derive(Debug, Clone, PartialEq, Eq)]
pub struct Reconciliation {
    /// Whether to create the deployment.
    pub create_deployment: bool,
    /// The phase to report.
    pub phase: ServicePhase,
    /// The message to report with the phase.
    pub message: Option<String>,
    /// The error that the reconciliation ends with once the status is reported.
    pub error: Option<K8sError>,
}

/// The replicas that a deployment has available: none where it does not say.
pub open spec fn available(replicas: Option<i32>) -> int {
    match replicas {
        Some(count) => count as int,
        None => 0,
    }
}

/// `plan` is what to do after the lookup: a deployment that is there is running if it
/// has a replica available and starting otherwise; a missing one is created and
/// starting; a failed lookup is reported as failed with the error's message, and the
/// error ends the reconciliation.
pub open spec fn reconciles(plan: Reconciliation, found: DeploymentLookup) -> bool {
    match found {
        DeploymentLookup::Found { available_replicas } => {
            &&& !plan.create_deployment
            &&& plan.phase == if available(available_replicas) > 0 {
                ServicePhase::Running
            } else {
                ServicePhase::Starting
            }
            &&& plan.message is None
            &&& plan.error is None
        },
        DeploymentLookup::Missing => {
            &&& plan.create_deployment
            &&& plan.phase == ServicePhase::Starting
            &&& plan.message is None
            &&& plan.error is None
        },
        DeploymentLookup::Failed(error) => {
            &&& !plan.create_deployment
            &&& plan.phase == ServicePhase::Failed
            &&& plan.message is Some
            &&& plan.message->0@ == super::k8s_error_message(error)
            &&& plan.error == Some(error)
        },
    }
}

/// What to do for a service after its deployment has been looked up.
pub fn reconcile(found: DeploymentLookup) -> (r: Reconciliation)
    ensures
        reconciles(r, found),
{
    match found {
        DeploymentLookup::Found { available_replicas } => {
            let count = match available_replicas {
                Some(count) => count,
                None => 0,
            };
            Reconciliation {
                create_deployment: false,
                phase: if count > 0 {
                    ServicePhase::Running
                } else {
                    ServicePhase::Starting
                },
                message: None,
                error: None,
            }
        },
        DeploymentLookup::Missing => Reconciliation {
            create_deployment: true,
            phase: ServicePhase::Starting,
            message: None,
            error: None,
        },
        DeploymentLookup::Failed(error) => Reconciliation {
            create_deployment: false,
            phase: ServicePhase::Failed,
            message: Some(error.message()),
            error: Some(error),
        },
    }
}

/// The status that reports a phase at a time.
pub fn status_update(phase: ServicePhase, message: Option<String>, now: String) -> (r:
    ServiceStatus)
    ensures
        r == (ServiceStatus { phase, message, last_updated: Some(now) }),
{
    ServiceStatus { phase, message, last_updated: Some(now) }
}

} // verus!

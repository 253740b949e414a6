//! The workflow that changes the state a model deployment is asked to reach
//! and announces the change for reconciliation.

use vstd::prelude::*;
use crate::application::ports::events::payloads::ModelDeploymentStateDriftDetectedPayload;
use crate::application::services::model_deployment_service::{
    reconciliation_check_passes, FindForReconciliationInput, ModelDeploymentServiceError,
};
use crate::domain::{DesiredState, ModelDeployment};
use crate::text::{uuid_string, uuid_text};

verus! {

pub struct UpdateDesiredStateWorkflowInput {
    pub deployment_id: u128,
    pub desired_state: DesiredState,
    pub last_message: Option<String>,
}

/// What the workflow does with the deployment it found.
#[derive(Debug)]
pub enum DesiredStateChange {
    /// The deployment already has the desired state: it is returned as it is,
    /// neither stored nor announced.
    Unchanged(ModelDeployment),
    /// The deployment's next revision, to store, and the event that announces it.
    Revised { deployment: ModelDeployment, event: ModelDeploymentStateDriftDetectedPayload },
}

pub open spec fn drift_message() -> Seq<char> {
    "Requested desired state change of Model Deployment. Initiating reconciliation via with StateDriftDetected event"@
}

pub struct UpdateDesiredStateWorkflow<R, P> {
    model_deployment_repo: R,
    event_publisher: P,
}

impl<R, P> UpdateDesiredStateWorkflow<R, P> {
    pub closed spec fn repository_spec(&self) -> R {
        self.model_deployment_repo
    }

    pub closed spec fn publisher_spec(&self) -> P {
        self.event_publisher
    }

    pub fn new(model_deployment_repo: R, event_publisher: P) -> (w: Self)
        ensures
            w.repository_spec() == model_deployment_repo,
            w.publisher_spec() == event_publisher,
    {
        UpdateDesiredStateWorkflow { model_deployment_repo, event_publisher }
    }

    pub fn model_deployment_repo(&self) -> (r: &R)
        ensures
            *r == self.repository_spec(),
    {
        &self.model_deployment_repo
    }

    pub fn event_publisher(&self) -> (p: &P)
        ensures
            *p == self.publisher_spec(),
    {
        &self.event_publisher
    }

    /// Decides what becomes of the deployment that the repository found for
    /// the id of `input`: a missing one is an error; one that already has the
    /// desired state is left alone; otherwise its next revision asks for the
    /// desired state, with the given message, and a state drift event
    /// carrying that revision announces it.
    pub fn decide(input: UpdateDesiredStateWorkflowInput, found: Option<ModelDeployment>) -> (r:
        Result<DesiredStateChange, ModelDeploymentServiceError>)
        ensures
            match found {
                None => r matches Err(ModelDeploymentServiceError::DeploymentNotFound(id)) && id@
                    == uuid_text(input.deployment_id),
                Some(d) => if d.desired_state == input.desired_state {
                    r matches Ok(DesiredStateChange::Unchanged(u)) && u == d
                } else if d.revision == u32::MAX {
                    r matches Err(ModelDeploymentServiceError::ModelDeploymentError(_))
                } else {
                    r matches Ok(DesiredStateChange::Revised { deployment: m, event: e }) && {
                        &&& m == (ModelDeployment {
                            revision: (d.revision + 1) as u32,
                            desired_state: input.desired_state,
                            last_message: input.last_message,
                            ..d
                        })
                        &&& e.deployment_id == m.id
                        &&& e.deployment_revision == m.revision
                        &&& e.desired_state == m.desired_state
                        &&& e.actual_state == m.state
                        &&& (e.message matches Some(msg) && msg@ == drift_message())
                    }
                },
            },
    {
        let deployment = match found {
            Some(d) => d,
            None => {
                return Err(
                    ModelDeploymentServiceError::DeploymentNotFound(
                        uuid_string(input.deployment_id),
                    ),
                );
            },
        };
        if deployment.desired_state == input.desired_state {
            return Ok(DesiredStateChange::Unchanged(deployment));
        }
        let modified = match deployment.transition_to_desired(
            input.desired_state,
            input.last_message,
        ) {
            Ok(m) => m,
            Err(e) => {
                return Err(ModelDeploymentServiceError::ModelDeploymentError(e));
            },
        };
        let event = ModelDeploymentStateDriftDetectedPayload {
            deployment_id: modified.id,
            message: Some(
                "Requested desired state change of Model Deployment. Initiating reconciliation via with StateDriftDetected event".to_owned(),
            ),
            deployment_revision: modified.revision,
            desired_state: modified.desired_state,
            actual_state: modified.state,
        };
        Ok(DesiredStateChange::Revised { deployment: modified, event })
    }
}

/// The state drift event that announces a revised deployment is current for
/// it: looking the deployment up for reconciliation with what the event
/// records passes every check.
pub proof fn lemma_announced_revision_is_current(
    deployment: ModelDeployment,
    event: ModelDeploymentStateDriftDetectedPayload,
)
    requires
        event.deployment_id == deployment.id,
        event.deployment_revision == deployment.revision,
        event.desired_state == deployment.desired_state,
        event.actual_state == deployment.state,
    ensures
        reconciliation_check_passes(
            FindForReconciliationInput {
                deployment_id: event.deployment_id,
                revision: event.deployment_revision,
                state: event.actual_state,
                desired_state: event.desired_state,
            },
            deployment,
        ),
{
}

/// An event recorded before the deployment's latest revision is stale: the
/// lookup for reconciliation with what it records fails, whatever states it
/// recorded.
pub proof fn lemma_superseded_event_is_stale(
    deployment: ModelDeployment,
    event: ModelDeploymentStateDriftDetectedPayload,
)
    requires
        event.deployment_revision < deployment.revision,
    ensures
        !reconciliation_check_passes(
            FindForReconciliationInput {
                deployment_id: event.deployment_id,
                revision: event.deployment_revision,
                state: event.actual_state,
                desired_state: event.desired_state,
            },
            deployment,
        ),
{
}

} // verus!

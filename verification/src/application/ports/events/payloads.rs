use vstd::prelude::*;
use crate::domain::{DesiredState, State};

verus! {

#[derive(Clone, Debug)]
pub struct ModelDeploymentStartedPayload {
    pub deployment_id: u128,
    pub deployment_revision: u32,
    pub message: Option<String>,
}

#[derive(Clone, Debug)]
pub struct ModelDeploymentStoppedPayload {
    pub deployment_id: u128,
    pub deployment_revision: u32,
    pub message: Option<String>,
}

#[derive(Clone, Debug)]
pub struct ModelDeploymentStateDriftDetectedPayload {
    pub deployment_revision: u32,
    pub deployment_id: u128,
    pub desired_state: DesiredState,
    pub actual_state: State,
    pub message: Option<String>,
}

#[derive(Clone, Debug)]
pub struct ModelDeploymentDeletedPayload {
    pub deployment_id: u128,
    pub deployment_revision: u32,
    pub message: Option<String>,
}

/// The payload of an event about a model deployment.
#[derive(Clone, Debug)]
pub enum Payload {
    ModelDeploymentStartedPayload(ModelDeploymentStartedPayload),
    ModelDeploymentStoppedPayload(ModelDeploymentStoppedPayload),
    ModelDeploymentStateDriftDetectedPayload(ModelDeploymentStateDriftDetectedPayload),
    ModelDeploymentDeletedPayload(ModelDeploymentDeletedPayload),
}

} // verus!

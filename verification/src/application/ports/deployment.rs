use vstd::prelude::*;
use crate::application::ports::errors::InfrastructureError;
use crate::application::workflows::reconciliation::ReconcilerError;

verus! {

#[derive(Clone, Debug)]
pub enum ModelDeploymentRepositoryError {
    Persistence(InfrastructureError),
}

#[derive(Clone, Debug)]
pub enum ModelDeploymentPlatformReconcilerProviderError {
    PlatformClientNotFound(String),
    ClientInitializationError(ReconcilerError),
}

} // verus!

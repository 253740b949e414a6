use vstd::prelude::*;
use crate::application::ports::errors::InfrastructureError;
use crate::domain::{ExternalModel, Model};

verus! {

#[derive(Clone, Debug)]
pub enum ModelRepositoryError {
    /// Model already in your collection
    ModelAlreadyInCollection,
    /// Artifact is already associated with a Model
    ArtifactAlreadyAssociated,
    Persistence(InfrastructureError),
}

#[derive(Clone, Debug)]
pub enum ExternalModelRepositoryError {
    Persistence(InfrastructureError),
}

/// A page of models, with the total count when it was asked for and the
/// cursor of the next page.
pub struct ModelPage {
    pub models: Vec<Model>,
    pub count: Option<u64>,
    pub cursor: Option<String>,
}

pub struct ExternalModelPage {
    pub external_models: Vec<ExternalModel>,
    pub count: Option<u64>,
    pub cursor: Option<String>,
}

} // verus!

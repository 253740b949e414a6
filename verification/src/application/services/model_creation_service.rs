//! Adds a model to an owner's collection, backed by an external model that
//! the hub already knows; an owner holds at most one model per external model.

use vstd::prelude::*;
use crate::application::ports::model::{ExternalModelRepositoryError, ModelRepositoryError};
use crate::application::services::model_query_service::ModelWithExternalModel;
use crate::domain::{ExternalModel, Model};
use crate::shared_kernel::{RequestContext, Visibility};
use crate::text::new_v7_id;

verus! {

#[derive(Debug)]
pub enum ModelCreationServiceError {
    /// Model already in your collection
    ModelAlreadyInCollection,
    /// ExternalModel not found
    ExternalModelNotFound,
    ModelRepository(ModelRepositoryError),
    ExternalModelRepository(ExternalModelRepositoryError),
    /// The model breaks a rule of the domain; the message says which.
    Domain(String),
}

/// What an owner asks for when adding a model to their collection.
pub struct CreateModelInput {
    pub name: String,
    pub description: Option<String>,
    pub external_model_id: u128,
    pub visibility: Visibility,
}

pub struct ModelCreationService<M, X> {
    model_repository: M,
    external_model_repository: X,
}

impl<M, X> ModelCreationService<M, X> {
    pub closed spec fn model_repository_spec(&self) -> M {
        self.model_repository
    }

    pub closed spec fn external_model_repository_spec(&self) -> X {
        self.external_model_repository
    }

    pub fn new(model_repository: M, external_model_repository: X) -> (s: Self)
        ensures
            s.model_repository_spec() == model_repository,
            s.external_model_repository_spec() == external_model_repository,
    {
        ModelCreationService { model_repository, external_model_repository }
    }

    pub fn model_repository(&self) -> (r: &M)
        ensures
            *r == self.model_repository_spec(),
    {
        &self.model_repository
    }

    pub fn external_model_repository(&self) -> (r: &X)
        ensures
            *r == self.external_model_repository_spec(),
    {
        &self.external_model_repository
    }

    /// The external model that backs the new model, as the repository found
    /// it by the id that was asked for.
    pub fn require_external_model(found: Option<ExternalModel>) -> (r: Result<
        ExternalModel,
        ModelCreationServiceError,
    >)
        ensures
            match found {
                Some(x) => r == Ok::<ExternalModel, ModelCreationServiceError>(x),
                None => r matches Err(ModelCreationServiceError::ExternalModelNotFound),
            },
    {
        match found {
            Some(x) => Ok(x),
            None => Err(ModelCreationServiceError::ExternalModelNotFound),
        }
    }

    /// Refuses the request when the owner's collection already holds a model
    /// backed by the same external model.
    pub fn ensure_not_in_collection(existing: &Option<Model>) -> (r: Result<
        (),
        ModelCreationServiceError,
    >)
        ensures
            existing is Some <==> r matches Err(ModelCreationServiceError::ModelAlreadyInCollection),
            existing is None <==> r is Ok,
    {
        match existing {
            Some(_) => Err(ModelCreationServiceError::ModelAlreadyInCollection),
            None => Ok(()),
        }
    }

    /// The new model: owned by the actor, in the actor's tenant, with the name,
    /// description and visibility asked for, backed by the external model
    /// asked for, not yet associated with an artifact, and with a fresh id.
    pub fn model_for(ctx: &RequestContext, input: CreateModelInput) -> (m: Model)
        ensures
            m.tenant_id@ == ctx.tenant_view(),
            m.owner@ == ctx.principal_view(),
            m.name == input.name,
            m.description == input.description,
            m.external_model_id == input.external_model_id,
            m.visibility == input.visibility,
            m.artifact_id is None,
            (m.id >> 76u128) & 0xfu128 == 7u128,
    {
        Model {
            id: new_v7_id(),
            tenant_id: ctx.actor_tenant_id().clone(),
            owner: ctx.actor_principal_id().clone(),
            name: input.name,
            description: input.description,
            external_model_id: input.external_model_id,
            visibility: input.visibility,
            artifact_id: None,
        }
    }

    /// The outcome of saving the new model. A save refused because the
    /// collection already holds the pairing (another request won the race)
    /// is the same conflict as one found beforehand.
    pub fn conclude_creation(
        model: Model,
        external_model: ExternalModel,
        saved: Result<(), ModelRepositoryError>,
    ) -> (r: Result<ModelWithExternalModel, ModelCreationServiceError>)
        ensures
            match saved {
                Ok(()) => (r matches Ok(out) && out.model == model && out.external_model
                    == external_model),
                Err(ModelRepositoryError::ModelAlreadyInCollection) => r matches Err(
                    ModelCreationServiceError::ModelAlreadyInCollection,
                ),
                Err(e) => r matches Err(ModelCreationServiceError::ModelRepository(f)) && f == e,
            },
    {
        match saved {
            Ok(()) => Ok(ModelWithExternalModel { model, external_model }),
            Err(ModelRepositoryError::ModelAlreadyInCollection) => Err(
                ModelCreationServiceError::ModelAlreadyInCollection,
            ),
            Err(e) => Err(ModelCreationServiceError::ModelRepository(e)),
        }
    }
}

} // verus!

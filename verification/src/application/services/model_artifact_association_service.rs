//! Associates one of the actor's own models with an artifact.

use vstd::prelude::*;
use crate::application::ports::artifacts::ArtifactRepositoryError;
use crate::application::ports::model::ModelRepositoryError;
use crate::domain::Model;
use crate::shared_kernel::RequestContext;

verus! {

#[derive(Debug)]
pub enum ModelArtifactAssociationServiceError {
    /// Artifact not found
    ArtifactNotFound,
    /// Model not found
    ModelNotFound,
    ArtifactRepository(ArtifactRepositoryError),
    ModelRepository(ModelRepositoryError),
    /// The domain refused the association; the message says why.
    Domain(String),
}

pub struct ModelArtifactAssociationService<M, A> {
    model_repository: M,
    artifact_repository: A,
}

impl<M, A> ModelArtifactAssociationService<M, A> {
    pub closed spec fn model_repository_spec(&self) -> M {
        self.model_repository
    }

    pub closed spec fn artifact_repository_spec(&self) -> A {
        self.artifact_repository
    }

    pub fn new(model_repository: M, artifact_repository: A) -> (s: Self)
        ensures
            s.model_repository_spec() == model_repository,
            s.artifact_repository_spec() == artifact_repository,
    {
        ModelArtifactAssociationService { model_repository, artifact_repository }
    }

    pub fn model_repository(&self) -> (r: &M)
        ensures
            *r == self.model_repository_spec(),
    {
        &self.model_repository
    }

    pub fn artifact_repository(&self) -> (r: &A)
        ensures
            *r == self.artifact_repository_spec(),
    {
        &self.artifact_repository
    }

    /// The artifact to associate, as the repository found it.
    pub fn require_artifact<T>(found: Option<T>) -> (r: Result<T, ModelArtifactAssociationServiceError>)
        ensures
            match found {
                Some(a) => r == Ok::<T, ModelArtifactAssociationServiceError>(a),
                None => r matches Err(ModelArtifactAssociationServiceError::ArtifactNotFound),
            },
    {
        match found {
            Some(a) => Ok(a),
            None => Err(ModelArtifactAssociationServiceError::ArtifactNotFound),
        }
    }

    /// The model to associate, as the repository found it in the actor's
    /// tenant: only a model that the actor owns; any other is not found.
    pub fn require_owned_model(ctx: &RequestContext, found: Option<Model>) -> (r: Result<
        Model,
        ModelArtifactAssociationServiceError,
    >)
        ensures
            match found {
                Some(m) => if m.owner@ == ctx.principal_view() {
                    r == Ok::<Model, ModelArtifactAssociationServiceError>(m)
                } else {
                    r matches Err(ModelArtifactAssociationServiceError::ModelNotFound)
                },
                None => r matches Err(ModelArtifactAssociationServiceError::ModelNotFound),
            },
    {
        match found {
            Some(m) => {
                if m.owner == *ctx.actor_principal_id() {
                    Ok(m)
                } else {
                    Err(ModelArtifactAssociationServiceError::ModelNotFound)
                }
            },
            None => Err(ModelArtifactAssociationServiceError::ModelNotFound),
        }
    }

    /// The model, now associated with the artifact; nothing else changes.
    pub fn associated(model: Model, artifact_id: u128) -> (m: Model)
        ensures
            m == (Model { artifact_id: Some(artifact_id), ..model }),
    {
        Model { artifact_id: Some(artifact_id), ..model }
    }
}

} // verus!

//! Reads, registers and searches models, and associates them with artifacts.

use vstd::prelude::*;
use crate::application::ports::artifacts::ArtifactRepositoryError;
use crate::application::ports::model::ModelRepositoryError;
use crate::application::services::lookup_messages::{
    artifact_missing, artifact_missing_text, entry_missing, entry_missing_text, EntryKind,
};
use crate::domain::ClientStrategySet;

verus! {

#[derive(Debug)]
pub enum ModelServiceError {
    ArtifactRepoError(ArtifactRepositoryError),
    ModelRepoError(ModelRepositoryError),
    ArtifactNotFound(String),
    ModelNotFound(String),
    /// The domain refused the association; the message says why.
    DomainServiceError(String),
    DuplicateModelError(String),
    OutputModelConversionError(String),
    InternalError(String),
}

pub struct ModelService<M, A> {
    model_repo: M,
    artifact_repo: A,
    client_strategy_sets: Vec<ClientStrategySet>,
}

impl<M, A> ModelService<M, A> {
    pub closed spec fn model_repo_spec(&self) -> M {
        self.model_repo
    }

    pub closed spec fn artifact_repo_spec(&self) -> A {
        self.artifact_repo
    }

    pub closed spec fn strategy_sets_spec(&self) -> Seq<ClientStrategySet> {
        self.client_strategy_sets@
    }

    pub fn new(model_repo: M, artifact_repo: A, client_strategy_sets: Vec<ClientStrategySet>) -> (s:
        Self)
        ensures
            s.model_repo_spec() == model_repo,
            s.artifact_repo_spec() == artifact_repo,
            s.strategy_sets_spec() == client_strategy_sets@,
    {
        ModelService { model_repo, artifact_repo, client_strategy_sets }
    }

    pub fn model_repo(&self) -> (r: &M)
        ensures
            *r == self.model_repo_spec(),
    {
        &self.model_repo
    }

    pub fn artifact_repo(&self) -> (r: &A)
        ensures
            *r == self.artifact_repo_spec(),
    {
        &self.artifact_repo
    }

    pub fn client_strategy_sets(&self) -> (r: &Vec<ClientStrategySet>)
        ensures
            r@ == self.strategy_sets_spec(),
    {
        &self.client_strategy_sets
    }

    /// The artifact to associate a model with, as the repository found it.
    pub fn require_artifact<T>(artifact_id: u128, found: Option<T>) -> (r: Result<
        T,
        ModelServiceError,
    >)
        ensures
            match found {
                Some(a) => r == Ok::<T, ModelServiceError>(a),
                None => r matches Err(ModelServiceError::ArtifactNotFound(m)) && m@
                    == artifact_missing_text(artifact_id),
            },
    {
        match found {
            Some(a) => Ok(a),
            None => Err(ModelServiceError::ArtifactNotFound(artifact_missing(artifact_id))),
        }
    }

    /// The model to associate with the artifact, as the repository found it;
    /// the message names the author and name asked for.
    pub fn require_model<T>(author: &String, name: &String, found: Option<T>) -> (r: Result<
        T,
        ModelServiceError,
    >)
        ensures
            match found {
                Some(m) => r == Ok::<T, ModelServiceError>(m),
                None => r matches Err(ModelServiceError::ModelNotFound(m)) && m@
                    == entry_missing_text(EntryKind::Model, author@, name@),
            },
    {
        match found {
            Some(m) => Ok(m),
            None => Err(ModelServiceError::ModelNotFound(entry_missing(EntryKind::Model, author, name))),
        }
    }
}

} // verus!

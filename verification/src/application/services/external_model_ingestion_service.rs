//! Ingests the models that outside providers publish: a model already known
//! by its provider and locator is refreshed, a new one is saved, and either
//! way it is annotated with the strategies that can deploy it.

use vstd::prelude::*;
use crate::application::ports::model::ExternalModelRepositoryError;
use crate::application::services::strategy_references::{
    first_failure, gather_all_references, references_view, resolved_references,
};
use crate::domain::{ClientStrategySet, ExternalModel, Strategy};

verus! {

#[derive(Debug)]
pub enum ExternalModelIngestionServiceError {
    Repository(ExternalModelRepositoryError),
    /// The model breaks a rule of the domain; the message says which.
    Domain(String),
    /// The viable strategies of a client could not be resolved; the message
    /// says why.
    Strategy(String),
}

/// Whether an ingested model is saved as a new one or updates the one
/// already known by its provider and locator.
#[derive(Clone, Copy, Debug, PartialEq, Eq, Structural)]
pub enum IngestionWrite {
    Save,
    Update,
}

/// The model to ingest: the one already known, refreshed with what the
/// provider now says of it, or else the candidate itself.
pub open spec fn merged_model(existing: Option<ExternalModel>, candidate: ExternalModel) -> (
    u128,
    Seq<char>,
    Seq<char>,
    Seq<char>,
) {
    match existing {
        Some(e) => (e.id, e.provider@, e.locator@, candidate.metadata@),
        None => (candidate.id, candidate.provider@, candidate.locator@, candidate.metadata@),
    }
}

/// The id, provider, locator and metadata of a model.
pub open spec fn identity_of(m: ExternalModel) -> (u128, Seq<char>, Seq<char>, Seq<char>) {
    (m.id, m.provider@, m.locator@, m.metadata@)
}

pub struct ExternalModelIngestionService<R> {
    repository: R,
    client_strategy_sets: Vec<ClientStrategySet>,
}

impl<R> ExternalModelIngestionService<R> {
    pub closed spec fn repository_spec(&self) -> R {
        self.repository
    }

    pub closed spec fn strategy_sets_spec(&self) -> Seq<ClientStrategySet> {
        self.client_strategy_sets@
    }

    pub fn new(repository: R, client_strategy_sets: Vec<ClientStrategySet>) -> (s: Self)
        ensures
            s.repository_spec() == repository,
            s.strategy_sets_spec() == client_strategy_sets@,
    {
        ExternalModelIngestionService { repository, client_strategy_sets }
    }

    pub fn repository(&self) -> (r: &R)
        ensures
            *r == self.repository_spec(),
    {
        &self.repository
    }

    /// The strategy sets of the platform clients, in the order they are
    /// consulted.
    pub fn client_strategy_sets(&self) -> (r: &Vec<ClientStrategySet>)
        ensures
            r@ == self.strategy_sets_spec(),
    {
        &self.client_strategy_sets
    }

    /// Merges a candidate with the model already known by its provider and
    /// locator, if any: the known model keeps its identity and takes the
    /// candidate's metadata, and is then updated; a new candidate is saved.
    pub fn merge_with_existing(existing: Option<ExternalModel>, candidate: ExternalModel) -> (r: (
        ExternalModel,
        IngestionWrite,
    ))
        ensures
            identity_of(r.0) == merged_model(existing, candidate),
            r.1 == (if existing is Some {
                IngestionWrite::Update
            } else {
                IngestionWrite::Save
            }),
            existing is None ==> r.0 == candidate,
            existing matches Some(e) ==> r.0.deployment_strategies == e.deployment_strategies,
    {
        match existing {
            Some(known) => {
                let refreshed = ExternalModel { metadata: candidate.metadata, ..known };
                (refreshed, IngestionWrite::Update)
            },
            None => (candidate, IngestionWrite::Save),
        }
    }

    /// Replaces the model's deployment strategies with references to the
    /// viable strategies of every client, client after client; when the
    /// viable strategies of a client could not be resolved, the first such
    /// failure is returned.
    pub fn annotate(model: ExternalModel, viable: &Vec<Result<Vec<Strategy>, String>>) -> (r:
        Result<ExternalModel, ExternalModelIngestionServiceError>)
        ensures
            first_failure(viable@) >= 0 ==> (r matches Err(
                ExternalModelIngestionServiceError::Strategy(reason),
            ) && viable@[first_failure(viable@)] == Err::<Vec<Strategy>, String>(reason)),
            first_failure(viable@) == -1 ==> (r matches Ok(m) && identity_of(m) == identity_of(
                model,
            ) && references_view(m.deployment_strategies@) == resolved_references(viable@)),
    {
        match gather_all_references(viable) {
            Ok(references) => Ok(ExternalModel { deployment_strategies: references, ..model }),
            Err(reason) => Err(ExternalModelIngestionServiceError::Strategy(reason)),
        }
    }
}

} // verus!

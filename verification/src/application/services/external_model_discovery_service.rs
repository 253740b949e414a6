//! Looks up and searches the models that outside providers publish.

use vstd::prelude::*;
use crate::application::ports::model::{ExternalModelPage, ExternalModelRepositoryError};
use crate::domain::ExternalModel;

verus! {

#[derive(Debug)]
pub enum ExternalModelDiscoveryServiceError {
    /// ExternalModel not found
    NotFound,
    Repository(ExternalModelRepositoryError),
}

/// A page of external models found by a search.
pub struct ExternalModelListOutput {
    pub external_models: Vec<ExternalModel>,
    pub count: Option<u64>,
    pub cursor: Option<String>,
}

pub struct ExternalModelDiscoveryService<R> {
    repository: R,
}

impl<R> ExternalModelDiscoveryService<R> {
    pub closed spec fn repository_spec(&self) -> R {
        self.repository
    }

    pub fn new(repository: R) -> (s: Self)
        ensures
            s.repository_spec() == repository,
    {
        ExternalModelDiscoveryService { repository }
    }

    pub fn repository(&self) -> (r: &R)
        ensures
            *r == self.repository_spec(),
    {
        &self.repository
    }

    /// The model that the repository found by id, or `NotFound`.
    pub fn found_external_model(found: Option<ExternalModel>) -> (r: Result<
        ExternalModel,
        ExternalModelDiscoveryServiceError,
    >)
        ensures
            match found {
                Some(m) => r == Ok::<ExternalModel, ExternalModelDiscoveryServiceError>(m),
                None => r matches Err(ExternalModelDiscoveryServiceError::NotFound),
            },
    {
        match found {
            Some(m) => Ok(m),
            None => Err(ExternalModelDiscoveryServiceError::NotFound),
        }
    }

    /// The page that a search returned, as the service hands it out.
    pub fn list_output(page: ExternalModelPage) -> (out: ExternalModelListOutput)
        ensures
            out.external_models == page.external_models,
            out.count == page.count,
            out.cursor == page.cursor,
    {
        ExternalModelListOutput {
            external_models: page.external_models,
            count: page.count,
            cursor: page.cursor,
        }
    }
}

} // verus!

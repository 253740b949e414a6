//! Registers and reads datasets on behalf of an actor.

use vstd::prelude::*;
use crate::application::ports::dataset::DatasetRepositoryError;
use crate::application::services::dataset_query_service::{
    DatasetQueryService, DatasetQueryServiceError,
};
use crate::domain::Dataset;
use crate::shared_kernel::{visible_to, RequestContext};

verus! {

#[derive(Debug)]
pub enum DatasetServiceError {
    Repository(DatasetRepositoryError),
    /// The dataset breaks a rule of the domain; the message says which.
    Domain(String),
    /// An item of the dataset is invalid; the message says why.
    Item(String),
    /// The locator of the dataset is invalid; the message says why.
    Locator(String),
    /// Dataset not found
    NotFound,
}

pub struct DatasetService<R> {
    dataset_repository: R,
}

impl<R> DatasetService<R> {
    pub closed spec fn repository_spec(&self) -> R {
        self.dataset_repository
    }

    pub fn new(dataset_repository: R) -> (s: Self)
        ensures
            s.repository_spec() == dataset_repository,
    {
        DatasetService { dataset_repository }
    }

    pub fn dataset_repository(&self) -> (r: &R)
        ensures
            *r == self.repository_spec(),
    {
        &self.dataset_repository
    }

    /// The dataset that the repository found by id in the actor's tenant,
    /// if the actor may see it; otherwise it is not found.
    pub fn visible_dataset(ctx: &RequestContext, found: Option<Dataset>) -> (r: Result<
        Dataset,
        DatasetServiceError,
    >)
        ensures
            match found {
                None => r matches Err(DatasetServiceError::NotFound),
                Some(d) => if visible_to(d.owner@, d.visibility, ctx.principal_view()) {
                    r == Ok::<Dataset, DatasetServiceError>(d)
                } else {
                    r matches Err(DatasetServiceError::NotFound)
                },
            },
    {
        match DatasetQueryService::<R>::visible_dataset(ctx, found) {
            Ok(d) => Ok(d),
            Err(DatasetQueryServiceError::NotFound) => Err(DatasetServiceError::NotFound),
            Err(DatasetQueryServiceError::Repository(e)) => Err(DatasetServiceError::Repository(e)),
        }
    }
}

} // verus!

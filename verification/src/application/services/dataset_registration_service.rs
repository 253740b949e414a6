//! Registers the datasets that actors describe.

use vstd::prelude::*;
use crate::application::ports::dataset::DatasetRepositoryError;

verus! {

#[derive(Debug)]
pub enum DatasetRegistrationServiceError {
    Repository(DatasetRepositoryError),
    /// The dataset breaks a rule of the domain; the message says which.
    Domain(String),
    /// An item of the dataset is invalid; the message says why.
    Item(String),
    /// The locator of the dataset is invalid; the message says why.
    Locator(String),
}

pub struct DatasetRegistrationService<R> {
    dataset_repository: R,
}

impl<R> DatasetRegistrationService<R> {
    pub closed spec fn repository_spec(&self) -> R {
        self.dataset_repository
    }

    pub fn new(dataset_repository: R) -> (s: Self)
        ensures
            s.repository_spec() == dataset_repository,
    {
        DatasetRegistrationService { dataset_repository }
    }

    pub fn dataset_repository(&self) -> (r: &R)
        ensures
            *r == self.repository_spec(),
    {
        &self.dataset_repository
    }
}

} // verus!

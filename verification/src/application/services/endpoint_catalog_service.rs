//! Finds the endpoints issued for a network addressable resource.

use vstd::prelude::*;
use crate::application::ports::endpoint::EndpointRepositoryError;

verus! {

#[derive(Debug)]
pub enum EndpointCatalogServiceError {
    Repository(EndpointRepositoryError),
}

pub struct EndpointCatalogService<R> {
    endpoint_repository: R,
}

impl<R> EndpointCatalogService<R> {
    pub closed spec fn repository_spec(&self) -> R {
        self.endpoint_repository
    }

    pub fn new(endpoint_repository: R) -> (s: Self)
        ensures
            s.repository_spec() == endpoint_repository,
    {
        EndpointCatalogService { endpoint_repository }
    }

    pub fn endpoint_repository(&self) -> (r: &R)
        ensures
            *r == self.repository_spec(),
    {
        &self.endpoint_repository
    }
}

} // verus!

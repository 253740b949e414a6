//! Reads the HPC clusters that the hub knows of.

use vstd::prelude::*;
use crate::application::ports::hpc_cluster::HpcClusterRepositoryError;

verus! {

#[derive(Debug)]
pub enum HpcClusterQueryServiceError {
    Repository(HpcClusterRepositoryError),
    /// HPC cluster not found
    NotFound,
}

pub struct HpcClusterQueryService<R> {
    repository: R,
}

impl<R> HpcClusterQueryService<R> {
    pub closed spec fn repository_spec(&self) -> R {
        self.repository
    }

    pub fn new(repository: R) -> (s: Self)
        ensures
            s.repository_spec() == repository,
    {
        HpcClusterQueryService { repository }
    }

    pub fn repository(&self) -> (r: &R)
        ensures
            *r == self.repository_spec(),
    {
        &self.repository
    }

    /// The cluster that the repository found in the data center by id; a
    /// missing one is reported as not found.
    pub fn require_cluster<T>(found: Option<T>) -> (r: Result<T, HpcClusterQueryServiceError>)
        ensures
            match found {
                Some(c) => r == Ok::<T, HpcClusterQueryServiceError>(c),
                None => r matches Err(HpcClusterQueryServiceError::NotFound),
            },
    {
        match found {
            Some(c) => Ok(c),
            None => Err(HpcClusterQueryServiceError::NotFound),
        }
    }
}

} // verus!

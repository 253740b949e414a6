use vstd::prelude::*;
use crate::application::ports::errors::CommonRepositoryError;

verus! {

#[derive(Clone, Debug)]
pub enum ArtifactRepositoryError {
    Persistence(CommonRepositoryError),
}

#[derive(Clone, Debug)]
pub enum ArtifactIngestionRepositoryError {
    Persistence(CommonRepositoryError),
}

#[derive(Clone, Debug)]
pub enum ArtifactPublicationRepositoryError {
    Persistence(CommonRepositoryError),
}

} // verus!

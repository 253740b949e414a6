//! Associates dataset metadata with artifacts, and creates and discovers it.

use vstd::prelude::*;
use crate::application::services::lookup_messages::{
    artifact_missing, artifact_missing_text, entry_missing, entry_missing_text, EntryKind,
};

verus! {

#[derive(Debug)]
pub enum DatasetMetadataServiceError {
    /// A repository failed; the message says why.
    RepoError(String),
    ArtifactNotFound(String),
    MetdataNotFound(String),
    /// The domain refused the association; the message says why.
    DomainServiceError(String),
    DuplicateMetadataError(String),
}

pub struct DatasetMetadataService<D, A> {
    dataset_metadata_repo: D,
    artifact_repo: A,
}

impl<D, A> DatasetMetadataService<D, A> {
    pub closed spec fn dataset_metadata_repo_spec(&self) -> D {
        self.dataset_metadata_repo
    }

    pub closed spec fn artifact_repo_spec(&self) -> A {
        self.artifact_repo
    }

    pub fn new(dataset_metadata_repo: D, artifact_repo: A) -> (s: Self)
        ensures
            s.dataset_metadata_repo_spec() == dataset_metadata_repo,
            s.artifact_repo_spec() == artifact_repo,
    {
        DatasetMetadataService { dataset_metadata_repo, artifact_repo }
    }

    pub fn dataset_metadata_repo(&self) -> (r: &D)
        ensures
            *r == self.dataset_metadata_repo_spec(),
    {
        &self.dataset_metadata_repo
    }

    pub fn artifact_repo(&self) -> (r: &A)
        ensures
            *r == self.artifact_repo_spec(),
    {
        &self.artifact_repo
    }

    /// The artifact to associate metadata with, as the repository found it.
    pub fn require_artifact<T>(artifact_id: u128, found: Option<T>) -> (r: Result<
        T,
        DatasetMetadataServiceError,
    >)
        ensures
            match found {
                Some(a) => r == Ok::<T, DatasetMetadataServiceError>(a),
                None => r matches Err(DatasetMetadataServiceError::ArtifactNotFound(m)) && m@
                    == artifact_missing_text(artifact_id),
            },
    {
        match found {
            Some(a) => Ok(a),
            None => Err(DatasetMetadataServiceError::ArtifactNotFound(artifact_missing(artifact_id))),
        }
    }

    /// The metadata to associate with the artifact, as the repository found
    /// it; the message names the author and name asked for.
    pub fn require_metadata<T>(author: &String, name: &String, found: Option<T>) -> (r: Result<
        T,
        DatasetMetadataServiceError,
    >)
        ensures
            match found {
                Some(m) => r == Ok::<T, DatasetMetadataServiceError>(m),
                None => r matches Err(DatasetMetadataServiceError::MetdataNotFound(m)) && m@
                    == entry_missing_text(EntryKind::Metadata, author@, name@),
            },
    {
        match found {
            Some(m) => Ok(m),
            None => Err(
                DatasetMetadataServiceError::MetdataNotFound(
                    entry_missing(EntryKind::Metadata, author, name),
                ),
            ),
        }
    }
}

} // verus!

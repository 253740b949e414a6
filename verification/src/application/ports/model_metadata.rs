use vstd::prelude::*;
use crate::application::ports::errors::CommonRepositoryError;
use crate::domain::ModelMetadata;

verus! {

#[derive(Clone, Debug)]
pub enum ModelMetadataRepositoryError {
    Persistence(CommonRepositoryError),
}

/// A page of model metadata found by a search.
pub struct ModelSearchResult {
    pub models: Vec<ModelMetadata>,
    pub count: Option<i64>,
    pub cursor: Option<String>,
}

} // verus!

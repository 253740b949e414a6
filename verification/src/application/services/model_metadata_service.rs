//! Reads, registers and searches the metadata of models, annotating each
//! with the strategies that can deploy it.

use vstd::prelude::*;
use crate::application::ports::artifacts::ArtifactRepositoryError;
use crate::application::ports::model_metadata::{ModelMetadataRepositoryError, ModelSearchResult};
use crate::application::services::lookup_messages::{
    artifact_missing, artifact_missing_text, entry_missing, entry_missing_text, EntryKind,
};
use crate::application::services::strategy_references::{
    gather_resolved_references, references_view, resolved_references,
};
use crate::domain::{ClientStrategySet, ModelMetadata, Strategy};
use crate::shared_kernel::{RequestContext, GLOBAL_TENANT};

verus! {

#[derive(Debug)]
pub enum ModelMetadataServiceError {
    ArtifactRepoError(ArtifactRepositoryError),
    ModelMetadataRepoError(ModelMetadataRepositoryError),
    ArtifactNotFound(String),
    MetdataNotFound(String),
    /// The domain refused the association; the message says why.
    DomainServiceError(String),
    DuplicateMetadataError(String),
    OutputMetadataConversionError(String),
    InternalError(String),
}

/// The tenants that a search covers: the actor's, then the global tenant
/// when global models are asked for.
pub open spec fn search_tenants_spec(ctx: RequestContext, include_global: Option<bool>) -> Seq<
    Seq<char>,
> {
    if include_global == Some(true) {
        seq![ctx.tenant_view(), GLOBAL_TENANT@]
    } else {
        seq![ctx.tenant_view()]
    }
}

/// The tenants that a search covers.
pub fn search_tenants(ctx: &RequestContext, include_global: Option<bool>) -> (t: Vec<String>)
    ensures
        t@.map_values(|s: String| s@) == search_tenants_spec(*ctx, include_global),
{
    let mut tenants: Vec<String> = Vec::new();
    tenants.push(ctx.actor_tenant_id().clone());
    let global = match include_global {
        Some(b) => b,
        None => false,
    };
    if global {
        tenants.push(GLOBAL_TENANT.to_owned());
    }
    assert(tenants@.map_values(|s: String| s@) =~= search_tenants_spec(*ctx, include_global));
    tenants
}

/// The metadata, its strategy references replaced by those of the viable
/// strategies of every client whose strategies could be resolved.
pub open spec fn annotated(metadata: ModelMetadata, refs: Seq<(Seq<char>, Seq<char>)>, result: ModelMetadata) -> bool {
    &&& result.author == metadata.author
    &&& result.name == metadata.name
    &&& result.tenant_id == metadata.tenant_id
    &&& result.artifact_id == metadata.artifact_id
    &&& references_view(result.deployment_strategy_refs@) == refs
}

pub struct ModelMetadataService<M, A> {
    model_metadata_repo: M,
    artifact_repo: A,
    client_strategy_sets: Vec<ClientStrategySet>,
}

impl<M, A> ModelMetadataService<M, A> {
    pub closed spec fn model_metadata_repo_spec(&self) -> M {
        self.model_metadata_repo
    }

    pub closed spec fn artifact_repo_spec(&self) -> A {
        self.artifact_repo
    }

    pub closed spec fn strategy_sets_spec(&self) -> Seq<ClientStrategySet> {
        self.client_strategy_sets@
    }

    pub fn new(model_metadata_repo: M, artifact_repo: A, client_strategy_sets: Vec<ClientStrategySet>) -> (s:
        Self)
        ensures
            s.model_metadata_repo_spec() == model_metadata_repo,
            s.artifact_repo_spec() == artifact_repo,
            s.strategy_sets_spec() == client_strategy_sets@,
    {
        ModelMetadataService { model_metadata_repo, artifact_repo, client_strategy_sets }
    }

    pub fn model_metadata_repo(&self) -> (r: &M)
        ensures
            *r == self.model_metadata_repo_spec(),
    {
        &self.model_metadata_repo
    }

    pub fn artifact_repo(&self) -> (r: &A)
        ensures
            *r == self.artifact_repo_spec(),
    {
        &self.artifact_repo
    }

    pub fn client_strategy_sets(&self) -> (r: &Vec<ClientStrategySet>)
        ensures
            r@ == self.strategy_sets_spec(),
    {
        &self.client_strategy_sets
    }

    /// The artifact to associate metadata with, as the repository found it.
    pub fn require_artifact<T>(artifact_id: u128, found: Option<T>) -> (r: Result<
        T,
        ModelMetadataServiceError,
    >)
        ensures
            match found {
                Some(a) => r == Ok::<T, ModelMetadataServiceError>(a),
                None => r matches Err(ModelMetadataServiceError::ArtifactNotFound(m)) && m@
                    == artifact_missing_text(artifact_id),
            },
    {
        match found {
            Some(a) => Ok(a),
            None => Err(ModelMetadataServiceError::ArtifactNotFound(artifact_missing(artifact_id))),
        }
    }

    /// The metadata to associate with the artifact, as the repository found
    /// it; the message names the author and name asked for.
    pub fn require_metadata(author: &String, name: &String, found: Option<ModelMetadata>) -> (r:
        Result<ModelMetadata, ModelMetadataServiceError>)
        ensures
            match found {
                Some(m) => r == Ok::<ModelMetadata, ModelMetadataServiceError>(m),
                None => r matches Err(ModelMetadataServiceError::MetdataNotFound(m)) && m@
                    == entry_missing_text(EntryKind::Metadata, author@, name@),
            },
    {
        match found {
            Some(m) => Ok(m),
            None => Err(
                ModelMetadataServiceError::MetdataNotFound(
                    entry_missing(EntryKind::Metadata, author, name),
                ),
            ),
        }
    }

    /// Annotates metadata with references to the viable strategies of every
    /// client, in client order; a client whose viable strategies could not be
    /// resolved adds none, and the annotation goes on.
    pub fn annotate_with_deployment_strategies(
        metadata: ModelMetadata,
        viable: &Vec<Result<Vec<Strategy>, String>>,
    ) -> (r: ModelMetadata)
        ensures
            annotated(metadata, resolved_references(viable@), r),
    {
        let refs = gather_resolved_references(viable);
        ModelMetadata { deployment_strategy_refs: refs, ..metadata }
    }
}

/// A page of metadata as the search returned it, with the total count and
/// the cursor of the next page.
pub struct ModelMetadataListOutput {
    pub models: Vec<ModelMetadata>,
    pub count: Option<i64>,
    pub cursor: Option<String>,
}

/// The page of a search, its metadata replaced by the annotated ones.
pub fn search_output(result: ModelSearchResult, annotated_models: Vec<ModelMetadata>) -> (out:
    ModelMetadataListOutput)
    ensures
        out.models == annotated_models,
        out.count == result.count,
        out.cursor == result.cursor,
{
    ModelMetadataListOutput { models: annotated_models, count: result.count, cursor: result.cursor }
}

} // verus!

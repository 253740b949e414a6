//! Reads datasets on behalf of an actor. A dataset that the actor may not
//! see is reported as missing, so that its existence is not revealed.

use vstd::prelude::*;
use crate::application::ports::dataset::DatasetRepositoryError;
use crate::domain::Dataset;
use crate::shared_kernel::{is_visible_to, visible_to, RequestContext, GLOBAL_TENANT};

verus! {

#[derive(Debug)]
pub enum DatasetQueryServiceError {
    Repository(DatasetRepositoryError),
    /// Dataset not found
    NotFound,
}

/// Whom a listing of datasets is for.
#[derive(Clone, Copy, Debug, PartialEq, Eq, Structural)]
pub enum DatasetListing {
    /// The datasets that the actor owns, in the actor's tenant.
    Owned,
    /// The datasets shared with the actor, in the actor's tenant.
    SharedWithActor,
    /// The datasets of the global tenant.
    Global,
}

/// How much of a listing to return: at most `limit` datasets, from
/// `cursor` on, with the total count when `include_count` asks for it.
#[derive(Clone, Debug)]
pub struct ListDatasetsInput {
    pub limit: Option<u16>,
    pub cursor: Option<String>,
    pub include_count: Option<bool>,
}

/// A page of datasets, with the total count when it was asked for and the
/// cursor of the next page.
#[derive(Debug)]
pub struct DatasetListOutput {
    pub datasets: Vec<Dataset>,
    pub count: Option<u64>,
    pub cursor: Option<String>,
}

/// What a listing asks the repository for: the tenant, the principal when
/// the listing is for the actor, and the pagination given.
#[derive(Debug)]
pub struct DatasetListRequest {
    pub listing: DatasetListing,
    pub tenant_id: String,
    pub principal: Option<String>,
    pub page: ListDatasetsInput,
}

/// The tenant and, where the listing is for the actor, the principal that a
/// listing asks the repository for.
pub open spec fn listing_scope(listing: DatasetListing, ctx: RequestContext) -> (
    Seq<char>,
    Option<Seq<char>>,
) {
    match listing {
        DatasetListing::Owned => (ctx.tenant_view(), Some(ctx.principal_view())),
        DatasetListing::SharedWithActor => (ctx.tenant_view(), Some(ctx.principal_view())),
        DatasetListing::Global => (GLOBAL_TENANT@, None),
    }
}

/// A listing for the actor, of the datasets it owns or of those shared with
/// it, is scoped to the actor's own tenant and principal; only the global
/// listing leaves the actor's tenant, for the global one, and names no
/// principal.
pub proof fn law_actor_listings_stay_in_the_actor_tenant(listing: DatasetListing, ctx: RequestContext)
    ensures
        listing == DatasetListing::Owned || listing == DatasetListing::SharedWithActor
            ==> listing_scope(listing, ctx) == (ctx.tenant_view(), Some(ctx.principal_view())),
        listing == DatasetListing::Global ==> listing_scope(listing, ctx) == (
            GLOBAL_TENANT@,
            None::<Seq<char>>,
        ),
{
}

/// A lookup of the actor's dataset of a Hugging Face repository at a
/// revision, in the actor's tenant.
#[derive(Debug)]
pub struct HuggingFaceLookup {
    pub tenant_id: String,
    pub owner: String,
    pub repo_id: String,
    pub sha: String,
}

/// The lookup of the actor's dataset of a Hugging Face repository.
pub fn huggingface_lookup(ctx: &RequestContext, repo_id: String, sha: String) -> (l: HuggingFaceLookup)
    ensures
        l.tenant_id@ == ctx.tenant_view(),
        l.owner@ == ctx.principal_view(),
        l.repo_id == repo_id,
        l.sha == sha,
{
    HuggingFaceLookup {
        tenant_id: ctx.actor_tenant_id().clone(),
        owner: ctx.actor_principal_id().clone(),
        repo_id,
        sha,
    }
}

/// What a listing asks the repository for: its tenant and principal, and
/// the pagination exactly as given.
pub fn listing_request(listing: DatasetListing, ctx: &RequestContext, page: ListDatasetsInput) -> (r:
    DatasetListRequest)
    ensures
        r.listing == listing,
        (r.tenant_id@, match r.principal {
            Some(p) => Some(p@),
            None => None,
        }) == listing_scope(listing, *ctx),
        r.page.limit == page.limit,
        r.page.cursor == page.cursor,
        r.page.include_count == page.include_count,
        listing != DatasetListing::Global ==> r.tenant_id@ == ctx.tenant_view() && (r.principal matches Some(
            p,
        ) && p@ == ctx.principal_view()),
        listing == DatasetListing::Global ==> r.tenant_id@ == GLOBAL_TENANT@ && r.principal is None,
{
    let (tenant_id, principal) = match listing {
        DatasetListing::Owned => (
            ctx.actor_tenant_id().clone(),
            Some(ctx.actor_principal_id().clone()),
        ),
        DatasetListing::SharedWithActor => (
            ctx.actor_tenant_id().clone(),
            Some(ctx.actor_principal_id().clone()),
        ),
        DatasetListing::Global => (GLOBAL_TENANT.to_owned(), None),
    };
    DatasetListRequest { listing, tenant_id, principal, page }
}

pub struct DatasetQueryService<R> {
    dataset_repository: R,
}

impl<R> DatasetQueryService<R> {
    pub closed spec fn repository_spec(&self) -> R {
        self.dataset_repository
    }

    pub fn new(dataset_repository: R) -> (s: Self)
        ensures
            s.repository_spec() == dataset_repository,
    {
        DatasetQueryService { dataset_repository }
    }

    pub fn dataset_repository(&self) -> (r: &R)
        ensures
            *r == self.repository_spec(),
    {
        &self.dataset_repository
    }

    /// The dataset that the repository found by id in the actor's tenant,
    /// if the actor may see it; otherwise it is not found.
    pub fn visible_dataset(ctx: &RequestContext, found: Option<Dataset>) -> (r: Result<
        Dataset,
        DatasetQueryServiceError,
    >)
        ensures
            match found {
                None => r matches Err(DatasetQueryServiceError::NotFound),
                Some(d) => if visible_to(d.owner@, d.visibility, ctx.principal_view()) {
                    r == Ok::<Dataset, DatasetQueryServiceError>(d)
                } else {
                    r matches Err(DatasetQueryServiceError::NotFound)
                },
            },
    {
        match found {
            None => Err(DatasetQueryServiceError::NotFound),
            Some(d) => {
                if is_visible_to(&d.owner, d.visibility, ctx) {
                    Ok(d)
                } else {
                    Err(DatasetQueryServiceError::NotFound)
                }
            },
        }
    }
}

} // verus!

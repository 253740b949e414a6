//! Queries of the models in a user's collection, each returned together with
//! the external model it is backed by.

use vstd::prelude::*;
use std::collections::HashMap;
use crate::application::ports::model::{ExternalModelRepositoryError, ModelPage, ModelRepositoryError};
use crate::domain::{ExternalModel, Model};
use crate::shared_kernel::{visible_to, RequestContext, Visibility};

verus! {

broadcast use vstd::std_specs::hash::group_hash_axioms;

#[derive(Debug)]
pub enum ModelQueryServiceError {
    /// Model not found
    NotFound,
    /// Data integrity error: Model references a missing ExternalModel
    MissingExternalModel,
    ModelRepository(ModelRepositoryError),
    ExternalModelRepository(ExternalModelRepositoryError),
}

/// A model with the external model it is backed by.
#[derive(Debug)]
pub struct ModelWithExternalModel {
    pub model: Model,
    pub external_model: ExternalModel,
}

/// A page of models, each with its external model.
#[derive(Debug)]
pub struct ModelListOutput {
    pub models: Vec<ModelWithExternalModel>,
    pub count: Option<u64>,
    pub cursor: Option<String>,
}


/// The external model ids that a sequence of models refers to, in order.
pub open spec fn referenced_ids(models: Seq<Model>) -> Seq<u128> {
    models.map_values(|m: Model| m.external_model_id)
}

pub open spec fn external_ids(xs: Seq<ExternalModel>) -> Seq<u128> {
    xs.map_values(|x: ExternalModel| x.id)
}

/// The index of the last occurrence of `k` in `ids`, or -1.
pub open spec fn last_index_of(ids: Seq<u128>, k: u128) -> int
    decreases ids.len(),
{
    if ids.len() == 0 {
        -1
    } else if ids.last() == k {
        ids.len() - 1
    } else {
        last_index_of(ids.drop_last(), k)
    }
}

/// Every model finds its external model, and no two models refer to the same
/// one: once a model has taken an external model, it is no longer available.
pub open spec fn joinable(keys: Seq<u128>, ids: Seq<u128>) -> bool {
    forall|i: int|
        0 <= i < keys.len() ==> ids.contains(#[trigger] keys[i]) && forall|j: int|
            0 <= j < i ==> keys[j] != keys[i]
}

proof fn lemma_last_index_of(ids: Seq<u128>, k: u128)
    ensures
        -1 <= last_index_of(ids, k) < ids.len(),
        last_index_of(ids, k) >= 0 ==> ids[last_index_of(ids, k)] == k,
        last_index_of(ids, k) >= 0 ==> forall|j: int|
            last_index_of(ids, k) < j < ids.len() ==> ids[j] != k,
        (last_index_of(ids, k) >= 0) == ids.contains(k),
    decreases ids.len(),
{
    if ids.len() > 0 {
        lemma_last_index_of(ids.drop_last(), k);
        if ids.last() != k {
            assert forall|j: int| last_index_of(ids, k) < j < ids.len() implies ids[j] != k by {
                if j < ids.len() - 1 {
                    assert(ids.drop_last()[j] == ids[j]);
                }
            }
            if ids.drop_last().contains(k) {
                let j = choose|j: int| 0 <= j < ids.drop_last().len() && ids.drop_last()[j] == k;
                assert(ids[j] == k);
            }
            if ids.contains(k) {
                let j = choose|j: int| 0 <= j < ids.len() && ids[j] == k;
                assert(j < ids.len() - 1);
                assert(ids.drop_last()[j] == k);
            }
        } else {
            assert(ids[ids.len() - 1] == k);
        }
    }
}

proof fn lemma_joinable_extend(keys: Seq<u128>, ids: Seq<u128>, i: int)
    requires
        0 <= i < keys.len(),
        joinable(keys.take(i), ids),
        ids.contains(keys[i]),
        forall|b: int| 0 <= b < i ==> keys[b] != keys[i],
    ensures
        joinable(keys.take(i + 1), ids),
{
    let t = keys.take(i + 1);
    assert forall|a: int| 0 <= a < t.len() implies ids.contains(#[trigger] t[a]) && forall|b: int|
        0 <= b < a ==> t[b] != t[a] by {
        if a < i {
            assert(keys.take(i)[a] == t[a]);
            assert forall|b: int| 0 <= b < a implies t[b] != t[a] by {
                assert(keys.take(i)[b] == t[b]);
            }
        } else {
            assert forall|b: int| 0 <= b < a implies t[b] != t[a] by {
                assert(t[b] == keys[b]);
            }
        }
    }
}

/// The external models keyed by id; where several share an id, the last one
/// is kept.
pub open spec fn by_id(xs: Seq<ExternalModel>) -> Map<u128, ExternalModel>
    decreases xs.len(),
{
    if xs.len() == 0 {
        Map::empty()
    } else {
        by_id(xs.drop_last()).insert(xs.last().id, xs.last())
    }
}

proof fn lemma_by_id(xs: Seq<ExternalModel>, k: u128)
    ensures
        by_id(xs).contains_key(k) <==> last_index_of(external_ids(xs), k) >= 0,
        by_id(xs).contains_key(k) ==> by_id(xs)[k] == xs[last_index_of(external_ids(xs), k)],
    decreases xs.len(),
{
    if xs.len() > 0 {
        let ids = external_ids(xs);
        assert(ids.drop_last() =~= external_ids(xs.drop_last()));
        lemma_by_id(xs.drop_last(), k);
        lemma_last_index_of(ids.drop_last(), k);
        if xs.last().id != k {
            assert(ids.last() != k);
            let j = last_index_of(ids, k);
            if j >= 0 {
                assert(xs.drop_last()[j] == xs[j]);
            }
        }
    }
}

pub struct ModelQueryService<M, X> {
    model_repository: M,
    external_model_repository: X,
}

impl<M, X> ModelQueryService<M, X> {
    pub closed spec fn model_repository_spec(&self) -> M {
        self.model_repository
    }

    pub closed spec fn external_model_repository_spec(&self) -> X {
        self.external_model_repository
    }

    pub fn new(model_repository: M, external_model_repository: X) -> (s: Self)
        ensures
            s.model_repository_spec() == model_repository,
            s.external_model_repository_spec() == external_model_repository,
    {
        ModelQueryService { model_repository, external_model_repository }
    }

    pub fn model_repository(&self) -> (r: &M)
        ensures
            *r == self.model_repository_spec(),
    {
        &self.model_repository
    }

    pub fn external_model_repository(&self) -> (r: &X)
        ensures
            *r == self.external_model_repository_spec(),
    {
        &self.external_model_repository
    }

    /// What the actor is told of the model that the lookup by id found: a
    /// missing model, and one that is private to another owner, are both
    /// "not found".
    pub fn resolve_found_model(ctx: &RequestContext, found: Option<Model>) -> (r: Result<
        Model,
        ModelQueryServiceError,
    >)
        ensures
            match found {
                None => r matches Err(ModelQueryServiceError::NotFound),
                Some(m) => if visible_to(m.owner@, m.visibility, ctx.principal_view()) {
                    r == Ok::<Model, ModelQueryServiceError>(m)
                } else {
                    r matches Err(ModelQueryServiceError::NotFound)
                },
            },
    {
        match found {
            None => Err(ModelQueryServiceError::NotFound),
            Some(model) => {
                let is_owner = model.owner == *ctx.actor_principal_id();
                let is_public = match model.visibility {
                    Visibility::Public => true,
                    Visibility::Private => false,
                };
                if !is_owner && !is_public {
                    Err(ModelQueryServiceError::NotFound)
                } else {
                    Ok(model)
                }
            },
        }
    }

    /// Joins a visible model with the external model that the lookup of its
    /// reference found; a dangling reference is a data integrity error.
    pub fn attach_external_model(model: Model, found: Option<ExternalModel>) -> (r: Result<
        ModelWithExternalModel,
        ModelQueryServiceError,
    >)
        ensures
            match found {
                None => r matches Err(ModelQueryServiceError::MissingExternalModel),
                Some(x) => r matches Ok(o) && o.model == model && o.external_model == x,
            },
    {
        match found {
            None => Err(ModelQueryServiceError::MissingExternalModel),
            Some(external_model) => Ok(ModelWithExternalModel { model, external_model }),
        }
    }

    /// The ids of the external models that the models of a page refer to.
    pub fn external_model_ids(page: &ModelPage) -> (ids: Vec<u128>)
        ensures
            ids@ == referenced_ids(page.models@),
    {
        let mut ids: Vec<u128> = Vec::new();
        let mut i: usize = 0;
        while i < page.models.len()
            invariant
                i <= page.models@.len(),
                ids@ == referenced_ids(page.models@.take(i as int)),
            decreases page.models@.len() - i,
        {
            ids.push(page.models[i].external_model_id);
            i = i + 1;
            assert(referenced_ids(page.models@.take(i as int)) =~= referenced_ids(
                page.models@.take((i - 1) as int),
            ).push(page.models@[i - 1].external_model_id));
        }
        assert(page.models@.take(i as int) =~= page.models@);
        ids
    }

    /// Joins each model of a page with the external model it refers to, out
    /// of those that the lookup by ids returned. When several share an id the
    /// last one is taken, and each is taken by one model at most: a model
    /// whose external model is missing, or was taken by an earlier model of
    /// the page, is a data integrity error.
    pub fn hydrate(page: ModelPage, external_models: Vec<ExternalModel>) -> (r: Result<
        ModelListOutput,
        ModelQueryServiceError,
    >)
        ensures
            r is Ok <==> joinable(referenced_ids(page.models@), external_ids(external_models@)),
            r is Err ==> !joinable(referenced_ids(page.models@), external_ids(external_models@))
                && r matches Err(ModelQueryServiceError::MissingExternalModel),
            r matches Ok(out) ==> {
                &&& out.count == page.count
                &&& out.cursor == page.cursor
                &&& out.models@.len() == page.models@.len()
                &&& forall|i: int|
                    0 <= i < page.models@.len() ==> (#[trigger] out.models@[i]).model
                        == page.models@[i] && out.models@[i].external_model == external_models@[last_index_of(
                        external_ids(external_models@),
                        page.models@[i].external_model_id,
                    )]
            },
    {
        let keys = Self::external_model_ids(&page);
        let ghost xs = external_models@;
        let ghost ms = page.models@;
        let ghost ids = external_ids(xs);
        let mut externals = external_models;
        let mut external_by_id: HashMap<u128, ExternalModel> = HashMap::new();
        assert(xs.take(0) =~= Seq::<ExternalModel>::empty());
        while externals.len() > 0
            invariant
                externals@.len() <= xs.len(),
                forall|j: int|
                    0 <= j < externals@.len() ==> #[trigger] externals@[j] == xs[xs.len()
                        - externals@.len() + j],
                external_by_id@ == by_id(xs.take(xs.len() - externals@.len())),
            decreases externals@.len(),
        {
            let ghost done = xs.len() - externals@.len();
            let x = externals.remove(0);
            let id = x.id;
            external_by_id.insert(id, x);
            assert(xs.take(done + 1).drop_last() =~= xs.take(done));
        }
        assert(xs.take(xs.len() as int) =~= xs);
        let ModelPage { models, count, cursor } = page;
        let mut models = models;
        let mut out: Vec<ModelWithExternalModel> = Vec::new();
        let n = models.len();
        proof {
            assert(keys@.take(0) =~= Seq::<u128>::empty());
            assert forall|k: u128| #[trigger] external_by_id@.contains_key(k) implies external_by_id@[k]
                == xs[last_index_of(ids, k)] by {
                lemma_by_id(xs, k);
            }
            assert forall|k: u128|
                #[trigger] external_by_id@.contains_key(k) <==> (last_index_of(ids, k) >= 0
                    && !keys@.take(0).contains(k)) by {
                lemma_by_id(xs, k);
            }
        }
        while models.len() > 0
            invariant
                n == ms.len(),
                ms == page.models@,
                xs == external_models@,
                keys@ == referenced_ids(ms),
                ids == external_ids(xs),
                out@.len() + models@.len() == n,
                forall|j: int| 0 <= j < models@.len() ==> #[trigger] models@[j] == ms[out@.len() + j],
                joinable(keys@.take(out@.len() as int), ids),
                forall|k: u128|
                    #[trigger] external_by_id@.contains_key(k) <==> (last_index_of(ids, k) >= 0
                        && !keys@.take(out@.len() as int).contains(k)),
                forall|k: u128|
                    #[trigger] external_by_id@.contains_key(k) ==> external_by_id@[k]
                        == xs[last_index_of(ids, k)],
                forall|a: int|
                    0 <= a < out@.len() ==> (#[trigger] out@[a]).model == ms[a] && out@[a].external_model
                        == xs[last_index_of(ids, keys@[a])],
            decreases models@.len(),
        {
            let a = out.len();
            let model = models.remove(0);
            let k = model.external_model_id;
            let ghost before = external_by_id@;
            proof {
                assert(keys@[a as int] == k);
                lemma_by_id(xs, k);
                lemma_last_index_of(ids, k);
                assert(keys@.take(a + 1) =~= keys@.take(a as int).push(k));
            }
            match external_by_id.remove(&k) {
                Some(external_model) => {
                    proof {
                        assert forall|b: int| 0 <= b < a implies keys@[b] != keys@[a as int] by {
                            assert(keys@.take(a as int)[b] == keys@[b]);
                        }
                        lemma_joinable_extend(keys@, ids, a as int);
                        let ghost t0 = keys@.take(a as int);
                        let ghost t1 = keys@.take(a + 1);
                        assert forall|k2: u128|
                            #[trigger] external_by_id@.contains_key(k2) <==> (last_index_of(ids, k2)
                                >= 0 && !t1.contains(k2)) by {
                            if t1.contains(k2) && k2 != k {
                                let b = choose|b: int| 0 <= b < t1.len() && #[trigger] t1[b] == k2;
                                assert(t0[b] == k2);
                            }
                            if t0.contains(k2) {
                                let b = choose|b: int| 0 <= b < t0.len() && #[trigger] t0[b] == k2;
                                assert(t1[b] == k2);
                            }
                            assert(k == t1[a as int]);
                        }
                    }
                    out.push(ModelWithExternalModel { model, external_model });
                },
                None => {
                    proof {
                        assert(!before.contains_key(k));
                        if joinable(keys@, ids) {
                            assert(ids.contains(keys@[a as int]));
                            let ghost t0 = keys@.take(a as int);
                            assert(t0.contains(k));
                            let b = choose|b: int| 0 <= b < t0.len() && #[trigger] t0[b] == k;
                            assert(keys@[b] == keys@[a as int]);
                            assert(false);
                        }
                    }
                    return Err(ModelQueryServiceError::MissingExternalModel);
                },
            }
        }
        assert(keys@.take(n as int) =~= keys@);
        proof {
            assert forall|i: int| 0 <= i < ms.len() implies keys@[i] == ms[i].external_model_id by {}
        }
        Ok(ModelListOutput { models: out, count, cursor })
    }
}

} // verus!

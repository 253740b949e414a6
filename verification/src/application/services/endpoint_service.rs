//! Issues the endpoints of a network addressable resource, reusing those
//! already issued for a target of the same name.

use vstd::prelude::*;
use crate::application::ports::endpoint::EndpointRepositoryError;
use crate::domain::Endpoint;

verus! {

#[derive(Debug)]
pub enum EndpointServiceError {
    /// The resource's endpoints could not be derived; the message says why.
    Domain(String),
    Repository(EndpointRepositoryError),
}

/// The position of the first endpoint whose target has this name, or -1.
pub open spec fn first_with_target(existing: Seq<Endpoint>, name: Seq<char>) -> int
    decreases existing.len(),
{
    if existing.len() == 0 {
        -1
    } else if existing[0].target_name@ == name {
        0
    } else {
        let r = first_with_target(existing.drop_first(), name);
        if r == -1 {
            -1
        } else {
            r + 1
        }
    }
}

proof fn lemma_first_with_target(existing: Seq<Endpoint>, name: Seq<char>)
    ensures
        -1 <= first_with_target(existing, name) < existing.len(),
        first_with_target(existing, name) >= 0 ==> existing[first_with_target(
            existing,
            name,
        )].target_name@ == name,
        forall|j: int|
            0 <= j < existing.len() && (first_with_target(existing, name) == -1 || j
                < first_with_target(existing, name)) ==> #[trigger] existing[j].target_name@ != name,
    decreases existing.len(),
{
    if existing.len() > 0 && existing[0].target_name@ != name {
        lemma_first_with_target(existing.drop_first(), name);
        assert forall|j: int|
            0 <= j < existing.len() && (first_with_target(existing, name) == -1 || j
                < first_with_target(existing, name)) implies #[trigger] existing[j].target_name@
            != name by {
            if j > 0 {
                assert(existing.drop_first()[j - 1] == existing[j]);
            }
        }
    }
}

/// For each candidate, whether an endpoint already issued for a target of its
/// name is reused (the first such one) or the candidate is issued.
pub open spec fn issuance_plan_spec(candidates: Seq<Endpoint>, existing: Seq<Endpoint>) -> Seq<
    Option<usize>,
> {
    Seq::new(
        candidates.len(),
        |i: int|
            if first_with_target(existing, candidates[i].target_name@) == -1 {
                None
            } else {
                Some(first_with_target(existing, candidates[i].target_name@) as usize)
            },
    )
}

pub struct EndpointService<R> {
    endpoint_repository: R,
}

impl<R> EndpointService<R> {
    pub closed spec fn repository_spec(&self) -> R {
        self.endpoint_repository
    }

    pub fn new(endpoint_repository: R) -> (s: Self)
        ensures
            s.repository_spec() == endpoint_repository,
    {
        EndpointService { endpoint_repository }
    }

    pub fn endpoint_repository(&self) -> (r: &R)
        ensures
            *r == self.repository_spec(),
    {
        &self.endpoint_repository
    }

    /// The position, among the endpoints already issued for the resource, of
    /// the first one whose target has this name.
    fn find_existing(existing: &Vec<Endpoint>, name: &String) -> (r: Option<usize>)
        ensures
            match r {
                Some(j) => j as int == first_with_target(existing@, name@),
                None => first_with_target(existing@, name@) == -1,
            },
    {
        proof {
            lemma_first_with_target(existing@, name@);
        }
        let mut j: usize = 0;
        while j < existing.len()
            invariant
                j <= existing@.len(),
                forall|b: int| 0 <= b < j ==> #[trigger] existing@[b].target_name@ != name@,
                -1 <= first_with_target(existing@, name@) < existing@.len(),
                first_with_target(existing@, name@) >= 0 ==> existing@[first_with_target(
                    existing@,
                    name@,
                )].target_name@ == name@,
                forall|b: int|
                    0 <= b < existing@.len() && (first_with_target(existing@, name@) == -1 || b
                        < first_with_target(existing@, name@)) ==> #[trigger] existing@[b].target_name@
                        != name@,
            decreases existing@.len() - j,
        {
            if existing[j].target_name == *name {
                return Some(j);
            }
            j = j + 1;
        }
        None
    }

    /// Decides, for each endpoint derived from the resource, whether the
    /// endpoint already issued for a target of the same name is reused
    /// (`Some` of its position in `existing`) or the candidate must be saved
    /// and issued (`None`).
    pub fn plan_issuance(candidates: &Vec<Endpoint>, existing: &Vec<Endpoint>) -> (plan: Vec<
        Option<usize>,
    >)
        ensures
            plan@ == issuance_plan_spec(candidates@, existing@),
    {
        let mut plan: Vec<Option<usize>> = Vec::new();
        let mut i: usize = 0;
        while i < candidates.len()
            invariant
                i <= candidates@.len(),
                plan@ == issuance_plan_spec(candidates@, existing@).take(i as int),
            decreases candidates@.len() - i,
        {
            let found = Self::find_existing(existing, &candidates[i].target_name);
            plan.push(found);
            i = i + 1;
            assert(plan@ =~= issuance_plan_spec(candidates@, existing@).take(i as int));
        }
        assert(plan@ =~= issuance_plan_spec(candidates@, existing@));
        plan
    }
}

/// Issuing again the endpoints of a resource whose every target already has
/// an endpoint saves nothing: every candidate reuses an issued endpoint.
pub proof fn lemma_reissue_saves_nothing(candidates: Seq<Endpoint>, existing: Seq<Endpoint>)
    requires
        forall|i: int|
            0 <= i < candidates.len() ==> exists|j: int|
                0 <= j < existing.len() && #[trigger] existing[j].target_name@
                    == (#[trigger] candidates[i]).target_name@,
    ensures
        forall|i: int|
            0 <= i < candidates.len() ==> #[trigger] issuance_plan_spec(candidates, existing)[i]
                is Some,
{
    assert forall|i: int| 0 <= i < candidates.len() implies #[trigger] issuance_plan_spec(
        candidates,
        existing,
    )[i] is Some by {
        let name = candidates[i].target_name@;
        lemma_first_with_target(existing, name);
        let j = choose|j: int| 0 <= j < existing.len() && #[trigger] existing[j].target_name@ == name;
        assert(existing[j].target_name@ == name);
    }
}

} // verus!

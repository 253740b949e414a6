//! References to the deployment strategies that can deploy a model, gathered
//! from the viable strategies that each platform client offers.
//!
//! Which strategies of a client are viable for a model is decided by the
//! domain; this module receives, for each client in order, either the viable
//! strategies or the reason they could not be resolved.

use vstd::prelude::*;
use crate::domain::{ClientStrategySet, DeploymentStrategyReference, Strategy};

verus! {

/// The name and platform that a reference records.
pub open spec fn reference_view(r: DeploymentStrategyReference) -> (Seq<char>, Seq<char>) {
    (r.name@, r.platform@)
}

/// The references, as names and platforms.
pub open spec fn references_view(refs: Seq<DeploymentStrategyReference>) -> Seq<
    (Seq<char>, Seq<char>),
> {
    refs.map_values(|r: DeploymentStrategyReference| reference_view(r))
}

/// A strategy as the name and platform that a reference to it records.
pub open spec fn strategy_reference(s: Strategy) -> (Seq<char>, Seq<char>) {
    (s.name@, s.platform@)
}

/// The references to the strategies of one client, in its order.
pub open spec fn set_references(strategies: Seq<Strategy>) -> Seq<(Seq<char>, Seq<char>)> {
    strategies.map_values(|s: Strategy| strategy_reference(s))
}

/// The references to the viable strategies of every client whose strategies
/// could be resolved, client after client; clients that failed add nothing.
pub open spec fn resolved_references(viable: Seq<Result<Vec<Strategy>, String>>) -> Seq<
    (Seq<char>, Seq<char>),
>
    decreases viable.len(),
{
    if viable.len() == 0 {
        Seq::empty()
    } else {
        resolved_references(viable.drop_last()) + match viable.last() {
            Ok(strategies) => set_references(strategies@),
            Err(_) => Seq::empty(),
        }
    }
}

/// The position of the first client whose strategies could not be resolved,
/// or -1 when every client's were.
pub open spec fn first_failure(viable: Seq<Result<Vec<Strategy>, String>>) -> int
    decreases viable.len(),
{
    if viable.len() == 0 {
        -1
    } else if viable[0] is Err {
        0
    } else {
        let r = first_failure(viable.drop_first());
        if r == -1 {
            -1
        } else {
            r + 1
        }
    }
}

proof fn lemma_first_failure(viable: Seq<Result<Vec<Strategy>, String>>)
    ensures
        -1 <= first_failure(viable) < viable.len(),
        first_failure(viable) >= 0 ==> viable[first_failure(viable)] is Err,
        forall|j: int|
            0 <= j < viable.len() && (first_failure(viable) == -1 || j < first_failure(viable))
                ==> #[trigger] viable[j] is Ok,
    decreases viable.len(),
{
    if viable.len() > 0 && viable[0] is Ok {
        lemma_first_failure(viable.drop_first());
        assert forall|j: int|
            0 <= j < viable.len() && (first_failure(viable) == -1 || j < first_failure(viable))
                implies #[trigger] viable[j] is Ok by {
            if j > 0 {
                assert(viable.drop_first()[j - 1] == viable[j]);
            }
        }
    }
}

/// A reference to a strategy, by its name and platform.
fn reference_to(s: &Strategy) -> (r: DeploymentStrategyReference)
    ensures
        reference_view(r) == strategy_reference(*s),
{
    DeploymentStrategyReference { name: s.name.clone(), platform: s.platform.clone() }
}

/// Gathers the references to the viable strategies of every client whose
/// strategies could be resolved, in client order and, within a client, in
/// the order of its strategies. Clients that failed are passed over.
pub fn gather_resolved_references(viable: &Vec<Result<Vec<Strategy>, String>>) -> (refs: Vec<
    DeploymentStrategyReference,
>)
    ensures
        references_view(refs@) == resolved_references(viable@),
{
    let mut refs: Vec<DeploymentStrategyReference> = Vec::new();
    let mut i: usize = 0;
    while i < viable.len()
        invariant
            i <= viable@.len(),
            references_view(refs@) == resolved_references(viable@.take(i as int)),
        decreases viable@.len() - i,
    {
        assert(viable@.take(i as int + 1).drop_last() =~= viable@.take(i as int));
        match &viable[i] {
            Ok(strategies) => {
                let ghost before = refs@;
                let mut j: usize = 0;
                while j < strategies.len()
                    invariant
                        j <= strategies@.len(),
                        references_view(refs@) == references_view(before) + set_references(
                            strategies@.take(j as int),
                        ),
                    decreases strategies@.len() - j,
                {
                    let r = reference_to(&strategies[j]);
                    let ghost prev = refs@;
                    refs.push(r);
                    proof {
                        assert(strategies@.take(j as int + 1) =~= strategies@.take(j as int).push(
                            strategies@[j as int],
                        ));
                        assert(references_view(refs@) =~= references_view(prev).push(
                            reference_view(r),
                        ));
                        assert(set_references(strategies@.take(j as int + 1)) =~= set_references(
                            strategies@.take(j as int),
                        ).push(strategy_reference(strategies@[j as int])));
                    }
                    j = j + 1;
                    assert(references_view(refs@) =~= references_view(before) + set_references(
                        strategies@.take(j as int),
                    ));
                }
                assert(strategies@.take(j as int) =~= strategies@);
            },
            Err(_) => {
                assert(resolved_references(viable@.take(i as int + 1)) =~= resolved_references(
                    viable@.take(i as int),
                ));
            },
        }
        i = i + 1;
    }
    assert(viable@.take(i as int) =~= viable@);
    refs
}

/// Gathers the references to the viable strategies of every client, in
/// client order; if the strategies of some client could not be resolved,
/// the reason given for the first such client is returned instead.
pub fn gather_all_references(viable: &Vec<Result<Vec<Strategy>, String>>) -> (r: Result<
    Vec<DeploymentStrategyReference>,
    String,
>)
    ensures
        first_failure(viable@) == -1 ==> (r matches Ok(refs) && references_view(refs@)
            == resolved_references(viable@)),
        first_failure(viable@) >= 0 ==> (r matches Err(reason) && viable@[first_failure(viable@)]
            == Err::<Vec<Strategy>, String>(reason)),
{
    proof {
        lemma_first_failure(viable@);
    }
    let mut i: usize = 0;
    while i < viable.len()
        invariant
            i <= viable@.len(),
            forall|j: int| 0 <= j < i ==> #[trigger] viable@[j] is Ok,
            -1 <= first_failure(viable@) < viable@.len(),
            first_failure(viable@) >= 0 ==> viable@[first_failure(viable@)] is Err,
            forall|j: int|
                0 <= j < viable@.len() && (first_failure(viable@) == -1 || j < first_failure(
                    viable@,
                )) ==> #[trigger] viable@[j] is Ok,
        decreases viable@.len() - i,
    {
        if let Err(reason) = &viable[i] {
            return Err(reason.clone());
        }
        i = i + 1;
    }
    Ok(gather_resolved_references(viable))
}

/// Every strategy that the clients offer, client after client.
pub open spec fn offered_strategies(sets: Seq<ClientStrategySet>) -> Seq<Strategy>
    decreases sets.len(),
{
    if sets.len() == 0 {
        Seq::empty()
    } else {
        offered_strategies(sets.drop_last()) + sets.last().strategies@
    }
}

fn copy_strategy(s: &Strategy) -> (c: Strategy)
    ensures
        c == *s,
{
    Strategy { name: s.name.clone(), platform: s.platform.clone() }
}

/// Every strategy that the clients offer, client after client, against
/// which a model's references are read.
pub fn all_offered_strategies(sets: &Vec<ClientStrategySet>) -> (all: Vec<Strategy>)
    ensures
        all@ == offered_strategies(sets@),
{
    let mut all: Vec<Strategy> = Vec::new();
    let mut i: usize = 0;
    while i < sets.len()
        invariant
            i <= sets@.len(),
            all@ == offered_strategies(sets@.take(i as int)),
        decreases sets@.len() - i,
    {
        assert(sets@.take(i as int + 1).drop_last() =~= sets@.take(i as int));
        let strategies = &sets[i].strategies;
        let ghost before = all@;
        let mut j: usize = 0;
        while j < strategies.len()
            invariant
                j <= strategies@.len(),
                all@ == before + strategies@.take(j as int),
            decreases strategies@.len() - j,
        {
            all.push(copy_strategy(&strategies[j]));
            j = j + 1;
            assert(all@ =~= before + strategies@.take(j as int));
        }
        assert(strategies@.take(j as int) =~= strategies@);
        i = i + 1;
    }
    assert(sets@.take(i as int) =~= sets@);
    all
}

} // verus!

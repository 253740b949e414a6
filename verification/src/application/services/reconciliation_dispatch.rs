//! The order in which a state drift event is reconciled: the deployment is
//! looked up and checked against the event, left alone when it already has
//! its desired state, its action resolved against the platforms' strategies,
//! the platform's client provided, the model's metadata found, and the
//! platform's outcome applied. Each step takes the reply to the request of
//! the step before and says what to ask for next, or how the dispatch ended.

use vstd::prelude::*;
use crate::application::ports::deployment::{
    ModelDeploymentPlatformReconcilerProviderError, ModelDeploymentRepositoryError,
};
use crate::application::ports::events::payloads::ModelDeploymentStateDriftDetectedPayload;
use crate::application::services::model_deployment_controller::{
    action_kind_spec, apply_outcome, dispatch_error_from_lookup, is_empty_result, kind_of,
    lookup_for_event, missing_model_text, missing_strategy_message, outcome_applied,
    require_deployed_model_metadata, resolve_reconciliation_action, strategy_offered,
    DispatchReconcilerResult, ReconciliationDispatchError,
};
use crate::application::services::model_deployment_service::{
    check_found_for_reconciliation, reconciliation_check_passes, FindForReconciliationInput,
    ModelDeploymentServiceError,
};
use crate::application::workflows::reconciliation::{ReconciliationAction, ReconciliationOutcome};
use crate::domain::{ClientStrategySet, ModelDeployment, ModelMetadata};
use crate::text::decimal_text;

verus! {

/// Where a dispatch stands, with what it has learned so far.
#[derive(Debug)]
pub enum DispatchState {
    /// Waiting for the deployment that the event names.
    Looking(FindForReconciliationInput),
    /// Waiting for the strategies that the platforms' clients offer.
    Resolving(ModelDeployment),
    /// Waiting for the client of the deployment's platform.
    Providing(ModelDeployment, ReconciliationAction),
    /// Waiting for the metadata of the deployed model.
    FindingMetadata(ModelDeployment, ReconciliationAction),
    /// Waiting for what the platform reports of the action.
    Reconciling(ModelDeployment),
    /// The dispatch has ended.
    Done,
}

/// What the dispatch asks of the ports next, or how it ended.
pub enum DispatchRequest<E> {
    /// Find the deployment of this id.
    FindDeployment(u128),
    /// List the strategies that every platform client offers.
    ListStrategies,
    /// Provide the client of this platform.
    ProvideClient(String),
    /// Find the metadata of the model of this author and name in this tenant.
    FindModelMetadata { author: String, name: String, tenant_id: String },
    /// Have the client carry out the action on the deployment being
    /// reconciled, with the model's metadata.
    Reconcile { action: ReconciliationAction, model_metadata: ModelMetadata },
    /// The dispatch ended so.
    Finished(Result<DispatchReconcilerResult<E>, ReconciliationDispatchError>),
}

/// What the ports answered.
#[derive(Debug)]
pub enum DispatchReply {
    DeploymentFound(Result<Option<ModelDeployment>, ModelDeploymentRepositoryError>),
    StrategiesListed(Vec<ClientStrategySet>),
    ClientProvided(Result<(), ModelDeploymentPlatformReconcilerProviderError>),
    ModelMetadataFound(Result<Option<ModelMetadata>, String>),
    Reconciled(ReconciliationOutcome),
}

/// The reply answers the request of the state's step.
pub open spec fn answers(state: DispatchState, reply: DispatchReply) -> bool {
    match (state, reply) {
        (DispatchState::Looking(_), DispatchReply::DeploymentFound(_)) => true,
        (DispatchState::Resolving(_), DispatchReply::StrategiesListed(_)) => true,
        (DispatchState::Providing(_, _), DispatchReply::ClientProvided(_)) => true,
        (DispatchState::FindingMetadata(_, _), DispatchReply::ModelMetadataFound(_)) => true,
        (DispatchState::Reconciling(_), DispatchReply::Reconciled(_)) => true,
        _ => false,
    }
}

/// How far a dispatch has come: each step moves it further, so that a
/// dispatch ends after at most five replies.
pub open spec fn stage(state: DispatchState) -> nat {
    match state {
        DispatchState::Looking(_) => 0,
        DispatchState::Resolving(_) => 1,
        DispatchState::Providing(_, _) => 2,
        DispatchState::FindingMetadata(_, _) => 3,
        DispatchState::Reconciling(_) => 4,
        DispatchState::Done => 5,
    }
}

/// What a dispatch fails with when a reply does not answer its request.
pub open spec fn unanswered_text() -> Seq<char> {
    "The reply does not answer the dispatch's request"@
}

/// Why a deployment found for an event no longer matches it.
pub open spec fn mismatch_text(input: FindForReconciliationInput, d: ModelDeployment) -> Seq<char> {
    if d.revision != input.revision {
        "Revision mismatch: Expected revision "@ + decimal_text(input.revision as nat)
            + ". Actual revision: "@ + decimal_text(d.revision as nat)
    } else if d.state != input.state {
        "State mismatch: Expected state "@ + input.state.name_spec() + ". Actual state: "@
            + d.state.name_spec()
    } else {
        "State mismatch: Expected state "@ + input.desired_state.name_spec() + ". Actual state: "@
            + d.desired_state.name_spec()
    }
}

/// The ended dispatch is empty: nothing changes and nothing is announced.
pub open spec fn finished_empty<E>(r: (DispatchState, DispatchRequest<E>)) -> bool {
    r.0 is Done && (r.1 matches DispatchRequest::Finished(Ok(res)) && is_empty_result(res))
}

/// The ended dispatch failed with this error.
pub open spec fn finished_with<E>(
    r: (DispatchState, DispatchRequest<E>),
    e: ReconciliationDispatchError,
) -> bool {
    r.0 is Done && r.1 == DispatchRequest::<E>::Finished(
        Err::<DispatchReconcilerResult<E>, ReconciliationDispatchError>(e),
    )
}

/// The first step: look up the deployment that the event names, at the
/// revision and in the states it records.
pub fn dispatch_start<E>(event: &ModelDeploymentStateDriftDetectedPayload) -> (r: (
    DispatchState,
    DispatchRequest<E>,
))
    ensures
        r.0 == DispatchState::Looking(
            FindForReconciliationInput {
                deployment_id: event.deployment_id,
                revision: event.deployment_revision,
                state: event.actual_state,
                desired_state: event.desired_state,
            },
        ),
        r.1 == DispatchRequest::<E>::FindDeployment(event.deployment_id),
        stage(r.0) == 0,
{
    let input = lookup_for_event(event);
    let id = input.deployment_id;
    (DispatchState::Looking(input), DispatchRequest::FindDeployment(id))
}

fn finish<E>(e: ReconciliationDispatchError) -> (r: (DispatchState, DispatchRequest<E>))
    ensures
        finished_with(r, e),
{
    (DispatchState::Done, DispatchRequest::Finished(Err(e)))
}

fn finish_empty<E>() -> (r: (DispatchState, DispatchRequest<E>))
    ensures
        finished_empty(r),
{
    (DispatchState::Done, DispatchRequest::Finished(Ok(DispatchReconcilerResult::new(None, Vec::new()))))
}

/// The next step of a dispatch, given the reply to the request of the step
/// before. A reply that does not answer that request, or one given to an
/// ended dispatch, fails the dispatch.
pub fn dispatch_step<E>(state: DispatchState, reply: DispatchReply) -> (r: (
    DispatchState,
    DispatchRequest<E>,
))
    ensures
        r.0 is Done || stage(r.0) > stage(state),
        r.1 is Finished <==> r.0 is Done,
        !answers(state, reply) ==> (r.0 is Done && (r.1 matches DispatchRequest::Finished(
            Err(ReconciliationDispatchError::ReconciliationFailed(m)),
        ) && m@ == unanswered_text())),
        // The lookup: a failed repository is a retrieval failure; a missing
        // or moved-on deployment makes the event stale; a deployment that
        // already has its desired state needs nothing; else the strategies
        // are listed.
        state matches DispatchState::Looking(input) ==> match reply {
            DispatchReply::DeploymentFound(Err(e)) => finished_with(
                r,
                ReconciliationDispatchError::ModelDeploymentRetrievalFailed(
                    ModelDeploymentServiceError::ModelDeploymentRepoError(e),
                ),
            ),
            DispatchReply::DeploymentFound(Ok(None)) => r.0 is Done && (r.1 matches DispatchRequest::Finished(
                Err(ReconciliationDispatchError::StaleEvent(m)),
            ) && m@ == "Deployment not found"@),
            DispatchReply::DeploymentFound(Ok(Some(d))) => if !reconciliation_check_passes(
                input,
                d,
            ) {
                r.0 is Done && (r.1 matches DispatchRequest::Finished(
                    Err(ReconciliationDispatchError::StaleEvent(m)),
                ) && m@ == mismatch_text(input, d))
            } else if d.is_state_synchronized_spec() {
                finished_empty(r)
            } else {
                r.0 == DispatchState::Resolving(d) && r.1 is ListStrategies
            },
            _ => true,
        },
        // The resolution: a strategy that the platform does not offer is an
        // error; no action ends the dispatch; an action asks for the
        // platform's client. A start hands the client no arguments.
        state matches DispatchState::Resolving(d) ==> match reply {
            DispatchReply::StrategiesListed(sets) => if d.is_state_synchronized_spec() {
                finished_empty(r)
            } else if d.deployment_strategy is Some && !strategy_offered(
                sets@,
                d.platform@,
                d.deployment_strategy->0@,
            ) {
                r.0 is Done && (r.1 matches DispatchRequest::Finished(
                    Err(ReconciliationDispatchError::MissingDeploymentStrategy(m)),
                ) && m@ == missing_strategy_message(d.deployment_strategy->0@))
            } else {
                match action_kind_spec(d.state, d.desired_state) {
                    None => finished_empty(r),
                    Some(k) => (r.0 matches DispatchState::Providing(d2, a) && d2 == d && kind_of(a)
                        == k && (a matches ReconciliationAction::Start { payload } ==> payload@.len()
                        == 0)) && r.1 == DispatchRequest::<E>::ProvideClient(d.platform),
                }
            },
            _ => true,
        },
        // The client: a platform without one ends the dispatch; else the
        // model's metadata is asked for.
        state matches DispatchState::Providing(d, a) ==> match reply {
            DispatchReply::ClientProvided(Err(e)) => finished_with(
                r,
                ReconciliationDispatchError::ReconciliationClientInitilizationFailed(e),
            ),
            DispatchReply::ClientProvided(Ok(())) => r.0 == DispatchState::FindingMetadata(d, a)
                && r.1 == DispatchRequest::<E>::FindModelMetadata {
                author: d.model.author,
                name: d.model.name,
                tenant_id: d.model.tenant_id,
            },
            _ => true,
        },
        // The metadata: missing metadata ends the dispatch; else the client
        // is asked to carry out the action.
        state matches DispatchState::FindingMetadata(d, a) ==> match reply {
            DispatchReply::ModelMetadataFound(Err(m)) => finished_with(
                r,
                ReconciliationDispatchError::ModelMetadataRetrievalFailed(m),
            ),
            DispatchReply::ModelMetadataFound(Ok(None)) => r.0 is Done && (r.1 matches DispatchRequest::Finished(
                Err(ReconciliationDispatchError::ModelMetadataRetrievalFailed(m)),
            ) && m@ == missing_model_text(d.model.author@, d.model.name@)),
            DispatchReply::ModelMetadataFound(Ok(Some(mm))) => r.0 == DispatchState::Reconciling(d)
                && r.1 == DispatchRequest::<E>::Reconcile { action: a, model_metadata: mm },
            _ => true,
        },
        // The outcome: applied to the deployment.
        state matches DispatchState::Reconciling(d) ==> match reply {
            DispatchReply::Reconciled(outcome) => r.0 is Done && (r.1 matches DispatchRequest::Finished(
                res,
            ) && outcome_applied(d, outcome, res)),
            _ => true,
        },
{
    match (state, reply) {
        (DispatchState::Looking(input), DispatchReply::DeploymentFound(found)) => {
            let found = match found {
                Ok(f) => f,
                Err(e) => {
                    return finish(
                        ReconciliationDispatchError::ModelDeploymentRetrievalFailed(
                            ModelDeploymentServiceError::ModelDeploymentRepoError(e),
                        ),
                    );
                },
            };
            match check_found_for_reconciliation(&input, found) {
                Err(e) => finish(dispatch_error_from_lookup(e)),
                Ok(d) => {
                    if d.is_state_synchronized() {
                        finish_empty()
                    } else {
                        (DispatchState::Resolving(d), DispatchRequest::ListStrategies)
                    }
                },
            }
        },
        (DispatchState::Resolving(d), DispatchReply::StrategiesListed(sets)) => {
            match resolve_reconciliation_action(&d, &sets, Vec::new()) {
                Err(e) => finish(e),
                Ok(None) => finish_empty(),
                Ok(Some(action)) => {
                    let platform = d.platform.clone();
                    (DispatchState::Providing(d, action), DispatchRequest::ProvideClient(platform))
                },
            }
        },
        (DispatchState::Providing(d, a), DispatchReply::ClientProvided(provided)) => {
            match provided {
                Err(e) => finish(ReconciliationDispatchError::ReconciliationClientInitilizationFailed(e)),
                Ok(()) => {
                    let author = d.model.author.clone();
                    let name = d.model.name.clone();
                    let tenant_id = d.model.tenant_id.clone();
                    (
                        DispatchState::FindingMetadata(d, a),
                        DispatchRequest::FindModelMetadata { author, name, tenant_id },
                    )
                },
            }
        },
        (DispatchState::FindingMetadata(d, a), DispatchReply::ModelMetadataFound(found)) => {
            match found {
                Err(m) => finish(ReconciliationDispatchError::ModelMetadataRetrievalFailed(m)),
                Ok(found) => match require_deployed_model_metadata(&d, found) {
                    Err(e) => finish(e),
                    Ok(mm) => (
                        DispatchState::Reconciling(d),
                        DispatchRequest::Reconcile { action: a, model_metadata: mm },
                    ),
                },
            }
        },
        (DispatchState::Reconciling(d), DispatchReply::Reconciled(outcome)) => {
            (DispatchState::Done, DispatchRequest::Finished(apply_outcome(d, outcome)))
        },
        (_, _) => finish(ReconciliationDispatchError::ReconciliationFailed(
            "The reply does not answer the dispatch's request".to_owned(),
        )),
    }
}

} // verus!

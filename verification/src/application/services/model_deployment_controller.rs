//! The controller that reconciles model deployments: it decides what a
//! platform must do to bring a deployment to its desired state, and turns
//! what the platform reports into the deployment's next revision and events.

use vstd::prelude::*;
use crate::application::ports::deployment::ModelDeploymentPlatformReconcilerProviderError;
use crate::application::ports::events::payloads::{
    ModelDeploymentDeletedPayload, ModelDeploymentStartedPayload,
    ModelDeploymentStateDriftDetectedPayload, ModelDeploymentStoppedPayload, Payload,
};
use crate::application::services::deployment_argument_service::DecryptedArgument;
use crate::application::services::model_deployment_service::{
    FindForReconciliationInput, ModelDeploymentServiceError,
};
use crate::application::workflows::reconciliation::{ReconciliationAction, ReconciliationOutcome};
use crate::domain::{
    copy_message, interface_after, metadata_after, replicas_after, ClientStrategySet, DesiredState,
    ModelDeployment, ModelDeploymentError, ModelDeploymentInterfaceDelta,
    ModelDeploymentMetadataDelta, ModelMetadata, ReplicaGroupDelta, State,
};
use crate::text::{framed, prefixed};

verus! {

#[derive(Debug)]
pub enum ReconciliationDispatchError {
    /// The event that triggered the reconciliation no longer describes the deployment.
    StaleEvent(String),
    ModelDeploymentRetrievalFailed(ModelDeploymentServiceError),
    ModelMetadataRetrievalFailed(String),
    ModelDeploymentDomainInvariantViolation(ModelDeploymentError),
    ReconciliationClientInitilizationFailed(ModelDeploymentPlatformReconcilerProviderError),
    /// The platform failed to reconcile; the message says why.
    ReconciliationFailed(String),
    MissingDeploymentStrategy(String),
}

#[derive(Debug)]
pub enum FinishReconciliationError {
    ModelDeploymentUpdateFailed(String),
    /// An event could not be published; the message says why.
    EventPublicationFailed(String),
}

/// What a reconciliation produced: the deployment's next revision, if any,
/// the events to publish, and the event that caused it.
pub struct DispatchReconcilerResult<E> {
    pub deployment: Option<ModelDeployment>,
    pub events: Vec<Payload>,
    caused_by_event: Option<E>,
}

impl<E> DispatchReconcilerResult<E> {
    pub closed spec fn caused_by_spec(&self) -> Option<E> {
        self.caused_by_event
    }

    pub closed spec fn deployment_spec(&self) -> Option<ModelDeployment> {
        self.deployment
    }

    pub closed spec fn events_spec(&self) -> Vec<Payload> {
        self.events
    }

    pub fn new(deployment: Option<ModelDeployment>, events: Vec<Payload>) -> (r: Self)
        ensures
            r.deployment_spec() == deployment,
            r.events_spec() == events,
            r.caused_by_spec() == None::<E>,
    {
        DispatchReconcilerResult { deployment, events, caused_by_event: None }
    }

    /// Records the event that caused this reconciliation.
    pub fn correlate_event(&mut self, event: E)
        ensures
            final(self).deployment_spec() == old(self).deployment_spec(),
            final(self).events_spec() == old(self).events_spec(),
            final(self).caused_by_spec() == Some(event),
    {
        self.caused_by_event = Some(event);
    }

    pub fn caused_by_event(&self) -> (e: &Option<E>)
        ensures
            *e == self.caused_by_spec(),
    {
        &self.caused_by_event
    }
}

/// The controller's ports: the strategy provider, the deployment service,
/// the model metadata repository, the event publisher and the provider of
/// platform clients.
pub struct ModelDeploymentController<P, S, M, E, C> {
    deployment_strategy_provider: P,
    model_deployment_service: S,
    model_metadata_repo: M,
    event_publisher: E,
    client_provider: C,
}

impl<P, S, M, E, C> ModelDeploymentController<P, S, M, E, C> {
    pub closed spec fn parts(&self) -> (P, S, M, E, C) {
        (
            self.deployment_strategy_provider,
            self.model_deployment_service,
            self.model_metadata_repo,
            self.event_publisher,
            self.client_provider,
        )
    }

    pub fn new(
        deployment_strategy_provider: P,
        model_deployment_service: S,
        model_metadata_repo: M,
        event_publisher: E,
        client_provider: C,
    ) -> (c: Self)
        ensures
            c.parts() == (
                deployment_strategy_provider,
                model_deployment_service,
                model_metadata_repo,
                event_publisher,
                client_provider,
            ),
    {
        ModelDeploymentController {
            deployment_strategy_provider,
            model_deployment_service,
            model_metadata_repo,
            event_publisher,
            client_provider,
        }
    }

    pub fn deployment_strategy_provider(&self) -> (r: &P)
        ensures
            *r == self.parts().0,
    {
        &self.deployment_strategy_provider
    }

    pub fn model_deployment_service(&self) -> (r: &S)
        ensures
            *r == self.parts().1,
    {
        &self.model_deployment_service
    }

    pub fn model_metadata_repo(&self) -> (r: &M)
        ensures
            *r == self.parts().2,
    {
        &self.model_metadata_repo
    }

    pub fn event_publisher(&self) -> (r: &E)
        ensures
            *r == self.parts().3,
    {
        &self.event_publisher
    }

    pub fn client_provider(&self) -> (r: &C)
        ensures
            *r == self.parts().4,
    {
        &self.client_provider
    }
}

/// How the lookup of a deployment for reconciliation failed, as the
/// controller reports it: a deployment that is gone or has moved on makes
/// the triggering event stale; any other failure is a retrieval failure.
pub open spec fn is_stale_cause(err: ModelDeploymentServiceError) -> bool {
    match err {
        ModelDeploymentServiceError::DeploymentNotFound(_) => true,
        ModelDeploymentServiceError::RevisionMismatch(_, _) => true,
        ModelDeploymentServiceError::StateMismatch(_, _) => true,
        ModelDeploymentServiceError::DesiredStateMismatch(_, _) => true,
        _ => false,
    }
}

pub open spec fn stale_message(err: ModelDeploymentServiceError) -> Seq<char> {
    match err {
        ModelDeploymentServiceError::DeploymentNotFound(_) => "Deployment not found"@,
        ModelDeploymentServiceError::RevisionMismatch(e, a) => "Revision mismatch: Expected revision "@
            + e@ + ". Actual revision: "@ + a@,
        ModelDeploymentServiceError::StateMismatch(e, a) => "State mismatch: Expected state "@ + e@
            + ". Actual state: "@ + a@,
        ModelDeploymentServiceError::DesiredStateMismatch(e, a) => "State mismatch: Expected state "@
            + e@ + ". Actual state: "@ + a@,
        _ => Seq::empty(),
    }
}

fn mismatch_message(prefix: &str, middle: &str, expected: String, actual: String) -> (s: String)
    ensures
        s@ == prefix@ + expected@ + middle@ + actual@,
{
    let mut s = prefix.to_owned();
    s.append(expected.as_str());
    s.append(middle);
    s.append(actual.as_str());
    s
}

/// Maps a failed lookup for reconciliation to the controller's error.
pub fn dispatch_error_from_lookup(err: ModelDeploymentServiceError) -> (r:
    ReconciliationDispatchError)
    ensures
        is_stale_cause(err) ==> (r matches ReconciliationDispatchError::StaleEvent(m) && m@
            == stale_message(err)),
        !is_stale_cause(err) ==> r == ReconciliationDispatchError::ModelDeploymentRetrievalFailed(
            err,
        ),
{
    match err {
        ModelDeploymentServiceError::DeploymentNotFound(_) => ReconciliationDispatchError::StaleEvent(
            "Deployment not found".to_owned(),
        ),
        ModelDeploymentServiceError::RevisionMismatch(e, a) => ReconciliationDispatchError::StaleEvent(
            mismatch_message("Revision mismatch: Expected revision ", ". Actual revision: ", e, a),
        ),
        ModelDeploymentServiceError::StateMismatch(e, a) => ReconciliationDispatchError::StaleEvent(
            mismatch_message("State mismatch: Expected state ", ". Actual state: ", e, a),
        ),
        ModelDeploymentServiceError::DesiredStateMismatch(e, a) => {
            ReconciliationDispatchError::StaleEvent(
                mismatch_message("State mismatch: Expected state ", ". Actual state: ", e, a),
            )
        },
        other => ReconciliationDispatchError::ModelDeploymentRetrievalFailed(other),
    }
}

/// The kind of action that brings a deployment from `state` towards `desired`.
#[derive(Clone, Copy, Debug, PartialEq, Eq, Structural)]
pub enum ActionKind {
    Start,
    Stop,
    Observe,
    Undeploy,
}

pub open spec fn action_kind_spec(state: State, desired: DesiredState) -> Option<ActionKind> {
    match (state, desired) {
        (State::Unknown, _) => Some(ActionKind::Observe),
        (State::NotDeployed, DesiredState::Running) => Some(ActionKind::Start),
        (_, DesiredState::NotDeployed) => Some(ActionKind::Undeploy),
        (State::Stopped, DesiredState::Running) => Some(ActionKind::Start),
        (State::Failed, DesiredState::Running) => Some(ActionKind::Start),
        (State::Blocked, DesiredState::Running) => Some(ActionKind::Start),
        (State::Running, DesiredState::Stopped) => Some(ActionKind::Stop),
        _ => None,
    }
}

/// The state in which a completed action leaves a deployment: the one that
/// the outcome reporting it records.
pub open spec fn completed_state(kind: ActionKind) -> Option<State> {
    match kind {
        ActionKind::Start => Some(State::Running),
        ActionKind::Stop => Some(State::Stopped),
        ActionKind::Undeploy => Some(State::NotDeployed),
        ActionKind::Observe => None,
    }
}

/// Every action but observation leads to the desired state: once the
/// platform reports it done, the deployment's state is the one it was asked
/// to reach, so that resolving its action again finds none.
pub proof fn lemma_completed_action_reaches_desired_state(
    deployment: ModelDeployment,
    kind: ActionKind,
)
    requires
        action_kind_spec(deployment.state, deployment.desired_state) == Some(kind),
        kind != ActionKind::Observe,
    ensures
        completed_state(kind) matches Some(s) && (ModelDeployment {
            state: s,
            ..deployment
        }).is_state_synchronized_spec(),
{
}

/// A deployment is synchronized exactly when it is in the state it was asked
/// for: running when asked to run, stopped when asked to stop, not deployed
/// when asked to be undeployed. A deployment whose state is unknown, that
/// failed or that is blocked never is.
pub proof fn law_synchronized_exactly_when_desired_state_reached(deployment: ModelDeployment)
    ensures
        deployment.is_state_synchronized_spec() <==> ((deployment.state == State::Running
            && deployment.desired_state == DesiredState::Running) || (deployment.state
            == State::Stopped && deployment.desired_state == DesiredState::Stopped) || (
        deployment.state == State::NotDeployed && deployment.desired_state
            == DesiredState::NotDeployed)),
        deployment.state == State::Unknown ==> !deployment.is_state_synchronized_spec(),
        deployment.state == State::Failed ==> !deployment.is_state_synchronized_spec(),
        deployment.state == State::Blocked ==> !deployment.is_state_synchronized_spec(),
{
}

/// The action table of reconciliation. A deployment whose state is unknown
/// is observed first. One asked to run that is not deployed, stopped, failed
/// or blocked is started; one asked to stop that runs is stopped; one asked
/// to be undeployed is undeployed. A deployment asked to stop that does not
/// run is left as it is.
pub proof fn law_reconciliation_action_table(state: State, desired: DesiredState)
    ensures
        state == State::Unknown ==> action_kind_spec(state, desired) == Some(ActionKind::Observe),
        desired == DesiredState::Running && (state == State::NotDeployed || state == State::Stopped
            || state == State::Failed || state == State::Blocked) ==> action_kind_spec(
            state,
            desired,
        ) == Some(ActionKind::Start),
        desired == DesiredState::NotDeployed && state != State::Unknown ==> action_kind_spec(
            state,
            desired,
        ) == Some(ActionKind::Undeploy),
        desired == DesiredState::Stopped && state == State::Running ==> action_kind_spec(
            state,
            desired,
        ) == Some(ActionKind::Stop),
        desired == DesiredState::Stopped && state != State::Running && state != State::Unknown
            ==> action_kind_spec(state, desired) is None,
        desired == DesiredState::Running && state == State::Running ==> action_kind_spec(
            state,
            desired,
        ) is None,
{
}

/// A deployment asked to run that is not deployed, stopped, failed or
/// blocked is not synchronized, and the action resolved for it is a start.
pub proof fn law_asked_to_run_is_started(deployment: ModelDeployment)
    requires
        deployment.desired_state == DesiredState::Running,
        deployment.state == State::NotDeployed || deployment.state == State::Stopped
            || deployment.state == State::Failed || deployment.state == State::Blocked,
    ensures
        !deployment.is_state_synchronized_spec(),
        action_kind_spec(deployment.state, deployment.desired_state) == Some(ActionKind::Start),
{
    law_synchronized_exactly_when_desired_state_reached(deployment);
    law_reconciliation_action_table(deployment.state, deployment.desired_state);
}

pub open spec fn kind_of(action: ReconciliationAction) -> ActionKind {
    match action {
        ReconciliationAction::Start { .. } => ActionKind::Start,
        ReconciliationAction::Stop => ActionKind::Stop,
        ReconciliationAction::Observe => ActionKind::Observe,
        ReconciliationAction::Undeploy => ActionKind::Undeploy,
    }
}

/// The position of the first strategy set of this platform, or -1.
pub open spec fn first_set_for(sets: Seq<ClientStrategySet>, platform: Seq<char>) -> int
    decreases sets.len(),
{
    if sets.len() == 0 {
        -1
    } else if sets[0].platform@ == platform {
        0
    } else {
        let r = first_set_for(sets.drop_first(), platform);
        if r == -1 {
            -1
        } else {
            r + 1
        }
    }
}

proof fn lemma_first_set_for(sets: Seq<ClientStrategySet>, platform: Seq<char>)
    ensures
        -1 <= first_set_for(sets, platform) < sets.len(),
        first_set_for(sets, platform) >= 0 ==> sets[first_set_for(sets, platform)].platform@
            == platform,
        forall|j: int|
            0 <= j < sets.len() && (first_set_for(sets, platform) == -1 || j < first_set_for(
                sets,
                platform,
            )) ==> #[trigger] sets[j].platform@ != platform,
    decreases sets.len(),
{
    if sets.len() > 0 && sets[0].platform@ != platform {
        lemma_first_set_for(sets.drop_first(), platform);
        assert forall|j: int|
            0 <= j < sets.len() && (first_set_for(sets, platform) == -1 || j < first_set_for(
                sets,
                platform,
            )) implies #[trigger] sets[j].platform@ != platform by {
            if j > 0 {
                assert(sets.drop_first()[j - 1] == sets[j]);
            }
        }
    }
}

/// The strategy that a deployment refers to is offered by the first client
/// of its platform.
pub open spec fn strategy_offered(
    sets: Seq<ClientStrategySet>,
    platform: Seq<char>,
    name: Seq<char>,
) -> bool {
    let i = first_set_for(sets, platform);
    i >= 0 && exists|j: int|
        0 <= j < sets[i].strategies@.len() && #[trigger] sets[i].strategies@[j].name@ == name
}

/// A strategy is offered for a platform exactly when the first strategy set
/// of that platform holds a strategy of that name: no platform set, no
/// strategy; a later set of the same platform is not consulted.
pub proof fn law_strategy_offered_by_first_set_of_platform(
    sets: Seq<ClientStrategySet>,
    platform: Seq<char>,
    name: Seq<char>,
    i: int,
)
    ensures
        (forall|j: int| 0 <= j < sets.len() ==> #[trigger] sets[j].platform@ != platform)
            ==> !strategy_offered(sets, platform, name),
        0 <= i < sets.len() && sets[i].platform@ == platform && (forall|j: int|
            0 <= j < i ==> #[trigger] sets[j].platform@ != platform) ==> (strategy_offered(
            sets,
            platform,
            name,
        ) <==> exists|k: int|
            0 <= k < sets[i].strategies@.len() && #[trigger] sets[i].strategies@[k].name@ == name),
{
    lemma_first_set_for(sets, platform);
    let f = first_set_for(sets, platform);
    if 0 <= i < sets.len() && sets[i].platform@ == platform && (forall|j: int|
        0 <= j < i ==> #[trigger] sets[j].platform@ != platform) {
        if f == -1 {
            assert(sets[i].platform@ != platform);
        } else if f < i {
            assert(sets[f].platform@ != platform);
        } else if f > i {
            assert(sets[i].platform@ != platform);
        }
    }
    if f >= 0 {
        assert(sets[f].platform@ == platform);
    }
}

pub open spec fn missing_strategy_message(name: Seq<char>) -> Seq<char> {
    "During reconciliation action resolution, the referenced deployment strategy '"@ + name
        + "' was not found"@
}

fn strategy_is_offered(sets: &Vec<ClientStrategySet>, platform: &String, name: &String) -> (b: bool)
    ensures
        b == strategy_offered(sets@, platform@, name@),
{
    proof {
        lemma_first_set_for(sets@, platform@);
    }
    let mut i: usize = 0;
    while i < sets.len()
        invariant
            i <= sets@.len(),
            forall|b: int| 0 <= b < i ==> #[trigger] sets@[b].platform@ != platform@,
            -1 <= first_set_for(sets@, platform@) < sets@.len(),
            first_set_for(sets@, platform@) >= 0 ==> sets@[first_set_for(
                sets@,
                platform@,
            )].platform@ == platform@,
            forall|b: int|
                0 <= b < sets@.len() && (first_set_for(sets@, platform@) == -1 || b
                    < first_set_for(sets@, platform@)) ==> #[trigger] sets@[b].platform@
                    != platform@,
        decreases sets@.len() - i,
    {
        if sets[i].platform == *platform {
            assert(first_set_for(sets@, platform@) == i);
            let strategies = &sets[i].strategies;
            let mut j: usize = 0;
            while j < strategies.len()
                invariant
                    j <= strategies@.len(),
                    i < sets@.len(),
                    first_set_for(sets@, platform@) == i,
                    strategies@ == sets@[i as int].strategies@,
                    forall|c: int| 0 <= c < j ==> #[trigger] strategies@[c].name@ != name@,
                decreases strategies@.len() - j,
            {
                if strategies[j].name == *name {
                    assert(sets@[i as int].strategies@[j as int].name@ == name@);
                    return true;
                }
                j = j + 1;
            }
            return false;
        }
        i = i + 1;
    }
    false
}

/// Decides what must be done to bring the deployment to its desired state:
/// nothing once it is there; an error when it refers to a strategy that the
/// first client of its platform does not offer; otherwise the action for its
/// observed and desired states, a start carrying `payload`, the decrypted
/// arguments of the deployment.
pub fn resolve_reconciliation_action(
    deployment: &ModelDeployment,
    strategy_sets: &Vec<ClientStrategySet>,
    payload: Vec<DecryptedArgument>,
) -> (r: Result<Option<ReconciliationAction>, ReconciliationDispatchError>)
    ensures
        deployment.is_state_synchronized_spec() ==> r == Ok::<
            Option<ReconciliationAction>,
            ReconciliationDispatchError,
        >(None),
        !deployment.is_state_synchronized_spec() ==> match deployment.deployment_strategy {
            Some(name) if !strategy_offered(strategy_sets@, deployment.platform@, name@) => {
                r matches Err(ReconciliationDispatchError::MissingDeploymentStrategy(m)) && m@
                    == missing_strategy_message(name@)
            },
            _ => r matches Ok(a) && match a {
                None => action_kind_spec(deployment.state, deployment.desired_state) is None,
                Some(action) => action_kind_spec(deployment.state, deployment.desired_state)
                    == Some(kind_of(action)) && (action matches ReconciliationAction::Start {
                    payload: p,
                } ==> p == payload),
            },
        },
{
    if deployment.is_state_synchronized() {
        return Ok(None);
    }
    match &deployment.deployment_strategy {
        Some(name) => {
            if !strategy_is_offered(strategy_sets, &deployment.platform, name) {
                let mut m = "During reconciliation action resolution, the referenced deployment strategy '".to_owned();
                m.append(name.as_str());
                m.append("' was not found");
                return Err(ReconciliationDispatchError::MissingDeploymentStrategy(m));
            }
        },
        None => {},
    }
    let action = match (deployment.state, deployment.desired_state) {
        (State::Unknown, _) => Some(ReconciliationAction::Observe),
        (State::NotDeployed, DesiredState::Running) => Some(ReconciliationAction::Start { payload }),
        (_, DesiredState::NotDeployed) => Some(ReconciliationAction::Undeploy),
        (State::Stopped, DesiredState::Running) => Some(ReconciliationAction::Start { payload }),
        (State::Failed, DesiredState::Running) => Some(ReconciliationAction::Start { payload }),
        (State::Blocked, DesiredState::Running) => Some(ReconciliationAction::Start { payload }),
        (State::Running, DesiredState::Stopped) => Some(ReconciliationAction::Stop),
        _ => None,
    };
    Ok(action)
}

/// The state that a reported outcome puts the deployment in, if it changes it.
pub open spec fn outcome_state(outcome: ReconciliationOutcome) -> Option<State> {
    match outcome {
        ReconciliationOutcome::Observed(p) => Some(p.state),
        ReconciliationOutcome::Started(_) => Some(State::Running),
        ReconciliationOutcome::Stopped(_) => Some(State::Stopped),
        ReconciliationOutcome::Undeployed(_) => Some(State::NotDeployed),
        _ => None,
    }
}

/// The changes of metadata, interface and replicas that an outcome reports.
pub open spec fn outcome_deltas(outcome: ReconciliationOutcome) -> (
    Option<ModelDeploymentMetadataDelta>,
    Option<ModelDeploymentInterfaceDelta>,
    Option<ReplicaGroupDelta>,
) {
    match outcome {
        ReconciliationOutcome::Observed(p) => (p.metadata, p.interface, p.replicas),
        ReconciliationOutcome::Started(p) => (p.metadata, p.interface, p.replicas),
        ReconciliationOutcome::Stopped(p) => (p.metadata, p.interface, p.replicas),
        ReconciliationOutcome::Undeployed(p) => (p.metadata, None, None),
        _ => (None, None, None),
    }
}

/// The deployment's next revision after an outcome that puts it in `state`:
/// the state and message reported, and the reported changes applied.
pub open spec fn revised_by(deployment: ModelDeployment, outcome: ReconciliationOutcome, state: State) -> ModelDeployment {
    let deltas = outcome_deltas(outcome);
    ModelDeployment {
        revision: (deployment.revision + 1) as u32,
        state,
        last_message: outcome_message(outcome),
        metadata: metadata_after(deployment.metadata, deltas.0),
        interface: interface_after(deployment.interface, deltas.1),
        replicas: replicas_after(deployment.replicas, deltas.2),
        ..deployment
    }
}

pub open spec fn outcome_message(outcome: ReconciliationOutcome) -> Option<String> {
    match outcome {
        ReconciliationOutcome::Observed(p) => p.message,
        ReconciliationOutcome::Started(p) => p.message,
        ReconciliationOutcome::Stopped(p) => p.message,
        ReconciliationOutcome::Undeployed(p) => p.message,
        ReconciliationOutcome::Failed(p) => p.message,
        ReconciliationOutcome::Unknown(p) => p.message,
        ReconciliationOutcome::NoOp => None,
    }
}

/// The event that announces what a reported outcome did to `deployment`; it
/// carries the revision that was reconciled.
pub open spec fn outcome_event(deployment: ModelDeployment, outcome: ReconciliationOutcome) -> Option<
    Payload,
> {
    match outcome {
        ReconciliationOutcome::Observed(p) => Some(
            Payload::ModelDeploymentStateDriftDetectedPayload(
                ModelDeploymentStateDriftDetectedPayload {
                    deployment_id: deployment.id,
                    deployment_revision: deployment.revision,
                    actual_state: p.state,
                    desired_state: deployment.desired_state,
                    message: p.message,
                },
            ),
        ),
        ReconciliationOutcome::Started(p) => Some(
            Payload::ModelDeploymentStartedPayload(
                ModelDeploymentStartedPayload {
                    deployment_id: deployment.id,
                    deployment_revision: deployment.revision,
                    message: p.message,
                },
            ),
        ),
        ReconciliationOutcome::Stopped(p) => Some(
            Payload::ModelDeploymentStoppedPayload(
                ModelDeploymentStoppedPayload {
                    deployment_id: deployment.id,
                    deployment_revision: deployment.revision,
                    message: p.message,
                },
            ),
        ),
        ReconciliationOutcome::Undeployed(p) => Some(
            Payload::ModelDeploymentDeletedPayload(
                ModelDeploymentDeletedPayload {
                    deployment_id: deployment.id,
                    deployment_revision: deployment.revision,
                    message: p.message,
                },
            ),
        ),
        _ => None,
    }
}

/// A result that changes nothing and announces nothing.
pub open spec fn is_empty_result<E>(res: DispatchReconcilerResult<E>) -> bool {
    res.deployment_spec() is None && res.events_spec()@.len() == 0 && res.caused_by_spec() is None
}

/// What the outcome that a platform reported makes of the deployment: an
/// outcome that changes no state gives an empty result; one that does gives
/// the deployment's next revision and the event announcing it, unless the
/// revisions are exhausted.
pub open spec fn outcome_applied<E>(
    deployment: ModelDeployment,
    outcome: ReconciliationOutcome,
    r: Result<DispatchReconcilerResult<E>, ReconciliationDispatchError>,
) -> bool {
    match outcome_state(outcome) {
        None => r matches Ok(res) && is_empty_result(res),
        Some(s) => if deployment.revision == u32::MAX {
            r matches Err(ReconciliationDispatchError::ModelDeploymentDomainInvariantViolation(_))
        } else {
            r matches Ok(res) && res.caused_by_spec() is None && res.deployment_spec() == Some(
                revised_by(deployment, outcome, s),
            ) && res.events_spec()@ == seq![outcome_event(deployment, outcome).unwrap()]
        },
    }
}

/// The revised deployment takes each change that was reported as a
/// replacement and keeps the rest: its metadata, interface and replicas are
/// the reported ones where a replacement was reported, and its own otherwise.
pub open spec fn reported_changes_taken(
    before: ModelDeployment,
    after: ModelDeployment,
    metadata: Option<ModelDeploymentMetadataDelta>,
    interface: Option<ModelDeploymentInterfaceDelta>,
    replicas: Option<ReplicaGroupDelta>,
) -> bool {
    &&& (metadata matches Some(ModelDeploymentMetadataDelta::Replace(m)) ==> after.metadata == Some(
        m,
    ))
    &&& (!(metadata matches Some(ModelDeploymentMetadataDelta::Replace(_))) ==> after.metadata
        == before.metadata)
    &&& (interface matches Some(ModelDeploymentInterfaceDelta::Replace(i)) ==> after.interface
        == Some(i))
    &&& (!(interface matches Some(ModelDeploymentInterfaceDelta::Replace(_))) ==> after.interface
        == before.interface)
    &&& (replicas matches Some(ReplicaGroupDelta::Replace(g)) ==> after.replicas == g)
    &&& (!(replicas matches Some(ReplicaGroupDelta::Replace(_))) ==> after.replicas
        == before.replicas)
}

/// The next revision of a deployment, in `state`, with `message` recorded,
/// that is otherwise the same deployment.
pub open spec fn next_revision_in(
    before: ModelDeployment,
    after: ModelDeployment,
    state: State,
    message: Option<String>,
) -> bool {
    &&& after.revision == before.revision + 1
    &&& after.state == state
    &&& after.last_message == message
    &&& after.id == before.id
    &&& after.desired_state == before.desired_state
    &&& after.model == before.model
    &&& after.platform == before.platform
    &&& after.tenant_id == before.tenant_id
    &&& after.owner == before.owner
    &&& after.deployment_strategy == before.deployment_strategy
}

/// What applying each kind of outcome does, in terms of the outcome's own
/// fields. An observation puts the deployment in the observed state, a start
/// in Running, a stop in Stopped, each taking the metadata, interface and
/// replicas it reports; an undeployment puts it in NotDeployed, taking the
/// metadata it reports and keeping interface and replicas. Failures, unknown
/// states and no-ops change nothing and announce nothing. Each revision is
/// announced by one event of its kind, carrying the reconciled revision.
pub proof fn law_outcome_changes_are_applied<E>(
    deployment: ModelDeployment,
    outcome: ReconciliationOutcome,
    r: Result<DispatchReconcilerResult<E>, ReconciliationDispatchError>,
)
    requires
        outcome_applied(deployment, outcome, r),
        deployment.revision < u32::MAX,
    ensures
        match outcome {
            ReconciliationOutcome::Observed(p) => r matches Ok(res) && res.deployment_spec() matches Some(
                n,
            ) && next_revision_in(deployment, n, p.state, p.message) && reported_changes_taken(
                deployment,
                n,
                p.metadata,
                p.interface,
                p.replicas,
            ) && res.events_spec()@ == seq![
                Payload::ModelDeploymentStateDriftDetectedPayload(
                    ModelDeploymentStateDriftDetectedPayload {
                        deployment_id: deployment.id,
                        deployment_revision: deployment.revision,
                        actual_state: p.state,
                        desired_state: deployment.desired_state,
                        message: p.message,
                    },
                ),
            ],
            ReconciliationOutcome::Started(p) => r matches Ok(res) && res.deployment_spec() matches Some(
                n,
            ) && next_revision_in(deployment, n, State::Running, p.message)
                && reported_changes_taken(deployment, n, p.metadata, p.interface, p.replicas)
                && res.events_spec()@ == seq![
                Payload::ModelDeploymentStartedPayload(
                    ModelDeploymentStartedPayload {
                        deployment_id: deployment.id,
                        deployment_revision: deployment.revision,
                        message: p.message,
                    },
                ),
            ],
            ReconciliationOutcome::Stopped(p) => r matches Ok(res) && res.deployment_spec() matches Some(
                n,
            ) && next_revision_in(deployment, n, State::Stopped, p.message)
                && reported_changes_taken(deployment, n, p.metadata, p.interface, p.replicas)
                && res.events_spec()@ == seq![
                Payload::ModelDeploymentStoppedPayload(
                    ModelDeploymentStoppedPayload {
                        deployment_id: deployment.id,
                        deployment_revision: deployment.revision,
                        message: p.message,
                    },
                ),
            ],
            ReconciliationOutcome::Undeployed(p) => r matches Ok(res) && res.deployment_spec() matches Some(
                n,
            ) && next_revision_in(deployment, n, State::NotDeployed, p.message)
                && reported_changes_taken(deployment, n, p.metadata, None, None)
                && res.events_spec()@ == seq![
                Payload::ModelDeploymentDeletedPayload(
                    ModelDeploymentDeletedPayload {
                        deployment_id: deployment.id,
                        deployment_revision: deployment.revision,
                        message: p.message,
                    },
                ),
            ],
            _ => r matches Ok(res) && res.deployment_spec() is None && res.events_spec()@.len() == 0,
        },
{
}

/// Turns what the platform reported into the deployment's next revision and
/// the event that announces it. An outcome that changes no state (no
/// operation, a failure or an unknown state reported) leaves the deployment
/// as it is and announces nothing.
pub fn apply_outcome<E>(deployment: ModelDeployment, outcome: ReconciliationOutcome) -> (r: Result<
    DispatchReconcilerResult<E>,
    ReconciliationDispatchError,
>)
    ensures
        outcome_applied(deployment, outcome, r),
{
    let id = deployment.id;
    let revision = deployment.revision;
    let desired_state = deployment.desired_state;
    let (state, message, event, deltas) = match outcome {
        ReconciliationOutcome::Observed(p) => {
            let m = copy_message(&p.message);
            (
                p.state,
                m,
                Payload::ModelDeploymentStateDriftDetectedPayload(
                    ModelDeploymentStateDriftDetectedPayload {
                        deployment_id: id,
                        deployment_revision: revision,
                        actual_state: p.state,
                        desired_state,
                        message: p.message,
                    },
                ),
                (p.metadata, p.interface, p.replicas),
            )
        },
        ReconciliationOutcome::Started(p) => {
            let m = copy_message(&p.message);
            (
                State::Running,
                m,
                Payload::ModelDeploymentStartedPayload(
                    ModelDeploymentStartedPayload {
                        deployment_id: id,
                        deployment_revision: revision,
                        message: p.message,
                    },
                ),
                (p.metadata, p.interface, p.replicas),
            )
        },
        ReconciliationOutcome::Stopped(p) => {
            let m = copy_message(&p.message);
            (
                State::Stopped,
                m,
                Payload::ModelDeploymentStoppedPayload(
                    ModelDeploymentStoppedPayload {
                        deployment_id: id,
                        deployment_revision: revision,
                        message: p.message,
                    },
                ),
                (p.metadata, p.interface, p.replicas),
            )
        },
        ReconciliationOutcome::Undeployed(p) => {
            let m = copy_message(&p.message);
            (
                State::NotDeployed,
                m,
                Payload::ModelDeploymentDeletedPayload(
                    ModelDeploymentDeletedPayload {
                        deployment_id: id,
                        deployment_revision: revision,
                        message: p.message,
                    },
                ),
                (p.metadata, None, None),
            )
        },
        _ => {
            return Ok(DispatchReconcilerResult::new(None, Vec::new()));
        },
    };
    let revised = match deployment.transition_to_state(state, message) {
        Ok(d) => d.apply_deltas(deltas.0, deltas.1, deltas.2),
        Err(e) => {
            return Err(ReconciliationDispatchError::ModelDeploymentDomainInvariantViolation(e));
        },
    };
    let mut events: Vec<Payload> = Vec::new();
    events.push(event);
    Ok(DispatchReconcilerResult::new(Some(revised), events))
}

/// The lookup that a state drift event asks for: the deployment it names,
/// still at the revision and in the states it recorded.
pub fn lookup_for_event(payload: &ModelDeploymentStateDriftDetectedPayload) -> (input:
    FindForReconciliationInput)
    ensures
        input.deployment_id == payload.deployment_id,
        input.revision == payload.deployment_revision,
        input.state == payload.actual_state,
        input.desired_state == payload.desired_state,
{
    FindForReconciliationInput {
        deployment_id: payload.deployment_id,
        revision: payload.deployment_revision,
        state: payload.actual_state,
        desired_state: payload.desired_state,
    }
}

pub open spec fn missing_model_text(author: Seq<char>, name: Seq<char>) -> Seq<char> {
    "Model "@ + author + "/"@ + name + " not found"@
}

/// The metadata of the deployed model, as the repository found it by the
/// author, name and tenant of the deployment's model; the platform needs it.
pub fn require_deployed_model_metadata(deployment: &ModelDeployment, found: Option<ModelMetadata>) -> (r:
    Result<ModelMetadata, ReconciliationDispatchError>)
    ensures
        match found {
            Some(m) => r == Ok::<ModelMetadata, ReconciliationDispatchError>(m),
            None => r matches Err(ReconciliationDispatchError::ModelMetadataRetrievalFailed(m)) && m@
                == missing_model_text(deployment.model.author@, deployment.model.name@),
        },
{
    match found {
        Some(m) => Ok(m),
        None => {
            let head = framed("Model ", deployment.model.author.as_str(), "/");
            let with_name = prefixed(head.as_str(), deployment.model.name.as_str());
            let m = framed(with_name.as_str(), "", " not found");
            proof {
                reveal_strlit("");
            }
            assert(m@ =~= missing_model_text(deployment.model.author@, deployment.model.name@));
            Err(ReconciliationDispatchError::ModelMetadataRetrievalFailed(m))
        },
    }
}

} // verus!

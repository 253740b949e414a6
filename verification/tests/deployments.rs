use shared::application::ports::events::payloads::{ModelDeploymentStateDriftDetectedPayload, Payload};
use shared::application::services::deployment_argument_service::DecryptedArgument;
use shared::application::services::model_deployment_controller::{
    apply_outcome, dispatch_error_from_lookup, lookup_for_event, require_deployed_model_metadata,
    resolve_reconciliation_action, DispatchReconcilerResult, ReconciliationDispatchError,
};
use shared::application::services::model_deployment_service::{
    check_found_for_reconciliation, desired_state_for, DeployWithStrategyInput,
    DesiredStateRequest, FindForReconciliationInput, ModelDeploymentService,
    ModelDeploymentServiceError,
};
use shared::application::ports::deployment::ModelDeploymentPlatformReconcilerProviderError;
use shared::application::services::reconciliation_dispatch::{
    dispatch_start, dispatch_step, DispatchReply, DispatchRequest, DispatchState,
};
use shared::application::workflows::deployment::{
    DesiredStateChange, UpdateDesiredStateWorkflow, UpdateDesiredStateWorkflowInput,
};
use shared::application::workflows::reconciliation::{
    FailedOutcome, ObeservedOutcome, ReconciliationAction, ReconciliationOutcome, StartedOutcome,
    StoppedOutcome, UndeployedOutcome,
};
use shared::domain::{
    ClientStrategySet, DesiredState, ModelDeployment, ModelDeploymentError,
    ModelDeploymentInterfaceDelta, ModelDeploymentMetadataDelta, ModelMetadata, ModelReference,
    ReplicaGroup, ReplicaGroupDelta, State, Strategy,
};
use shared::shared_kernel::{RequestContext, Scope, Visibility};

fn deployment(state: State, desired_state: DesiredState) -> ModelDeployment {
    ModelDeployment {
        id: 1,
        revision: 4,
        name: "bert on tapis".to_string(),
        description: None,
        tenant_id: "tenant".to_string(),
        owner: "alice".to_string(),
        platform: "tapis".to_string(),
        model: ModelReference {
            name: "bert".to_string(),
            author: "google".to_string(),
            tenant_id: "tenant".to_string(),
        },
        deployment_strategy: None,
        deployment_modality: "online".to_string(),
        visibility: Visibility::Private,
        replicas: ReplicaGroup { count: 1, parallelism_strategies: vec![] },
        interface: None,
        metadata: None,
        state,
        desired_state,
        last_message: None,
    }
}

fn lookup(revision: u32, state: State, desired_state: DesiredState) -> FindForReconciliationInput {
    FindForReconciliationInput { deployment_id: 1, revision, state, desired_state }
}

type Service = ModelDeploymentService<(), (), (), (), (), (), ()>;
type Workflow = UpdateDesiredStateWorkflow<(), ()>;

#[test]
fn reconciliation_lookup_of_a_missing_deployment_names_its_id() {
    let r = check_found_for_reconciliation(&lookup(4, State::Stopped, DesiredState::Running), None);
    match r {
        Err(ModelDeploymentServiceError::DeploymentNotFound(id)) => {
            assert_eq!(id, "00000000-0000-0000-0000-000000000001")
        }
        other => panic!("unexpected {:?}", other),
    }
}

#[test]
fn reconciliation_lookup_reports_revision_then_state_then_desired_state() {
    let found = deployment(State::Stopped, DesiredState::Running);
    match check_found_for_reconciliation(&lookup(3, State::Running, DesiredState::Stopped), Some(found)) {
        Err(ModelDeploymentServiceError::RevisionMismatch(e, a)) => {
            assert_eq!(e, "3");
            assert_eq!(a, "4");
        }
        other => panic!("unexpected {:?}", other),
    }
    let found = deployment(State::Stopped, DesiredState::Running);
    match check_found_for_reconciliation(&lookup(4, State::Running, DesiredState::Stopped), Some(found)) {
        Err(ModelDeploymentServiceError::StateMismatch(e, a)) => {
            assert_eq!(e, "Running");
            assert_eq!(a, "Stopped");
        }
        other => panic!("unexpected {:?}", other),
    }
    let found = deployment(State::Stopped, DesiredState::Running);
    match check_found_for_reconciliation(&lookup(4, State::Stopped, DesiredState::NotDeployed), Some(found)) {
        Err(ModelDeploymentServiceError::DesiredStateMismatch(e, a)) => {
            assert_eq!(e, "NotDeployed");
            assert_eq!(a, "Running");
        }
        other => panic!("unexpected {:?}", other),
    }
    let found = deployment(State::Stopped, DesiredState::Running);
    let ok = check_found_for_reconciliation(&lookup(4, State::Stopped, DesiredState::Running), Some(found));
    assert!(matches!(ok, Ok(d) if d.revision == 4));
}

#[test]
fn stale_lookups_become_stale_events() {
    match dispatch_error_from_lookup(ModelDeploymentServiceError::DeploymentNotFound("x".into())) {
        ReconciliationDispatchError::StaleEvent(m) => assert_eq!(m, "Deployment not found"),
        other => panic!("unexpected {:?}", other),
    }
    match dispatch_error_from_lookup(ModelDeploymentServiceError::RevisionMismatch("3".into(), "4".into())) {
        ReconciliationDispatchError::StaleEvent(m) => {
            assert_eq!(m, "Revision mismatch: Expected revision 3. Actual revision: 4")
        }
        other => panic!("unexpected {:?}", other),
    }
    match dispatch_error_from_lookup(ModelDeploymentServiceError::DesiredStateMismatch(
        "Running".into(),
        "Stopped".into(),
    )) {
        ReconciliationDispatchError::StaleEvent(m) => {
            assert_eq!(m, "State mismatch: Expected state Running. Actual state: Stopped")
        }
        other => panic!("unexpected {:?}", other),
    }
    assert!(matches!(
        dispatch_error_from_lookup(ModelDeploymentServiceError::InvalidStrategy("s".into())),
        ReconciliationDispatchError::ModelDeploymentRetrievalFailed(_)
    ));
}

#[test]
fn start_stop_and_undeploy_ask_for_their_states() {
    let (s, m) = desired_state_for(DesiredStateRequest::Start);
    assert_eq!(s, DesiredState::Running);
    assert_eq!(m, "Requested model deployment start");
    let (s, m) = desired_state_for(DesiredStateRequest::Stop);
    assert_eq!(s, DesiredState::Stopped);
    assert_eq!(m, "Requested model deployment start");
    let (s, _) = desired_state_for(DesiredStateRequest::Undeploy);
    assert_eq!(s, DesiredState::NotDeployed);
}

#[test]
fn desired_state_change_revises_and_announces() {
    let input = UpdateDesiredStateWorkflowInput {
        deployment_id: 1,
        desired_state: DesiredState::Running,
        last_message: Some("go".to_string()),
    };
    match Workflow::decide(input, Some(deployment(State::Stopped, DesiredState::Stopped))) {
        Ok(DesiredStateChange::Revised { deployment: d, event }) => {
            assert_eq!(d.revision, 5);
            assert_eq!(d.desired_state, DesiredState::Running);
            assert_eq!(d.last_message.as_deref(), Some("go"));
            assert_eq!(event.deployment_revision, 5);
            assert_eq!(event.actual_state, State::Stopped);
            assert_eq!(event.desired_state, DesiredState::Running);
            assert_eq!(
                event.message.as_deref(),
                Some("Requested desired state change of Model Deployment. Initiating reconciliation via with StateDriftDetected event")
            );
        }
        other => panic!("unexpected {:?}", other),
    }
}

#[test]
fn unchanged_desired_state_is_left_alone() {
    let input = UpdateDesiredStateWorkflowInput {
        deployment_id: 1,
        desired_state: DesiredState::Running,
        last_message: None,
    };
    match Workflow::decide(input, Some(deployment(State::Stopped, DesiredState::Running))) {
        Ok(DesiredStateChange::Unchanged(d)) => assert_eq!(d.revision, 4),
        other => panic!("unexpected {:?}", other),
    }
}

#[test]
fn desired_state_change_of_a_missing_or_exhausted_deployment_fails() {
    let input = UpdateDesiredStateWorkflowInput {
        deployment_id: 255,
        desired_state: DesiredState::Running,
        last_message: None,
    };
    match Workflow::decide(input, None) {
        Err(ModelDeploymentServiceError::DeploymentNotFound(id)) => {
            assert_eq!(id, "00000000-0000-0000-0000-0000000000ff")
        }
        other => panic!("unexpected {:?}", other),
    }
    let mut d = deployment(State::Stopped, DesiredState::Stopped);
    d.revision = u32::MAX;
    let input = UpdateDesiredStateWorkflowInput {
        deployment_id: 1,
        desired_state: DesiredState::Running,
        last_message: None,
    };
    assert!(matches!(
        Workflow::decide(input, Some(d)),
        Err(ModelDeploymentServiceError::ModelDeploymentError(ModelDeploymentError::RevisionExhausted))
    ));
}

fn sets() -> Vec<ClientStrategySet> {
    vec![ClientStrategySet {
        platform: "tapis".to_string(),
        strategies: vec![Strategy { name: "vllm".to_string(), platform: "tapis".to_string() }],
    }]
}

#[test]
fn synchronized_deployment_needs_no_action() {
    let d = deployment(State::Running, DesiredState::Running);
    assert!(matches!(resolve_reconciliation_action(&d, &sets(), vec![]), Ok(None)));
}

#[test]
fn actions_follow_observed_and_desired_states() {
    let arg = DecryptedArgument { parameter_name: "p".into(), value: "v".into() };
    match resolve_reconciliation_action(&deployment(State::NotDeployed, DesiredState::Running), &sets(), vec![arg]) {
        Ok(Some(ReconciliationAction::Start { payload })) => assert_eq!(payload[0].value, "v"),
        other => panic!("unexpected {:?}", other),
    }
    assert!(matches!(
        resolve_reconciliation_action(&deployment(State::Unknown, DesiredState::Running), &sets(), vec![]),
        Ok(Some(ReconciliationAction::Observe))
    ));
    assert!(matches!(
        resolve_reconciliation_action(&deployment(State::Running, DesiredState::Stopped), &sets(), vec![]),
        Ok(Some(ReconciliationAction::Stop))
    ));
    assert!(matches!(
        resolve_reconciliation_action(&deployment(State::Failed, DesiredState::NotDeployed), &sets(), vec![]),
        Ok(Some(ReconciliationAction::Undeploy))
    ));
    assert!(matches!(
        resolve_reconciliation_action(&deployment(State::Blocked, DesiredState::Stopped), &sets(), vec![]),
        Ok(None)
    ));
}

#[test]
fn unknown_strategy_blocks_the_action() {
    let mut d = deployment(State::NotDeployed, DesiredState::Running);
    d.deployment_strategy = Some("sglang".to_string());
    match resolve_reconciliation_action(&d, &sets(), vec![]) {
        Err(ReconciliationDispatchError::MissingDeploymentStrategy(m)) => assert_eq!(
            m,
            "During reconciliation action resolution, the referenced deployment strategy 'sglang' was not found"
        ),
        other => panic!("unexpected {:?}", other),
    }
    d.deployment_strategy = Some("vllm".to_string());
    assert!(matches!(
        resolve_reconciliation_action(&d, &sets(), vec![]),
        Ok(Some(ReconciliationAction::Start { .. }))
    ));
}

#[test]
fn started_outcome_revises_and_announces_the_reconciled_revision() {
    let d = deployment(State::NotDeployed, DesiredState::Running);
    let outcome = ReconciliationOutcome::Started(StartedOutcome {
        message: Some("up".to_string()),
        state: State::Running,
        metadata: Some(ModelDeploymentMetadataDelta::Replace("gpu=1".to_string())),
        interface: Some(ModelDeploymentInterfaceDelta::Replace("https://svc".to_string())),
        replicas: Some(ReplicaGroupDelta::Replace(ReplicaGroup { count: 2, parallelism_strategies: vec![] })),
    });
    let r: DispatchReconcilerResult<()> = apply_outcome(d, outcome).unwrap();
    let revised = r.deployment.as_ref().unwrap();
    assert_eq!(revised.revision, 5);
    assert_eq!(revised.state, State::Running);
    assert!(revised.is_state_synchronized());
    assert_eq!(revised.metadata.as_deref(), Some("gpu=1"));
    assert_eq!(revised.interface.as_deref(), Some("https://svc"));
    assert_eq!(revised.replicas.count, 2);
    assert_eq!(r.events.len(), 1);
    match &r.events[0] {
        Payload::ModelDeploymentStartedPayload(p) => {
            assert_eq!(p.deployment_revision, 4);
            assert_eq!(p.message.as_deref(), Some("up"));
        }
        other => panic!("unexpected {:?}", other),
    }
}

#[test]
fn other_outcomes_revise_into_their_states() {
    let r: DispatchReconcilerResult<()> = apply_outcome(
        deployment(State::Running, DesiredState::Stopped),
        ReconciliationOutcome::Stopped(StoppedOutcome { message: None, metadata: None, interface: Some(ModelDeploymentInterfaceDelta::NoChange), replicas: None }),
    )
    .unwrap();
    assert_eq!(r.deployment.as_ref().unwrap().state, State::Stopped);
    assert!(r.deployment.as_ref().unwrap().interface.is_none());
    assert!(matches!(r.events[0], Payload::ModelDeploymentStoppedPayload(_)));

    let r: DispatchReconcilerResult<()> = apply_outcome(
        deployment(State::Running, DesiredState::NotDeployed),
        ReconciliationOutcome::Undeployed(UndeployedOutcome { message: None, metadata: Some(ModelDeploymentMetadataDelta::Replace("gone".into())) }),
    )
    .unwrap();
    assert_eq!(r.deployment.as_ref().unwrap().state, State::NotDeployed);
    assert_eq!(r.deployment.as_ref().unwrap().metadata.as_deref(), Some("gone"));
    assert!(matches!(r.events[0], Payload::ModelDeploymentDeletedPayload(_)));

    let r: DispatchReconcilerResult<()> = apply_outcome(
        deployment(State::Unknown, DesiredState::Running),
        ReconciliationOutcome::Observed(ObeservedOutcome { message: None, state: State::Blocked, metadata: None, interface: None, replicas: None }),
    )
    .unwrap();
    assert_eq!(r.deployment.as_ref().unwrap().state, State::Blocked);
    match &r.events[0] {
        Payload::ModelDeploymentStateDriftDetectedPayload(p) => {
            assert_eq!(p.actual_state, State::Blocked);
            assert_eq!(p.desired_state, DesiredState::Running);
        }
        other => panic!("unexpected {:?}", other),
    }
}

#[test]
fn no_op_and_failures_change_nothing() {
    let r: DispatchReconcilerResult<()> =
        apply_outcome(deployment(State::Stopped, DesiredState::Running), ReconciliationOutcome::NoOp).unwrap();
    assert!(r.deployment.is_none());
    assert!(r.events.is_empty());
    let r: DispatchReconcilerResult<()> = apply_outcome(
        deployment(State::Stopped, DesiredState::Running),
        ReconciliationOutcome::Failed(FailedOutcome { message: Some("boom".into()) }),
    )
    .unwrap();
    assert!(r.deployment.is_none());
}

#[test]
fn exhausted_revisions_are_a_domain_violation() {
    let mut d = deployment(State::Stopped, DesiredState::Running);
    d.revision = u32::MAX;
    let r: Result<DispatchReconcilerResult<()>, _> =
        apply_outcome(d, ReconciliationOutcome::Started(StartedOutcome { message: None, state: State::Running, metadata: None, interface: None, replicas: None }));
    assert!(matches!(r, Err(ReconciliationDispatchError::ModelDeploymentDomainInvariantViolation(_))));
}

#[test]
fn results_carry_their_cause() {
    let mut r: DispatchReconcilerResult<u32> = DispatchReconcilerResult::new(None, vec![]);
    assert!(r.caused_by_event().is_none());
    r.correlate_event(7);
    assert_eq!(*r.caused_by_event(), Some(7));
}

#[test]
fn drift_event_names_its_lookup() {
    let payload = ModelDeploymentStateDriftDetectedPayload {
        deployment_revision: 9,
        deployment_id: 3,
        desired_state: DesiredState::Stopped,
        actual_state: State::Running,
        message: None,
    };
    let input = lookup_for_event(&payload);
    assert_eq!(input.deployment_id, 3);
    assert_eq!(input.revision, 9);
    assert_eq!(input.state, State::Running);
    assert_eq!(input.desired_state, DesiredState::Stopped);
}

#[test]
fn deployed_model_metadata_must_exist() {
    let d = deployment(State::Stopped, DesiredState::Running);
    match require_deployed_model_metadata(&d, None) {
        Err(ReconciliationDispatchError::ModelMetadataRetrievalFailed(m)) => {
            assert_eq!(m, "Model google/bert not found")
        }
        other => panic!("unexpected {:?}", other),
    }
}

fn deploy_input(replicas: Option<u32>) -> DeployWithStrategyInput {
    DeployWithStrategyInput {
        name: "my deployment".to_string(),
        description: None,
        platform: "tapis".to_string(),
        strategy_name: "vllm".to_string(),
        model_scope: Scope::Global,
        model_author: "google".to_string(),
        model_name: "bert".to_string(),
        deployment_modality: "online".to_string(),
        replicas,
        parallelism_strategies: None,
        arguments: vec![],
    }
}

#[test]
fn deployment_needs_an_existing_strategy_and_model() {
    match Service::require_strategy(&"vllm".to_string(), None) {
        Err(ModelDeploymentServiceError::InvalidStrategy(m)) => {
            assert_eq!(m, "Strategy with name 'vllm' does not exist")
        }
        other => panic!("unexpected {:?}", other),
    }
    let input = deploy_input(None);
    let none: Option<ModelMetadata> = None;
    match Service::require_model_metadata(&input, none) {
        Err(ModelDeploymentServiceError::MissingModelMetadata(a, n)) => {
            assert_eq!(a, "google");
            assert_eq!(n, "bert");
        }
        other => panic!("unexpected {:?}", other),
    }
}

#[test]
fn deployment_props_come_from_the_actor_and_the_request() {
    let ctx = RequestContext::new("tenant".to_string(), "alice".to_string());
    let input = deploy_input(None);
    let model_tenant = Service::model_tenant(&input, &ctx);
    assert_eq!(model_tenant, "__GLOBAL__");
    let props = Service::deployment_props(input, &ctx, model_tenant);
    assert_eq!(props.tenant_id, "tenant");
    assert_eq!(props.owner, "alice");
    assert_eq!(props.model.tenant_id, "__GLOBAL__");
    assert_eq!(props.replicas.count, 1);
    assert!(props.replicas.parallelism_strategies.is_empty());
    assert_eq!(props.visibility, Visibility::Private);
    assert_eq!(props.last_message.as_deref(), Some("Model deployment request recieved"));
    assert_eq!((props.id >> 76) & 0xf, 7);

    let mut tenant_scoped = deploy_input(Some(3));
    tenant_scoped.model_scope = Scope::Tenant;
    assert_eq!(Service::model_tenant(&tenant_scoped, &ctx), "tenant");
    let props = Service::deployment_props(tenant_scoped, &ctx, "tenant".to_string());
    assert_eq!(props.replicas.count, 3);
}

#[test]
fn a_new_deployment_is_announced_by_a_drift_event() {
    let d = deployment(State::NotDeployed, DesiredState::Running);
    match Service::initial_drift_event(&d) {
        Payload::ModelDeploymentStateDriftDetectedPayload(p) => {
            assert_eq!(p.deployment_revision, 4);
            assert_eq!(p.actual_state, State::NotDeployed);
            assert_eq!(p.desired_state, DesiredState::Running);
            assert_eq!(p.message.as_deref(), Some("Model deployment initiated with StateDriftDetected event"));
        }
        other => panic!("unexpected {:?}", other),
    }
}

#[test]
fn transitions_bump_the_revision() {
    let d = deployment(State::NotDeployed, DesiredState::Running);
    let d = d.transition_to_state(State::Running, None).unwrap();
    assert_eq!(d.revision, 5);
    let d = d.transition_to_desired(DesiredState::Stopped, Some("stop".into())).unwrap();
    assert_eq!(d.revision, 6);
    assert_eq!(d.state, State::Running);
    assert_eq!(d.desired_state, DesiredState::Stopped);
}

#[test]
fn the_announced_revision_is_current_and_earlier_events_are_stale() {
    let before = deployment(State::Stopped, DesiredState::Stopped);
    let stale_event = ModelDeploymentStateDriftDetectedPayload {
        deployment_revision: before.revision,
        deployment_id: before.id,
        desired_state: before.desired_state,
        actual_state: before.state,
        message: None,
    };
    let input = UpdateDesiredStateWorkflowInput {
        deployment_id: 1,
        desired_state: DesiredState::Running,
        last_message: None,
    };
    let (revised, event) = match Workflow::decide(input, Some(before)) {
        Ok(DesiredStateChange::Revised { deployment, event }) => (deployment, event),
        other => panic!("unexpected {:?}", other),
    };
    let current = check_found_for_reconciliation(&lookup_for_event(&event), Some(revised)).unwrap();
    assert_eq!(current.revision, 5);
    match check_found_for_reconciliation(&lookup_for_event(&stale_event), Some(current)) {
        Err(e) => assert!(matches!(
            dispatch_error_from_lookup(e),
            ReconciliationDispatchError::StaleEvent(m) if m == "Revision mismatch: Expected revision 4. Actual revision: 5"
        )),
        Ok(_) => panic!("a superseded event must be stale"),
    }
}

fn drift(revision: u32, actual_state: State, desired_state: DesiredState) -> ModelDeploymentStateDriftDetectedPayload {
    ModelDeploymentStateDriftDetectedPayload {
        deployment_id: 1,
        deployment_revision: revision,
        actual_state,
        desired_state,
        message: None,
    }
}

fn bert_metadata() -> ModelMetadata {
    ModelMetadata {
        author: "google".to_string(),
        name: "bert".to_string(),
        tenant_id: "tenant".to_string(),
        artifact_id: None,
        deployment_strategy_refs: vec![],
    }
}

fn found(d: ModelDeployment) -> DispatchReply {
    DispatchReply::DeploymentFound(Ok(Some(d)))
}

#[test]
fn dispatch_starts_by_looking_up_the_event_deployment() {
    let (state, request) = dispatch_start::<()>(&drift(4, State::NotDeployed, DesiredState::Running));
    assert!(matches!(request, DispatchRequest::FindDeployment(1)));
    match state {
        DispatchState::Looking(input) => {
            assert_eq!(input.revision, 4);
            assert_eq!(input.state, State::NotDeployed);
            assert_eq!(input.desired_state, DesiredState::Running);
        }
        other => panic!("unexpected {:?}", other),
    }
}

#[test]
fn dispatch_of_a_stale_event_ends_stale() {
    let (state, _) = dispatch_start::<()>(&drift(3, State::NotDeployed, DesiredState::Running));
    let (state, request) = dispatch_step::<()>(state, found(deployment(State::NotDeployed, DesiredState::Running)));
    assert!(matches!(state, DispatchState::Done));
    match request {
        DispatchRequest::Finished(Err(ReconciliationDispatchError::StaleEvent(m))) => {
            assert_eq!(m, "Revision mismatch: Expected revision 3. Actual revision: 4")
        }
        _ => panic!("expected a stale event"),
    }
    let (state, _) = dispatch_start::<()>(&drift(4, State::NotDeployed, DesiredState::Running));
    match dispatch_step::<()>(state, DispatchReply::DeploymentFound(Ok(None))).1 {
        DispatchRequest::Finished(Err(ReconciliationDispatchError::StaleEvent(m))) => {
            assert_eq!(m, "Deployment not found")
        }
        _ => panic!("expected a stale event"),
    }
}

#[test]
fn dispatch_of_a_synchronized_deployment_changes_nothing() {
    let (state, _) = dispatch_start::<()>(&drift(4, State::Running, DesiredState::Running));
    let (state, request) = dispatch_step::<()>(state, found(deployment(State::Running, DesiredState::Running)));
    assert!(matches!(state, DispatchState::Done));
    match request {
        DispatchRequest::Finished(Ok(r)) => {
            assert!(r.deployment.is_none());
            assert!(r.events.is_empty());
        }
        _ => panic!("expected an empty result"),
    }
}

#[test]
fn dispatch_runs_lookup_strategies_client_metadata_and_outcome_in_order() {
    let (state, _) = dispatch_start::<Payload>(&drift(4, State::NotDeployed, DesiredState::Running));
    let (state, request) = dispatch_step::<Payload>(state, found(deployment(State::NotDeployed, DesiredState::Running)));
    assert!(matches!(request, DispatchRequest::ListStrategies));
    let (state, request) = dispatch_step::<Payload>(state, DispatchReply::StrategiesListed(sets()));
    match &request {
        DispatchRequest::ProvideClient(platform) => assert_eq!(platform, "tapis"),
        _ => panic!("expected the platform's client to be asked for"),
    }
    match &state {
        DispatchState::Providing(_, ReconciliationAction::Start { payload }) => assert!(payload.is_empty()),
        other => panic!("unexpected {:?}", other),
    }
    let (state, request) = dispatch_step::<Payload>(state, DispatchReply::ClientProvided(Ok(())));
    match &request {
        DispatchRequest::FindModelMetadata { author, name, tenant_id } => {
            assert_eq!((author.as_str(), name.as_str(), tenant_id.as_str()), ("google", "bert", "tenant"))
        }
        _ => panic!("expected the model's metadata to be asked for"),
    }
    let (state, request) = dispatch_step::<Payload>(state, DispatchReply::ModelMetadataFound(Ok(Some(bert_metadata()))));
    match &request {
        DispatchRequest::Reconcile { action: ReconciliationAction::Start { .. }, model_metadata } => {
            assert_eq!(model_metadata.name, "bert")
        }
        _ => panic!("expected the client to be asked to start the deployment"),
    }
    let outcome = ReconciliationOutcome::Started(StartedOutcome {
        message: Some("up".to_string()),
        state: State::Running,
        metadata: None,
        interface: None,
        replicas: None,
    });
    let (state, request) = dispatch_step::<Payload>(state, DispatchReply::Reconciled(outcome));
    assert!(matches!(state, DispatchState::Done));
    match request {
        DispatchRequest::Finished(Ok(r)) => {
            let revised = r.deployment.as_ref().unwrap();
            assert_eq!(revised.revision, 5);
            assert_eq!(revised.state, State::Running);
            assert!(matches!(r.events[0], Payload::ModelDeploymentStartedPayload(_)));
        }
        _ => panic!("expected a revised deployment"),
    }
}

#[test]
fn dispatch_ends_on_a_missing_client_or_missing_metadata() {
    let d = deployment(State::Running, DesiredState::Stopped);
    let (state, request) = dispatch_step::<()>(DispatchState::Resolving(d), DispatchReply::StrategiesListed(vec![]));
    assert!(matches!(request, DispatchRequest::ProvideClient(_)));
    assert!(matches!(state, DispatchState::Providing(_, ReconciliationAction::Stop)));
    let refused = ModelDeploymentPlatformReconcilerProviderError::PlatformClientNotFound("tapis".to_string());
    let (_, request) = dispatch_step::<()>(state, DispatchReply::ClientProvided(Err(refused)));
    assert!(matches!(
        request,
        DispatchRequest::Finished(Err(ReconciliationDispatchError::ReconciliationClientInitilizationFailed(_)))
    ));
    let (_, request) = dispatch_step::<()>(
        DispatchState::FindingMetadata(deployment(State::Running, DesiredState::Stopped), ReconciliationAction::Stop),
        DispatchReply::ModelMetadataFound(Ok(None)),
    );
    match request {
        DispatchRequest::Finished(Err(ReconciliationDispatchError::ModelMetadataRetrievalFailed(m))) => {
            assert_eq!(m, "Model google/bert not found")
        }
        _ => panic!("expected missing metadata"),
    }
}

#[test]
fn dispatch_ends_on_an_unknown_strategy() {
    let mut d = deployment(State::NotDeployed, DesiredState::Running);
    d.deployment_strategy = Some("sglang".to_string());
    let (state, request) = dispatch_step::<()>(DispatchState::Resolving(d), DispatchReply::StrategiesListed(sets()));
    assert!(matches!(state, DispatchState::Done));
    assert!(matches!(
        request,
        DispatchRequest::Finished(Err(ReconciliationDispatchError::MissingDeploymentStrategy(_)))
    ));
}

#[test]
fn dispatch_fails_on_a_reply_that_answers_another_request() {
    let (state, _) = dispatch_start::<()>(&drift(4, State::NotDeployed, DesiredState::Running));
    let (state, request) = dispatch_step::<()>(state, DispatchReply::StrategiesListed(sets()));
    assert!(matches!(state, DispatchState::Done));
    match request {
        DispatchRequest::Finished(Err(ReconciliationDispatchError::ReconciliationFailed(m))) => {
            assert_eq!(m, "The reply does not answer the dispatch's request")
        }
        _ => panic!("expected a failed dispatch"),
    }
}

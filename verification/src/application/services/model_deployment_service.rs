//! Deployments of models: the checks made on a deployment found for
//! reconciliation, and the desired states that users ask for.

use vstd::prelude::*;
use crate::application::ports::cipher::CipherError;
use crate::application::ports::deployment::ModelDeploymentRepositoryError;
use crate::application::ports::model_metadata::ModelMetadataRepositoryError;
use crate::application::services::deployment_argument_service::DeploymentArgumentServiceError;
use crate::application::ports::events::payloads::{
    ModelDeploymentStateDriftDetectedPayload, Payload,
};
use crate::application::services::tenancy_resolver::TenancyResolver;
use crate::domain::{
    DesiredState, ModelDeployment, ModelDeploymentError, ModelMetadata, ModelReference, ReplicaGroup,
    State, Strategy,
};
use crate::shared_kernel::{RequestContext, Scope, Visibility};
use crate::text::{decimal, decimal_text, framed, new_v7_id, uuid_string, uuid_text};

verus! {

#[derive(Debug)]
pub enum ModelDeploymentServiceError {
    /// Expected to find the first revision but found the second
    RevisionMismatch(String, String),
    /// Expected to find the first state but found the second
    StateMismatch(String, String),
    /// Expected to find the first desired state but found the second
    DesiredStateMismatch(String, String),
    ModelDMetadataRepoError(ModelMetadataRepositoryError),
    ModelDeploymentRepoError(ModelDeploymentRepositoryError),
    ArgumentPersistenceError(DeploymentArgumentServiceError),
    /// No deployment has this id
    DeploymentNotFound(String),
    ModelDeploymentError(ModelDeploymentError),
    /// The deployment breaks a rule of the domain; the message says which.
    ModelDeploymentDomainError(String),
    InvalidStrategy(String),
    /// The arguments do not satisfy the strategy; the message says why.
    InvalidArguments(String),
    ArgumentEncryptionError(CipherError),
    /// No model metadata for this author (first) and name (second)
    MissingModelMetadata(String, String),
}

/// A deployment is fetched for reconciliation only while it is still in the
/// revision and states that the triggering event recorded.
#[derive(Clone, Copy, Debug)]
pub struct FindForReconciliationInput {
    pub deployment_id: u128,
    pub revision: u32,
    pub state: State,
    pub desired_state: DesiredState,
}

pub struct ListModelDeploymentsByOwnerInput {
    pub owner: String,
}

/// What the reconciliation lookup returns for the deployment that the
/// repository found, in the order the checks are made.
pub open spec fn reconciliation_check_passes(
    input: FindForReconciliationInput,
    deployment: ModelDeployment,
) -> bool {
    deployment.revision == input.revision && deployment.state == input.state
        && deployment.desired_state == input.desired_state
}

/// Checks the deployment that the repository found for the id of `input`:
/// it must exist and still be in the revision, state and desired state that
/// `input` expects. Each error gives the expected value, then the found one.
pub fn check_found_for_reconciliation(
    input: &FindForReconciliationInput,
    found: Option<ModelDeployment>,
) -> (r: Result<ModelDeployment, ModelDeploymentServiceError>)
    ensures
        match found {
            None => r matches Err(ModelDeploymentServiceError::DeploymentNotFound(id)) && id@
                == uuid_text(input.deployment_id),
            Some(d) => if d.revision != input.revision {
                r matches Err(ModelDeploymentServiceError::RevisionMismatch(e, a)) && e@
                    == decimal_text(input.revision as nat) && a@ == decimal_text(d.revision as nat)
            } else if d.state != input.state {
                r matches Err(ModelDeploymentServiceError::StateMismatch(e, a)) && e@
                    == input.state.name_spec() && a@ == d.state.name_spec()
            } else if d.desired_state != input.desired_state {
                r matches Err(ModelDeploymentServiceError::DesiredStateMismatch(e, a)) && e@
                    == input.desired_state.name_spec() && a@ == d.desired_state.name_spec()
            } else {
                r == Ok::<ModelDeployment, ModelDeploymentServiceError>(d)
            },
        },
{
    let deployment = match found {
        Some(d) => d,
        None => {
            return Err(
                ModelDeploymentServiceError::DeploymentNotFound(uuid_string(input.deployment_id)),
            );
        },
    };
    if deployment.revision != input.revision {
        return Err(
            ModelDeploymentServiceError::RevisionMismatch(
                decimal(input.revision as u64),
                decimal(deployment.revision as u64),
            ),
        );
    }
    if deployment.state != input.state {
        return Err(
            ModelDeploymentServiceError::StateMismatch(input.state.name(), deployment.state.name()),
        );
    }
    if deployment.desired_state != input.desired_state {
        return Err(
            ModelDeploymentServiceError::DesiredStateMismatch(
                input.desired_state.name(),
                deployment.desired_state.name(),
            ),
        );
    }
    Ok(deployment)
}

/// What a request to start, stop or undeploy a deployment asks for, and the
/// message recorded with it; all three record the same message, that of a
/// start request.
#[derive(Clone, Copy, Debug, PartialEq, Eq, Structural)]
pub enum DesiredStateRequest {
    Start,
    Stop,
    Undeploy,
}

pub open spec fn requested_state(request: DesiredStateRequest) -> DesiredState {
    match request {
        DesiredStateRequest::Start => DesiredState::Running,
        DesiredStateRequest::Stop => DesiredState::Stopped,
        DesiredStateRequest::Undeploy => DesiredState::NotDeployed,
    }
}

/// The desired state that a request asks for, with the message recorded.
pub fn desired_state_for(request: DesiredStateRequest) -> (r: (DesiredState, String))
    ensures
        r.0 == requested_state(request),
        r.1@ == "Requested model deployment start"@,
{
    let state = match request {
        DesiredStateRequest::Start => DesiredState::Running,
        DesiredStateRequest::Stop => DesiredState::Stopped,
        DesiredStateRequest::Undeploy => DesiredState::NotDeployed,
    };
    (state, "Requested model deployment start".to_owned())
}

/// A value given for a parameter of a deployment strategy.
#[derive(Clone, Debug)]
pub struct ArgumentInput {
    pub parameter_name: String,
    pub value: String,
}

/// A request to deploy a model with a named strategy of a platform.
pub struct DeployWithStrategyInput {
    pub name: String,
    pub description: Option<String>,
    pub platform: String,
    pub strategy_name: String,
    pub model_scope: Scope,
    pub model_author: String,
    pub model_name: String,
    pub deployment_modality: String,
    pub replicas: Option<u32>,
    pub parallelism_strategies: Option<Vec<String>>,
    pub arguments: Vec<ArgumentInput>,
}

/// What the domain needs to create a deployment with a strategy.
pub struct DeployWithStrategyProps {
    pub id: u128,
    pub name: String,
    pub description: Option<String>,
    pub tenant_id: String,
    pub platform: String,
    pub owner: String,
    pub model: ModelReference,
    pub deployment_modality: String,
    pub last_message: Option<String>,
    pub visibility: Visibility,
    pub replicas: ReplicaGroup,
}

pub open spec fn invalid_strategy_text(name: Seq<char>) -> Seq<char> {
    "Strategy with name '"@ + name + "' does not exist"@
}

pub open spec fn deployment_received_text() -> Seq<char> {
    "Model deployment request recieved"@
}

pub open spec fn deployment_initiated_text() -> Seq<char> {
    "Model deployment initiated with StateDriftDetected event"@
}

pub struct ModelDeploymentService<S, D, M, A, E, P, C> {
    deployment_argument_service: S,
    model_deployment_repo: D,
    model_metadata_repo: M,
    artifact_repo: A,
    event_publisher: E,
    deployment_strategy_provider: P,
    cipher: C,
}

impl<S, D, M, A, E, P, C> ModelDeploymentService<S, D, M, A, E, P, C> {
    pub closed spec fn parts(&self) -> (S, D, M, A, E, P, C) {
        (
            self.deployment_argument_service,
            self.model_deployment_repo,
            self.model_metadata_repo,
            self.artifact_repo,
            self.event_publisher,
            self.deployment_strategy_provider,
            self.cipher,
        )
    }

    pub fn new(
        deployment_argument_service: S,
        model_deployment_repo: D,
        model_metadata_repo: M,
        artifact_repo: A,
        event_publisher: E,
        deployment_strategy_provider: P,
        cipher: C,
    ) -> (s: Self)
        ensures
            s.parts() == (
                deployment_argument_service,
                model_deployment_repo,
                model_metadata_repo,
                artifact_repo,
                event_publisher,
                deployment_strategy_provider,
                cipher,
            ),
    {
        ModelDeploymentService {
            deployment_argument_service,
            model_deployment_repo,
            model_metadata_repo,
            artifact_repo,
            event_publisher,
            deployment_strategy_provider,
            cipher,
        }
    }

    pub fn deployment_argument_service(&self) -> (r: &S)
        ensures
            *r == self.parts().0,
    {
        &self.deployment_argument_service
    }

    pub fn model_deployment_repo(&self) -> (r: &D)
        ensures
            *r == self.parts().1,
    {
        &self.model_deployment_repo
    }

    pub fn model_metadata_repo(&self) -> (r: &M)
        ensures
            *r == self.parts().2,
    {
        &self.model_metadata_repo
    }

    pub fn artifact_repo(&self) -> (r: &A)
        ensures
            *r == self.parts().3,
    {
        &self.artifact_repo
    }

    pub fn event_publisher(&self) -> (r: &E)
        ensures
            *r == self.parts().4,
    {
        &self.event_publisher
    }

    pub fn deployment_strategy_provider(&self) -> (r: &P)
        ensures
            *r == self.parts().5,
    {
        &self.deployment_strategy_provider
    }

    pub fn cipher(&self) -> (r: &C)
        ensures
            *r == self.parts().6,
    {
        &self.cipher
    }

    /// The strategy that the provider found by platform and name; a
    /// deployment asks for one that exists.
    pub fn require_strategy(strategy_name: &String, found: Option<Strategy>) -> (r: Result<
        Strategy,
        ModelDeploymentServiceError,
    >)
        ensures
            match found {
                Some(s) => r == Ok::<Strategy, ModelDeploymentServiceError>(s),
                None => r matches Err(ModelDeploymentServiceError::InvalidStrategy(m)) && m@
                    == invalid_strategy_text(strategy_name@),
            },
    {
        match found {
            Some(s) => Ok(s),
            None => Err(
                ModelDeploymentServiceError::InvalidStrategy(
                    framed("Strategy with name '", strategy_name.as_str(), "' does not exist"),
                ),
            ),
        }
    }

    /// The tenant in which the model to deploy is looked up: the global
    /// tenant for a global scope, else the actor's.
    pub fn model_tenant(input: &DeployWithStrategyInput, ctx: &RequestContext) -> (t: String)
        ensures
            t@ == TenancyResolver::spec_resolve(input.model_scope, ctx.tenant_view()),
    {
        TenancyResolver::resolve_from_scope(&input.model_scope, ctx.actor_tenant_id())
    }

    /// The metadata of the model to deploy, as the repository found it by
    /// author and name; a deployment needs it.
    pub fn require_model_metadata(input: &DeployWithStrategyInput, found: Option<ModelMetadata>) -> (r:
        Result<ModelMetadata, ModelDeploymentServiceError>)
        ensures
            match found {
                Some(m) => r == Ok::<ModelMetadata, ModelDeploymentServiceError>(m),
                None => r matches Err(ModelDeploymentServiceError::MissingModelMetadata(a, n))
                    && a@ == input.model_author@ && n@ == input.model_name@,
            },
    {
        match found {
            Some(m) => Ok(m),
            None => Err(
                ModelDeploymentServiceError::MissingModelMetadata(
                    input.model_author.clone(),
                    input.model_name.clone(),
                ),
            ),
        }
    }

    /// What the domain is given to create the deployment: a fresh id, the
    /// actor as owner in the actor's tenant, the model by name and author in
    /// the tenant it was found in, private, one replica unless more were
    /// asked for, and the message that the request was received.
    pub fn deployment_props(
        input: DeployWithStrategyInput,
        ctx: &RequestContext,
        model_tenant_id: String,
    ) -> (p: DeployWithStrategyProps)
        ensures
            (p.id >> 76u128) & 0xfu128 == 7u128,
            p.name == input.name,
            p.description == input.description,
            p.tenant_id@ == ctx.tenant_view(),
            p.owner@ == ctx.principal_view(),
            p.platform == input.platform,
            p.model.name == input.model_name,
            p.model.author == input.model_author,
            p.model.tenant_id == model_tenant_id,
            p.deployment_modality == input.deployment_modality,
            p.last_message matches Some(m) && m@ == deployment_received_text(),
            p.visibility == Visibility::Private,
            p.replicas.count == (match input.replicas {
                Some(n) => n,
                None => 1,
            }),
            p.replicas.parallelism_strategies@ == (match input.parallelism_strategies {
                Some(v) => v@,
                None => Seq::<String>::empty(),
            }),
    {
        let count = match input.replicas {
            Some(n) => n,
            None => 1,
        };
        let parallelism_strategies = match input.parallelism_strategies {
            Some(v) => v,
            None => Vec::new(),
        };
        DeployWithStrategyProps {
            id: new_v7_id(),
            name: input.name,
            description: input.description,
            tenant_id: ctx.actor_tenant_id().clone(),
            platform: input.platform,
            owner: ctx.actor_principal_id().clone(),
            model: ModelReference {
                name: input.model_name,
                author: input.model_author,
                tenant_id: model_tenant_id,
            },
            deployment_modality: input.deployment_modality,
            last_message: Some("Model deployment request recieved".to_owned()),
            visibility: Visibility::Private,
            replicas: ReplicaGroup { count, parallelism_strategies },
        }
    }

    /// The event that starts the reconciliation of a new deployment: a state
    /// drift from its state to its desired state, at its revision.
    pub fn initial_drift_event(deployment: &ModelDeployment) -> (e: Payload)
        ensures
            e matches Payload::ModelDeploymentStateDriftDetectedPayload(p) && p.deployment_id
                == deployment.id && p.deployment_revision == deployment.revision && p.desired_state
                == deployment.desired_state && p.actual_state == deployment.state && (
            p.message matches Some(m) && m@ == deployment_initiated_text()),
    {
        Payload::ModelDeploymentStateDriftDetectedPayload(
            ModelDeploymentStateDriftDetectedPayload {
                deployment_id: deployment.id,
                message: Some("Model deployment initiated with StateDriftDetected event".to_owned()),
                deployment_revision: deployment.revision,
                desired_state: deployment.desired_state,
                actual_state: deployment.state,
            },
        )
    }
}

} // verus!

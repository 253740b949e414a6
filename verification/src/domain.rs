//! The entities of the hub as the application layer reads and writes them.

use vstd::prelude::*;
use crate::shared_kernel::Visibility;

verus! {

/// An identity provider that the hub federates with.
#[derive(Clone, Copy, Debug, PartialEq, Eq, Structural)]
pub enum Idp {
    Tapis,
}

impl Idp {
    pub open spec fn name_spec(self) -> Seq<char> {
        match self {
            Idp::Tapis => "tapis"@,
        }
    }

    pub fn name(&self) -> (s: String)
        ensures
            s@ == self.name_spec(),
    {
        proof {
            reveal_strlit("tapis");
        }
        match self {
            Idp::Tapis => "tapis".to_owned(),
        }
    }
}

#[derive(Clone, Copy, Debug, PartialEq, Eq, Structural)]
pub enum PrincipalError {
    /// The principal and its identity belong to different tenants.
    TenantMismatch,
}

impl PrincipalError {
    pub open spec fn message_spec(self) -> Seq<char> {
        match self {
            PrincipalError::TenantMismatch => "Tenant mismatch"@,
        }
    }

    pub fn message(&self) -> (s: String)
        ensures
            s@ == self.message_spec(),
    {
        match self {
            PrincipalError::TenantMismatch => "Tenant mismatch".to_owned(),
        }
    }
}

/// The state a model deployment is observed in.
#[derive(Clone, Copy, Debug, PartialEq, Eq, Structural)]
pub enum State {
    Unknown,
    NotDeployed,
    Running,
    Stopped,
    Failed,
    Blocked,
}

/// The state a model deployment is asked to reach.
#[derive(Clone, Copy, Debug, PartialEq, Eq, Structural)]
pub enum DesiredState {
    Running,
    Stopped,
    NotDeployed,
}

/// A model that an owner keeps in their collection, backed by an external model.
#[derive(Debug)]
pub struct Model {
    pub id: u128,
    pub tenant_id: String,
    pub owner: String,
    pub name: String,
    pub description: Option<String>,
    pub external_model_id: u128,
    pub visibility: Visibility,
    pub artifact_id: Option<u128>,
}

/// A reference to a deployment strategy that can deploy a model.
#[derive(Debug)]
pub struct DeploymentStrategyReference {
    pub name: String,
    pub platform: String,
}

/// A model published by an outside provider, found at `locator`, with what
/// the provider said of it when it was last read (`metadata`) and the
/// strategies that can deploy it.
#[derive(Debug)]
pub struct ExternalModel {
    pub id: u128,
    pub provider: String,
    pub locator: String,
    pub metadata: String,
    pub deployment_strategies: Vec<DeploymentStrategyReference>,
}

/// Descriptive metadata of a model, by author and name.
#[derive(Debug)]
pub struct ModelMetadata {
    pub author: String,
    pub name: String,
    pub tenant_id: String,
    pub artifact_id: Option<u128>,
    pub deployment_strategy_refs: Vec<DeploymentStrategyReference>,
}

/// A dataset as it is returned by queries.
#[derive(Debug)]
pub struct Dataset {
    pub id: u128,
    pub tenant_id: String,
    pub owner: String,
    pub name: String,
    pub description: Option<String>,
    pub item_count: u64,
    pub size: u64,
    pub visibility: Visibility,
}

/// An identity that a federated identity provider vouches for: a subject of
/// an issuer, in a tenant.
#[derive(Clone, Debug)]
pub struct FederatedIdentity {
    pub subject: String,
    pub issuer: String,
    pub tenant_id: String,
}

/// A principal of the hub, with the federated identity it authenticates with.
#[derive(Clone, Debug)]
pub struct Principal {
    pub id: u128,
    pub tenant_id: String,
    pub identity: FederatedIdentity,
}

/// One way of reaching an agent; it is a network target when it has a base
/// URL.
#[derive(Clone, Debug)]
pub struct AgentEndpoint {
    pub name: Option<String>,
    pub protocol: String,
    pub message_binding: Option<String>,
    pub base_url: Option<String>,
    pub liveness_probe: Option<String>,
}

/// An agent that an owner registered, optionally described by an agent
/// record.
#[derive(Debug)]
pub struct Agent {
    pub id: u128,
    pub tenant_id: String,
    pub owner: String,
    pub name: String,
    pub description: String,
    pub deployment_modality: String,
    pub endpoints: Vec<AgentEndpoint>,
    pub tags: Vec<String>,
    pub agent_record_id: Option<u128>,
    pub visibility: Visibility,
}

/// A network endpoint issued for one named target of a resource.
#[derive(Debug)]
pub struct Endpoint {
    pub slug: String,
    pub tenant_id: String,
    pub target_resource_urn: String,
    pub target_name: String,
    pub url: String,
}

#[derive(Clone, Copy, Debug, PartialEq, Eq, Structural)]
pub enum ArtifactType {
    Model,
    Dataset,
}

impl ArtifactType {
    pub open spec fn name_spec(self) -> Seq<char> {
        match self {
            ArtifactType::Model => "Model"@,
            ArtifactType::Dataset => "Dataset"@,
        }
    }

    pub fn name(&self) -> (s: String)
        ensures
            s@ == self.name_spec(),
    {
        match self {
            ArtifactType::Model => "Model".to_owned(),
            ArtifactType::Dataset => "Dataset".to_owned(),
        }
    }
}

/// Files of a model or dataset held by the hub.
#[derive(Debug)]
pub struct Artifact {
    pub id: u128,
    pub artifact_type: ArtifactType,
    pub path: Option<String>,
    pub fully_ingested: bool,
}

/// Where a publication of an artifact stands.
#[derive(Clone, Copy, Debug, PartialEq, Eq, Structural)]
pub enum ArtifactPublicationStatus {
    Submitted,
    Started,
    Finished,
    Failed,
}

/// A request to publish an artifact to a platform.
#[derive(Debug)]
pub struct ArtifactPublication {
    pub id: u128,
    pub artifact_id: u128,
    pub artifact_type: ArtifactType,
    pub target_platform: String,
    pub status: ArtifactPublicationStatus,
    pub last_message: Option<String>,
}

/// Where an ingestion of an artifact stands.
#[derive(Clone, Copy, Debug, PartialEq, Eq, Structural)]
pub enum ArtifactIngestionStatus {
    Submitted,
    Started,
    Finished,
    Failed,
}

/// A request to ingest an artifact from a platform; the webhook, if any, is
/// told of its progress, and the path is where the ingested files lie.
#[derive(Debug)]
pub struct ArtifactIngestion {
    pub id: u128,
    pub artifact_id: u128,
    pub artifact_type: ArtifactType,
    pub platform: String,
    pub webhook_url: Option<String>,
    pub status: ArtifactIngestionStatus,
    pub artifact_path: Option<String>,
    pub last_message: Option<String>,
}

/// A deployment strategy that a platform client offers.
#[derive(Debug)]
pub struct Strategy {
    pub name: String,
    pub platform: String,
}

/// The strategies offered by the client of one platform.
#[derive(Debug)]
pub struct ClientStrategySet {
    pub platform: String,
    pub strategies: Vec<Strategy>,
}

/// The model that a deployment serves.
#[derive(Debug)]
pub struct ModelReference {
    pub name: String,
    pub author: String,
    pub tenant_id: String,
}

/// A deployment of a model on a platform, with the state it is in and the
/// state it is asked to reach.
#[derive(Debug)]
pub struct ModelDeployment {
    pub id: u128,
    pub revision: u32,
    pub name: String,
    pub description: Option<String>,
    pub tenant_id: String,
    pub owner: String,
    pub platform: String,
    pub model: ModelReference,
    pub deployment_strategy: Option<String>,
    pub deployment_modality: String,
    pub visibility: Visibility,
    pub replicas: ReplicaGroup,
    /// How clients reach the served model, once the platform reports it.
    pub interface: Option<String>,
    /// What the platform reports of the deployment besides its state.
    pub metadata: Option<String>,
    pub state: State,
    pub desired_state: DesiredState,
    pub last_message: Option<String>,
}

/// How many replicas serve a deployment, and how the work is split.
#[derive(Clone, Debug)]
pub struct ReplicaGroup {
    pub count: u32,
    pub parallelism_strategies: Vec<String>,
}

/// A change of a deployment's metadata that a platform reports.
#[derive(Clone, Debug)]
pub enum ModelDeploymentMetadataDelta {
    NoChange,
    Replace(String),
}

/// A change of a deployment's interface that a platform reports.
#[derive(Clone, Debug)]
pub enum ModelDeploymentInterfaceDelta {
    NoChange,
    Replace(String),
}

/// A change of a deployment's replicas that a platform reports.
#[derive(Clone, Debug)]
pub enum ReplicaGroupDelta {
    NoChange,
    Replace(ReplicaGroup),
}

/// The metadata after a reported change, if any was reported.
pub open spec fn metadata_after(current: Option<String>, delta: Option<ModelDeploymentMetadataDelta>) -> Option<String> {
    match delta {
        Some(ModelDeploymentMetadataDelta::Replace(m)) => Some(m),
        _ => current,
    }
}

/// The interface after a reported change, if any was reported.
pub open spec fn interface_after(current: Option<String>, delta: Option<ModelDeploymentInterfaceDelta>) -> Option<String> {
    match delta {
        Some(ModelDeploymentInterfaceDelta::Replace(i)) => Some(i),
        _ => current,
    }
}

/// The replicas after a reported change, if any was reported.
pub open spec fn replicas_after(current: ReplicaGroup, delta: Option<ReplicaGroupDelta>) -> ReplicaGroup {
    match delta {
        Some(ReplicaGroupDelta::Replace(r)) => r,
        _ => current,
    }
}

#[derive(Clone, Copy, Debug, PartialEq, Eq, Structural)]
pub enum ModelDeploymentError {
    /// The deployment has reached the last revision number.
    RevisionExhausted,
}

impl ModelDeployment {
    /// The deployment with the changes that a platform reported applied:
    /// each reported `Replace` replaces its part; no change, or nothing
    /// reported, keeps it.
    pub fn apply_deltas(
        self,
        metadata: Option<ModelDeploymentMetadataDelta>,
        interface: Option<ModelDeploymentInterfaceDelta>,
        replicas: Option<ReplicaGroupDelta>,
    ) -> (d: ModelDeployment)
        ensures
            d == (ModelDeployment {
                metadata: metadata_after(self.metadata, metadata),
                interface: interface_after(self.interface, interface),
                replicas: replicas_after(self.replicas, replicas),
                ..self
            }),
    {
        let new_metadata = match metadata {
            Some(ModelDeploymentMetadataDelta::Replace(m)) => Some(m),
            _ => self.metadata,
        };
        let new_interface = match interface {
            Some(ModelDeploymentInterfaceDelta::Replace(i)) => Some(i),
            _ => self.interface,
        };
        let new_replicas = match replicas {
            Some(ReplicaGroupDelta::Replace(r)) => r,
            _ => self.replicas,
        };
        ModelDeployment {
            metadata: new_metadata,
            interface: new_interface,
            replicas: new_replicas,
            ..self
        }
    }

    /// The observed state is the one asked for.
    pub open spec fn is_state_synchronized_spec(&self) -> bool {
        match (self.state, self.desired_state) {
            (State::Running, DesiredState::Running) => true,
            (State::Stopped, DesiredState::Stopped) => true,
            (State::NotDeployed, DesiredState::NotDeployed) => true,
            _ => false,
        }
    }

    pub fn is_state_synchronized(&self) -> (b: bool)
        ensures
            b == self.is_state_synchronized_spec(),
    {
        match (self.state, self.desired_state) {
            (State::Running, DesiredState::Running) => true,
            (State::Stopped, DesiredState::Stopped) => true,
            (State::NotDeployed, DesiredState::NotDeployed) => true,
            _ => false,
        }
    }

    /// The next revision of the deployment, observed in `state`.
    pub fn transition_to_state(self, state: State, message: Option<String>) -> (r: Result<
        ModelDeployment,
        ModelDeploymentError,
    >)
        ensures
            self.revision < u32::MAX ==> r == Ok::<ModelDeployment, ModelDeploymentError>(
                (ModelDeployment {
                    revision: (self.revision + 1) as u32,
                    state,
                    last_message: message,
                    ..self
                }),
            ),
            self.revision == u32::MAX ==> r == Err::<ModelDeployment, ModelDeploymentError>(
                ModelDeploymentError::RevisionExhausted,
            ),
    {
        if self.revision == u32::MAX {
            return Err(ModelDeploymentError::RevisionExhausted);
        }
        Ok(ModelDeployment { revision: self.revision + 1, state, last_message: message, ..self })
    }

    /// The next revision of the deployment, asked to reach `desired_state`.
    pub fn transition_to_desired(self, desired_state: DesiredState, message: Option<String>) -> (r:
        Result<ModelDeployment, ModelDeploymentError>)
        ensures
            self.revision < u32::MAX ==> r == Ok::<ModelDeployment, ModelDeploymentError>(
                (ModelDeployment {
                    revision: (self.revision + 1) as u32,
                    desired_state,
                    last_message: message,
                    ..self
                }),
            ),
            self.revision == u32::MAX ==> r == Err::<ModelDeployment, ModelDeploymentError>(
                ModelDeploymentError::RevisionExhausted,
            ),
    {
        if self.revision == u32::MAX {
            return Err(ModelDeploymentError::RevisionExhausted);
        }
        Ok(
            ModelDeployment {
                revision: self.revision + 1,
                desired_state,
                last_message: message,
                ..self
            },
        )
    }
}

impl State {
    pub open spec fn name_spec(self) -> Seq<char> {
        match self {
            State::Unknown => "Unknown"@,
            State::NotDeployed => "NotDeployed"@,
            State::Running => "Running"@,
            State::Stopped => "Stopped"@,
            State::Failed => "Failed"@,
            State::Blocked => "Blocked"@,
        }
    }

    pub fn name(&self) -> (s: String)
        ensures
            s@ == self.name_spec(),
    {
        match self {
            State::Unknown => "Unknown".to_owned(),
            State::NotDeployed => "NotDeployed".to_owned(),
            State::Running => "Running".to_owned(),
            State::Stopped => "Stopped".to_owned(),
            State::Failed => "Failed".to_owned(),
            State::Blocked => "Blocked".to_owned(),
        }
    }
}

impl DesiredState {
    pub open spec fn name_spec(self) -> Seq<char> {
        match self {
            DesiredState::Running => "Running"@,
            DesiredState::Stopped => "Stopped"@,
            DesiredState::NotDeployed => "NotDeployed"@,
        }
    }

    pub fn name(&self) -> (s: String)
        ensures
            s@ == self.name_spec(),
    {
        match self {
            DesiredState::Running => "Running".to_owned(),
            DesiredState::Stopped => "Stopped".to_owned(),
            DesiredState::NotDeployed => "NotDeployed".to_owned(),
        }
    }
}

/// A copy of an optional message.
pub fn copy_message(m: &Option<String>) -> (c: Option<String>)
    ensures
        c == *m,
{
    match m {
        Some(s) => Some(s.clone()),
        None => None,
    }
}

} // verus!

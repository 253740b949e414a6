//! Registers agents, each optionally described by an agent record of the
//! actor's tenant, issues the endpoints of their network targets, and lists
//! them for an actor.

use vstd::prelude::*;
use crate::application::ports::agent::AgentRepositoryError;
use crate::application::ports::agent_record::AgentRecordRepositoryError;
use crate::application::services::endpoint_service::EndpointServiceError;
use crate::domain::{Agent, AgentEndpoint};
use crate::shared_kernel::{RequestContext, Visibility};

verus! {

#[derive(Debug)]
pub enum AgentServiceError {
    Repository(AgentRepositoryError),
    AgentRecordRepository(AgentRecordRepositoryError),
    /// No agent record has this id in the actor's tenant
    AgentRecordNotFound(u128),
    /// The agent breaks a rule of the domain; the message says which.
    Domain(String),
    /// The agent was saved but its endpoints could not be issued.
    EndpointIssuance(EndpointServiceError),
}

/// What an actor gives to register an agent.
pub struct RegisterAgentInput {
    pub name: String,
    pub description: String,
    pub deployment_modality: String,
    pub endpoints: Vec<AgentEndpoint>,
    pub tags: Vec<String>,
    pub agent_record_id: Option<u128>,
    pub visibility: Visibility,
}

/// The positions, in order, of the agent's endpoints that have a base URL:
/// those for which network endpoints are issued.
pub open spec fn network_target_positions(endpoints: Seq<AgentEndpoint>) -> Seq<int>
    decreases endpoints.len(),
{
    if endpoints.len() == 0 {
        Seq::empty()
    } else {
        let rest = network_target_positions(endpoints.drop_last());
        if endpoints.last().base_url is Some {
            rest.push(endpoints.len() - 1)
        } else {
            rest
        }
    }
}

pub struct AgentService<A, R, E> {
    agent_repository: A,
    agent_record_repository: R,
    endpoint_service: E,
}

impl<A, R, E> AgentService<A, R, E> {
    pub closed spec fn agent_repository_spec(&self) -> A {
        self.agent_repository
    }

    pub closed spec fn agent_record_repository_spec(&self) -> R {
        self.agent_record_repository
    }

    pub closed spec fn endpoint_service_spec(&self) -> E {
        self.endpoint_service
    }

    pub fn new(agent_repository: A, agent_record_repository: R, endpoint_service: E) -> (s: Self)
        ensures
            s.agent_repository_spec() == agent_repository,
            s.agent_record_repository_spec() == agent_record_repository,
            s.endpoint_service_spec() == endpoint_service,
    {
        AgentService { agent_repository, agent_record_repository, endpoint_service }
    }

    pub fn agent_repository(&self) -> (r: &A)
        ensures
            *r == self.agent_repository_spec(),
    {
        &self.agent_repository
    }

    pub fn agent_record_repository(&self) -> (r: &R)
        ensures
            *r == self.agent_record_repository_spec(),
    {
        &self.agent_record_repository
    }

    pub fn endpoint_service(&self) -> (r: &E)
        ensures
            *r == self.endpoint_service_spec(),
    {
        &self.endpoint_service
    }

    /// The agent record that a registration names, as the repository found
    /// it by id; a named record must exist.
    pub fn require_agent_record<T>(id: u128, found: Option<T>) -> (r: Result<T, AgentServiceError>)
        ensures
            match found {
                Some(record) => r == Ok::<T, AgentServiceError>(record),
                None => r matches Err(AgentServiceError::AgentRecordNotFound(missing)) && missing
                    == id,
            },
    {
        match found {
            Some(record) => Ok(record),
            None => Err(AgentServiceError::AgentRecordNotFound(id)),
        }
    }

    /// The agent to register: owned by the actor, in the actor's tenant,
    /// with what the actor gave, under the id given.
    pub fn new_agent(ctx: &RequestContext, input: RegisterAgentInput, id: u128) -> (a: Agent)
        ensures
            a.id == id,
            a.tenant_id@ == ctx.tenant_view(),
            a.owner@ == ctx.principal_view(),
            a.name == input.name,
            a.description == input.description,
            a.deployment_modality == input.deployment_modality,
            a.endpoints == input.endpoints,
            a.tags == input.tags,
            a.agent_record_id == input.agent_record_id,
            a.visibility == input.visibility,
    {
        Agent {
            id,
            tenant_id: ctx.actor_tenant_id().clone(),
            owner: ctx.actor_principal_id().clone(),
            name: input.name,
            description: input.description,
            deployment_modality: input.deployment_modality,
            endpoints: input.endpoints,
            tags: input.tags,
            agent_record_id: input.agent_record_id,
            visibility: input.visibility,
        }
    }

    /// The positions of the agent's endpoints for which network endpoints
    /// are issued; none when no endpoint has a base URL.
    pub fn network_targets(agent: &Agent) -> (positions: Vec<usize>)
        ensures
            positions@.map_values(|p: usize| p as int) == network_target_positions(
                agent.endpoints@,
            ),
    {
        let mut positions: Vec<usize> = Vec::new();
        let mut i: usize = 0;
        while i < agent.endpoints.len()
            invariant
                i <= agent.endpoints@.len(),
                positions@.map_values(|p: usize| p as int) == network_target_positions(
                    agent.endpoints@.take(i as int),
                ),
            decreases agent.endpoints@.len() - i,
        {
            let ghost before = positions@;
            assert(agent.endpoints@.take(i as int + 1).drop_last() =~= agent.endpoints@.take(
                i as int,
            ));
            if agent.endpoints[i].base_url.is_some() {
                positions.push(i);
                assert(positions@.map_values(|p: usize| p as int) =~= before.map_values(
                    |p: usize| p as int,
                ).push(i as int));
            }
            i = i + 1;
        }
        assert(agent.endpoints@.take(i as int) =~= agent.endpoints@);
        positions
    }

    /// The outcome of issuing the saved agent's endpoints: the agent, or the
    /// issuance failure.
    pub fn conclude_registration<T>(agent: Agent, issued: Result<T, EndpointServiceError>) -> (r:
        Result<Agent, AgentServiceError>)
        ensures
            match issued {
                Ok(_) => r == Ok::<Agent, AgentServiceError>(agent),
                Err(e) => r matches Err(AgentServiceError::EndpointIssuance(f)) && f == e,
            },
    {
        match issued {
            Ok(_) => Ok(agent),
            Err(e) => Err(AgentServiceError::EndpointIssuance(e)),
        }
    }
}

} // verus!

//! Creates agent records for an actor and lists them.

use vstd::prelude::*;
use crate::application::ports::agent_record::AgentRecordRepositoryError;

verus! {

#[derive(Debug)]
pub enum AgentRecordServiceError {
    Repository(AgentRecordRepositoryError),
    /// The record breaks a rule of the domain; the message says which.
    Domain(String),
    /// A skill of the record is invalid; the message says why.
    Skill(String),
}

pub struct AgentRecordService<R> {
    agent_record_repository: R,
}

impl<R> AgentRecordService<R> {
    pub closed spec fn repository_spec(&self) -> R {
        self.agent_record_repository
    }

    pub fn new(agent_record_repository: R) -> (s: Self)
        ensures
            s.repository_spec() == agent_record_repository,
    {
        AgentRecordService { agent_record_repository }
    }

    pub fn agent_record_repository(&self) -> (r: &R)
        ensures
            *r == self.repository_spec(),
    {
        &self.agent_record_repository
    }
}

} // verus!

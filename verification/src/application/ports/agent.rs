use vstd::prelude::*;
use crate::application::ports::errors::InfrastructureError;

verus! {

#[derive(Clone, Debug)]
pub enum AgentRepositoryError {
    Persistence(InfrastructureError),
}

} // verus!

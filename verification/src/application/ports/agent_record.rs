use vstd::prelude::*;
use crate::application::ports::errors::InfrastructureError;

verus! {

#[derive(Clone, Debug)]
pub enum AgentRecordRepositoryError {
    Persistence(InfrastructureError),
}

} // verus!

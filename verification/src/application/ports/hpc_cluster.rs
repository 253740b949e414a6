use vstd::prelude::*;
use crate::application::ports::errors::InfrastructureError;

verus! {

#[derive(Clone, Debug)]
pub enum HpcClusterRepositoryError {
    Persistence(InfrastructureError),
}

} // verus!

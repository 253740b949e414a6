use vstd::prelude::*;
use crate::application::ports::errors::CommonRepositoryError;

verus! {

#[derive(Clone, Debug)]
pub enum DeploymentArgumentRepositoryError {
    Persistence(CommonRepositoryError),
}

} // verus!

use vstd::prelude::*;
use crate::domain::PrincipalError;

verus! {

#[derive(Clone, Debug)]
pub enum PrincipalRepositoryError {
    /// Failed to persist; `retriable` says whether trying again may help.
    PersistenceError { retriable: bool, message: String },
    ProgrammingError(String),
    /// Duplicate Principal
    PrincipalAlreadyExists,
    /// The federated identity with this subject (first) and issuer (second)
    /// already belongs to another principal.
    FederatedIdentityAlreadyOwned(String, String),
    DomainError(PrincipalError),
}

} // verus!

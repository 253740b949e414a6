//! Principals of the hub, found or created from the federated identity they
//! authenticate with.

use vstd::prelude::*;
use crate::application::ports::principal::PrincipalRepositoryError;
use crate::application::retries::RetryStrategyAction;
use crate::domain::{FederatedIdentity, Principal, PrincipalError};

verus! {

#[derive(Clone, Debug)]
pub enum PrincipalServiceError {
    /// Principal already exists
    PrincipalConflict,
    /// The federated identity with this issuer (first) and subject (second)
    /// already belongs to another principal
    FederatedIdentityConflict(String, String),
    /// Unexpected internal error
    InternalError(String),
}

/// The service error that a failure of the repository is reported as:
/// conflicts stay conflicts (an identity conflict naming the issuer first),
/// and every other failure is internal, with its message.
pub open spec fn reported_as(value: PrincipalRepositoryError, e: PrincipalServiceError) -> bool {
    match value {
        PrincipalRepositoryError::DomainError(err) => e matches PrincipalServiceError::InternalError(m)
            && m@ == err.message_spec(),
        PrincipalRepositoryError::ProgrammingError(msg) => e == PrincipalServiceError::InternalError(
            msg,
        ),
        PrincipalRepositoryError::PersistenceError { message, .. } => e
            == PrincipalServiceError::InternalError(message),
        PrincipalRepositoryError::FederatedIdentityAlreadyOwned(sub, iss) => e
            == PrincipalServiceError::FederatedIdentityConflict(iss, sub),
        PrincipalRepositoryError::PrincipalAlreadyExists => e
            == PrincipalServiceError::PrincipalConflict,
    }
}

impl PrincipalServiceError {
    /// The service error that a failure of the principal domain becomes.
    pub fn from_principal_error(value: PrincipalError) -> (e: Self)
        ensures
            e matches PrincipalServiceError::InternalError(m) && m@ == value.message_spec(),
    {
        PrincipalServiceError::InternalError(value.message())
    }

    /// The service error that a failure of the repository becomes: conflicts
    /// stay conflicts (an identity conflict naming the issuer first), and
    /// every other failure is internal, with its message.
    pub fn from_repository_error(value: PrincipalRepositoryError) -> (e: Self)
        ensures
            reported_as(value, e),
    {
        match value {
            PrincipalRepositoryError::DomainError(err) => PrincipalServiceError::InternalError(
                err.message(),
            ),
            PrincipalRepositoryError::ProgrammingError(msg) => PrincipalServiceError::InternalError(
                msg,
            ),
            PrincipalRepositoryError::PersistenceError { message, .. } => {
                PrincipalServiceError::InternalError(message)
            },
            PrincipalRepositoryError::FederatedIdentityAlreadyOwned(sub, iss) => {
                PrincipalServiceError::FederatedIdentityConflict(iss, sub)
            },
            PrincipalRepositoryError::PrincipalAlreadyExists => PrincipalServiceError::PrincipalConflict,
        }
    }
}

/// A lookup of a principal is tried again only after a persistence failure
/// that says it may be retried.
pub open spec fn is_retriable(err: PrincipalRepositoryError) -> bool {
    match err {
        PrincipalRepositoryError::PersistenceError { retriable, .. } => retriable,
        _ => false,
    }
}

pub struct PrincipalService<R> {
    principal_repository: R,
}

impl<R> PrincipalService<R> {
    pub closed spec fn repository_spec(&self) -> R {
        self.principal_repository
    }

    pub fn new(principal_repository: R) -> (s: Self)
        ensures
            s.repository_spec() == principal_repository,
    {
        PrincipalService { principal_repository }
    }

    pub fn principal_repository(&self) -> (r: &R)
        ensures
            *r == self.repository_spec(),
    {
        &self.principal_repository
    }

    /// Whether the lookup of a principal by identity is tried again after
    /// this failure.
    pub fn retry_strategy(err: &PrincipalRepositoryError) -> (action: RetryStrategyAction)
        ensures
            action == (if is_retriable(*err) {
                RetryStrategyAction::ContinueRetries
            } else {
                RetryStrategyAction::ReturnResult
            }),
    {
        match err {
            PrincipalRepositoryError::DomainError(_)
            | PrincipalRepositoryError::FederatedIdentityAlreadyOwned(..)
            | PrincipalRepositoryError::PrincipalAlreadyExists
            | PrincipalRepositoryError::ProgrammingError(_) => RetryStrategyAction::ReturnResult,
            PrincipalRepositoryError::PersistenceError { retriable, .. } => {
                if *retriable {
                    RetryStrategyAction::ContinueRetries
                } else {
                    RetryStrategyAction::ReturnResult
                }
            },
        }
    }
}

/// A request for the principal of a federated identity, to be created under
/// `principal_id` when none exists.
pub struct GetOrCreateFromFederatedIdentity {
    pub principal_id: u128,
    pub identity: FederatedIdentity,
}

/// What follows the lookup of a principal by identity.
#[derive(Debug)]
pub enum PrincipalLookup {
    /// The identity already has this principal.
    Found(Principal),
    /// The identity has none: this new user principal is to be saved.
    Create(Principal),
}

/// The principal of the identity, as the lookup found it, or else a new user
/// principal under the id asked for, in the identity's tenant.
pub fn found_or_new(found: Option<Principal>, input: GetOrCreateFromFederatedIdentity) -> (r:
    PrincipalLookup)
    ensures
        match found {
            Some(p) => r == PrincipalLookup::Found(p),
            None => r == PrincipalLookup::Create(
                Principal {
                    id: input.principal_id,
                    tenant_id: input.identity.tenant_id,
                    identity: input.identity,
                },
            ),
        },
{
    match found {
        Some(p) => PrincipalLookup::Found(p),
        None => {
            let tenant_id = input.identity.tenant_id.clone();
            PrincipalLookup::Create(
                Principal { id: input.principal_id, tenant_id, identity: input.identity },
            )
        },
    }
}

/// The outcome of saving a new principal: the principal, or the failure as
/// the service reports it.
pub fn conclude_creation(principal: Principal, saved: Result<(), PrincipalRepositoryError>) -> (r:
    Result<Principal, PrincipalServiceError>)
    ensures
        match saved {
            Ok(()) => r == Ok::<Principal, PrincipalServiceError>(principal),
            Err(e) => r matches Err(f) && reported_as(e, f),
        },
{
    match saved {
        Ok(()) => Ok(principal),
        Err(e) => Err(PrincipalServiceError::from_repository_error(e)),
    }
}

} // verus!

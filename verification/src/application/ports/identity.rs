use vstd::prelude::*;
use crate::domain::Idp;

verus! {

#[derive(Clone, Debug)]
pub enum FederatedIdentityProviderError {
    /// The provider for this authority could not be initialised.
    InitializationError(Idp, String),
    MalformedCredentials(String),
    InternalIdpError(String),
    InvalidCredentials(String),
}

/// A provider of federated identities. Authentication itself is carried out
/// by the application around this library; what the library relies on is
/// the authority that the provider speaks for.
pub trait FederatedIdentityProvider {
    /// The authority that the provider speaks for.
    fn authority(&self) -> Idp;
}

} // verus!

//! The services that every application of the hub shares.

use vstd::prelude::*;
use crate::application::services::federated_identity_service::FederatedIdentityService;
use crate::application::services::federated_idp_registrar::FederatedIdpRegistrar;
use crate::application::services::principal_service::PrincipalService;

verus! {

/// The site's configuration, with the registry of identity providers and
/// the identity and principal services built from it.
pub struct SharedAppContext<C, P, R> {
    pub config: C,
    pub idp_registrar: FederatedIdpRegistrar<P>,
    pub federated_identity_service: FederatedIdentityService,
    pub principal_service: PrincipalService<R>,
}

pub fn build_federated_identity_service() -> (s: FederatedIdentityService) {
    FederatedIdentityService
}

} // verus!

use vstd::prelude::*;
use crate::domain::Idp;

verus! {

/// Resolves which identity provider issued a token.
pub struct FederatedIdentityService;

impl FederatedIdentityService {
    /// Every token is resolved to Tapis, the one provider the hub federates with.
    pub fn resolve_idp_from_token(&self, _token: &String) -> (idp: Option<Idp>)
        ensures
            idp == Some(Idp::Tapis),
    {
        Some(Idp::Tapis)
    }
}

} // verus!

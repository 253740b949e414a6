//! Reads the deployment strategies that the platform clients offer.

use vstd::prelude::*;

verus! {

/// The platform and name of the strategy asked for.
pub struct GetStrategyByPlatformAndNameInput {
    pub platform: String,
    pub name: String,
}

pub struct DeploymentStrategyService<P> {
    provider: P,
}

impl<P> DeploymentStrategyService<P> {
    pub closed spec fn provider_spec(&self) -> P {
        self.provider
    }

    pub fn new(provider: P) -> (s: Self)
        ensures
            s.provider_spec() == provider,
    {
        DeploymentStrategyService { provider }
    }

    pub fn provider(&self) -> (r: &P)
        ensures
            *r == self.provider_spec(),
    {
        &self.provider
    }
}

} // verus!

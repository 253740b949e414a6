use vstd::prelude::*;

verus! {

/// The platform and name of the deployment strategy asked of a provider.
pub struct GetStrategyByPlatformAndNameInput {
    pub platform: String,
    pub name: String,
}

} // verus!

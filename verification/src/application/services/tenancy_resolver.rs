//! Resolves the tenant id from the intent expressed as a `Scope`: the global
//! scope resolves to the global tenant, the tenant scope to the given tenant.

use vstd::prelude::*;
use crate::shared_kernel::{Scope, GLOBAL_TENANT};

verus! {

pub struct TenancyResolver;

impl TenancyResolver {
    pub open spec fn spec_resolve(scope: Scope, tenant_id: Seq<char>) -> Seq<char> {
        match scope {
            Scope::Global => GLOBAL_TENANT@,
            Scope::Tenant => tenant_id,
        }
    }

    pub fn resolve_from_scope(scope: &Scope, tenant_id: &String) -> (resolved: String)
        ensures
            resolved@ == Self::spec_resolve(*scope, tenant_id@),
    {
        match scope {
            Scope::Global => GLOBAL_TENANT.to_owned(),
            Scope::Tenant => tenant_id.clone(),
        }
    }
}

} // verus!

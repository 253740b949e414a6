use vstd::prelude::*;

verus! {

/// The tenant that owns globally scoped resources.
pub const GLOBAL_TENANT: &'static str = "__GLOBAL__";

/// The principal that acts for the platform itself.
pub const SYSTEM_PRINCIPAL: &'static str = "mlhub";

/// Who may see a resource besides its owner.
#[derive(Clone, Copy, Debug, PartialEq, Eq, Structural)]
pub enum Visibility {
    Private,
    Public,
}

/// A resource is visible to a principal that owns it, and to everyone when public.
pub open spec fn visible_to(owner: Seq<char>, visibility: Visibility, principal: Seq<char>) -> bool {
    owner == principal || visibility == Visibility::Public
}

/// Whether the actor of `ctx` may see a resource of this owner and visibility.
pub fn is_visible_to(owner: &String, visibility: Visibility, ctx: &RequestContext) -> (b: bool)
    ensures
        b == visible_to(owner@, visibility, ctx.principal_view()),
{
    let is_owner = *owner == *ctx.actor_principal_id();
    let is_public = match visibility {
        Visibility::Public => true,
        Visibility::Private => false,
    };
    is_owner || is_public
}

/// The scope in which a lookup is meant: the global tenant or the actor's own.
#[derive(Clone, Copy, Debug, PartialEq, Eq, Structural)]
pub enum Scope {
    Global,
    Tenant,
}

/// The actor on whose behalf a request is served.
#[derive(Clone, Debug)]
pub struct RequestContext {
    actor_tenant_id: String,
    actor_principal_id: String,
}

impl RequestContext {
    pub closed spec fn tenant_view(&self) -> Seq<char> {
        self.actor_tenant_id@
    }

    pub closed spec fn principal_view(&self) -> Seq<char> {
        self.actor_principal_id@
    }

    pub fn new(actor_tenant_id: String, actor_principal_id: String) -> (ctx: Self)
        ensures
            ctx.tenant_view() == actor_tenant_id@,
            ctx.principal_view() == actor_principal_id@,
    {
        RequestContext { actor_tenant_id, actor_principal_id }
    }

    /// The platform acting for itself, in the given tenant or else in the global one.
    pub fn system(tenant_id: Option<String>) -> (ctx: Self)
        ensures
            ctx.tenant_view() == (match tenant_id {
                Some(t) => t@,
                None => GLOBAL_TENANT@,
            }),
            ctx.principal_view() == SYSTEM_PRINCIPAL@,
    {
        let actor_tenant_id = match tenant_id {
            Some(t) => t,
            None => GLOBAL_TENANT.to_owned(),
        };
        RequestContext { actor_tenant_id, actor_principal_id: SYSTEM_PRINCIPAL.to_owned() }
    }

    pub fn actor_tenant_id(&self) -> (t: &String)
        ensures
            t@ == self.tenant_view(),
    {
        &self.actor_tenant_id
    }

    pub fn actor_principal_id(&self) -> (p: &String)
        ensures
            p@ == self.principal_view(),
    {
        &self.actor_principal_id
    }
}

} // verus!

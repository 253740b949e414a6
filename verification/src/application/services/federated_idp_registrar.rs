//! The registry of identity providers, at most one per authority.

use vstd::prelude::*;
use crate::application::ports::identity::{FederatedIdentityProvider, FederatedIdentityProviderError};
use crate::domain::Idp;

verus! {

#[derive(Clone, Debug)]
pub enum FederatedIdpRegistrarError {
    /// An IDP is already registered with this authority
    DuplicateAuthorityRegistration(String),
    FederatedIdentityError(FederatedIdentityProviderError),
}

/// The registered providers, each with the authority it gave when it was
/// registered, in the order of registration.
pub struct FederatedIdpRegistrar<P> {
    providers: Vec<(Idp, P)>,
}

impl<P> FederatedIdpRegistrar<P> {
    pub closed spec fn entries(&self) -> Seq<(Idp, P)> {
        self.providers@
    }

    pub open spec fn authorities(&self) -> Seq<Idp> {
        self.entries().map_values(|e: (Idp, P)| e.0)
    }

    /// No two providers share an authority.
    pub open spec fn wf(&self) -> bool {
        forall|i: int, j: int|
            0 <= i < j < self.entries().len() ==> (#[trigger] self.entries()[i]).0 != (
            #[trigger] self.entries()[j]).0
    }

    #[verifier::type_invariant]
    spec fn keeps_one_provider_per_authority(&self) -> bool {
        self.wf()
    }

    pub fn new() -> (r: Self)
        ensures
            r.entries().len() == 0,
            r.wf(),
    {
        FederatedIdpRegistrar { providers: Vec::new() }
    }

    fn position_of(&self, authority: Idp) -> (r: Option<usize>)
        ensures
            match r {
                Some(i) => i < self.entries().len() && self.entries()[i as int].0 == authority
                    && forall|j: int| 0 <= j < i ==> (#[trigger] self.entries()[j]).0 != authority,
                None => forall|j: int|
                    0 <= j < self.entries().len() ==> (#[trigger] self.entries()[j]).0 != authority,
            },
    {
        let mut i: usize = 0;
        while i < self.providers.len()
            invariant
                i <= self.providers@.len(),
                forall|j: int| 0 <= j < i ==> (#[trigger] self.providers@[j]).0 != authority,
            decreases self.providers@.len() - i,
        {
            if self.providers[i].0 == authority {
                return Some(i);
            }
            i = i + 1;
        }
        None
    }

    /// Registers a provider under the authority given, unless a provider is
    /// already registered under it.
    pub fn register_with_authority(&mut self, authority: Idp, idp: P) -> (r: Result<
        (),
        FederatedIdpRegistrarError,
    >)
        ensures
            final(self).wf(),
            (exists|j: int|
                0 <= j < old(self).entries().len() && (#[trigger] old(self).entries()[j]).0
                    == authority) ==> (r matches Err(
                FederatedIdpRegistrarError::DuplicateAuthorityRegistration(name),
            ) && name@ == authority.name_spec() && final(self).entries() == old(self).entries()),
            !(exists|j: int|
                0 <= j < old(self).entries().len() && (#[trigger] old(self).entries()[j]).0
                    == authority) ==> (r is Ok && final(self).entries()
                == old(self).entries().push((authority, idp))),
    {
        proof {
            use_type_invariant(&*self);
        }
        match self.position_of(authority) {
            Some(_) => Err(FederatedIdpRegistrarError::DuplicateAuthorityRegistration(authority.name())),
            None => {
                let mut providers: Vec<(Idp, P)> = Vec::new();
                std::mem::swap(&mut providers, &mut self.providers);
                providers.push((authority, idp));
                self.providers = providers;
                Ok(())
            },
        }
    }

    /// The provider registered under the authority, if any: nothing exactly
    /// when no provider was registered under it.
    pub fn get_by_authority(&self, authority: Idp) -> (r: Option<&P>)
        ensures
            match r {
                Some(p) => lookup_in(self.entries(), authority) == Some(*p),
                None => lookup_in(self.entries(), authority) is None,
            },
            r is None <==> !self.authorities().contains(authority),
            r matches Some(p) ==> exists|i: int|
                0 <= i < self.entries().len() && #[trigger] self.entries()[i] == (authority, *p),
    {
        match self.position_of(authority) {
            Some(i) => {
                proof {
                    lemma_lookup_first(self.entries(), authority, i as int);
                    assert(self.authorities()[i as int] == authority);
                    assert(self.entries()[i as int] == (authority, self.providers@[i as int].1));
                }
                Some(&self.providers[i].1)
            },
            None => {
                proof {
                    lemma_lookup_first(self.entries(), authority, -1);
                    if self.authorities().contains(authority) {
                        let k = choose|k: int|
                            0 <= k < self.authorities().len() && self.authorities()[k] == authority;
                        assert(self.entries()[k].0 == authority);
                    }
                }
                None
            },
        }
    }
}

/// The hub federates with a single authority, so every provider reports
/// it: a registry holds at most one provider.
pub proof fn lemma_one_authority(a: Idp)
    ensures
        a == Idp::Tapis,
{
    match a {
        Idp::Tapis => {},
    }
}

/// What registering `idp` under the authority `a` does: when `a` is already
/// held the registration is refused, naming `a`, and the entries stay as they
/// were; otherwise it succeeds and the entries gain `(a, idp)` at the end.
pub open spec fn registered_under<P>(
    before: Seq<(Idp, P)>,
    after: Seq<(Idp, P)>,
    a: Idp,
    idp: P,
    r: Result<(), FederatedIdpRegistrarError>,
) -> bool {
    &&& before.map_values(|e: (Idp, P)| e.0).contains(a) ==> (r matches Err(
        FederatedIdpRegistrarError::DuplicateAuthorityRegistration(n),
    ) && n@ == a.name_spec() && after == before)
    &&& !before.map_values(|e: (Idp, P)| e.0).contains(a) ==> (r is Ok && after == before.push(
        (a, idp),
    ))
}

impl<P: FederatedIdentityProvider> FederatedIdpRegistrar<P> {
    /// Registers a provider under the authority it reports, unless a
    /// provider is already registered under that authority. Which authority
    /// the provider reports is its own affair; whatever it is, the
    /// registration is refused exactly when that authority is already held,
    /// and otherwise the registry grows by this provider under it.
    pub fn register(&mut self, idp: P) -> (r: Result<(), FederatedIdpRegistrarError>)
        ensures
            final(self).wf(),
            exists|a: Idp| registered_under(old(self).entries(), final(self).entries(), a, idp, r),
            r is Ok <==> old(self).entries().len() == 0,
            r is Ok ==> final(self).entries() == old(self).entries().push((Idp::Tapis, idp)),
            r is Ok ==> exists|a: Idp|
                !old(self).authorities().contains(a) && final(self).entries() == old(
                    self,
                ).entries().push((a, idp)),
            r is Err ==> final(self).entries() == old(self).entries(),
            r matches Err(e) ==> (e matches FederatedIdpRegistrarError::DuplicateAuthorityRegistration(
                name,
            ) && exists|k: int|
                0 <= k < old(self).entries().len() && (#[trigger] old(self).entries()[k]).0.name_spec()
                    == name@),
    {
        proof {
            use_type_invariant(&*self);
        }
        let authority = idp.authority();
        let ghost before = self.entries();
        let r = self.register_with_authority(authority, idp);
        proof {
            if old(self).authorities().contains(authority) {
                let k = choose|k: int|
                    0 <= k < old(self).authorities().len() && old(self).authorities()[k]
                        == authority;
                assert(old(self).entries()[k].0 == authority);
            } else {
                assert forall|j: int| 0 <= j < before.len() implies (#[trigger] before[j]).0
                    != authority by {
                    if before[j].0 == authority {
                        assert(old(self).authorities()[j] == authority);
                    }
                }
            }
            assert(registered_under(before, self.entries(), authority, idp, r));
            lemma_one_authority(authority);
            if before.len() > 0 {
                lemma_one_authority(before[0].0);
                assert(old(self).authorities()[0] == authority);
            }
        }
        r
    }
}

/// The provider registered under an authority among these entries, if any:
/// the earliest one registered under it.
pub open spec fn lookup_in<P>(entries: Seq<(Idp, P)>, authority: Idp) -> Option<P>
    decreases entries.len(),
{
    if entries.len() == 0 {
        None
    } else if lookup_in(entries.drop_last(), authority) is Some {
        lookup_in(entries.drop_last(), authority)
    } else if entries.last().0 == authority {
        Some(entries.last().1)
    } else {
        None
    }
}

/// The lookup finds the entry at the first position registered under the
/// authority, and nothing when no entry is.
proof fn lemma_lookup_first<P>(entries: Seq<(Idp, P)>, authority: Idp, i: int)
    requires
        -1 <= i < entries.len(),
        i >= 0 ==> entries[i].0 == authority,
        forall|j: int|
            0 <= j < entries.len() && (i == -1 || j < i) ==> (#[trigger] entries[j]).0
                != authority,
    ensures
        i >= 0 ==> lookup_in(entries, authority) == Some(entries[i].1),
        i == -1 ==> lookup_in(entries, authority) is None,
    decreases entries.len(),
{
    if entries.len() > 0 {
        let rest = entries.drop_last();
        let last = entries.len() - 1;
        if i == last {
            assert forall|j: int| 0 <= j < rest.len() implies (#[trigger] rest[j]).0 != authority by {
                assert(rest[j] == entries[j]);
            }
            lemma_lookup_first(rest, authority, -1);
        } else {
            assert forall|j: int|
                0 <= j < rest.len() && (i == -1 || j < i) implies (#[trigger] rest[j]).0
                != authority by {
                assert(rest[j] == entries[j]);
            }
            if i >= 0 {
                assert(rest[i] == entries[i]);
            }
            lemma_lookup_first(rest, authority, i);
        }
    }
}

/// Once a provider is registered under an authority that had none, looking
/// the authority up finds that provider, and every other authority finds
/// what it found before.
pub proof fn lemma_registered_provider_is_found<P>(
    registrar: FederatedIdpRegistrar<P>,
    authority: Idp,
    idp: P,
    other: Idp,
)
    requires
        registrar.wf(),
        !registrar.authorities().contains(authority),
    ensures
        lookup_in(registrar.entries().push((authority, idp)), authority) == Some(idp),
        other != authority ==> lookup_in(registrar.entries().push((authority, idp)), other)
            == lookup_in(registrar.entries(), other),
{
    let before = registrar.entries();
    let after = before.push((authority, idp));
    assert(after.drop_last() =~= before);
    assert forall|j: int| 0 <= j < before.len() implies (#[trigger] before[j]).0 != authority by {
        if before[j].0 == authority {
            assert(registrar.authorities()[j] == authority);
        }
    }
    lemma_lookup_first(before, authority, -1);
}

/// In a registry, every provider is found under the authority it was
/// registered with, and an authority that no provider was registered with
/// finds nothing.
pub proof fn lemma_each_registered_provider_is_found<P>(
    registrar: FederatedIdpRegistrar<P>,
    i: int,
    authority: Idp,
)
    requires
        registrar.wf(),
    ensures
        0 <= i < registrar.entries().len() ==> lookup_in(
            registrar.entries(),
            registrar.entries()[i].0,
        ) == Some(registrar.entries()[i].1),
        !registrar.authorities().contains(authority) ==> lookup_in(
            registrar.entries(),
            authority,
        ) is None,
{
    let entries = registrar.entries();
    if 0 <= i < entries.len() {
        assert forall|j: int| 0 <= j < entries.len() && j < i implies (#[trigger] entries[j]).0
            != entries[i].0 by {
            assert(entries[j].0 != entries[i].0);
        }
        lemma_lookup_first(entries, entries[i].0, i);
    }
    if !registrar.authorities().contains(authority) {
        assert forall|j: int| 0 <= j < entries.len() implies (#[trigger] entries[j]).0
            != authority by {
            if entries[j].0 == authority {
                assert(registrar.authorities()[j] == authority);
            }
        }
        lemma_lookup_first(entries, authority, -1);
    }
}

/// Builds the registry of the given providers, registered in order, or
/// refuses it when two of them report the same authority. A registry built
/// holds every provider, in the order given, each under a distinct authority.
#[verifier::loop_isolation(false)]
pub fn build_idp_registrar<P: FederatedIdentityProvider>(idps: Vec<P>) -> (r: Result<
    FederatedIdpRegistrar<P>,
    FederatedIdpRegistrarError,
>)
    ensures
        r matches Ok(reg) ==> (reg.wf() && reg.entries().len() == idps@.len() && forall|i: int|
            0 <= i < idps@.len() ==> #[trigger] reg.entries()[i].1 == idps@[i]),
        r matches Ok(reg) ==> forall|i: int|
            0 <= i < idps@.len() ==> lookup_in(reg.entries(), #[trigger] reg.entries()[i].0)
                == Some(idps@[i]),
        r matches Err(e) ==> e is DuplicateAuthorityRegistration,
        idps@.len() <= 1 ==> r is Ok,
        r is Err ==> idps@.len() >= 2,
        r is Ok <==> idps@.len() <= 1,
        r matches Ok(reg) ==> forall|a: Idp|
            #[trigger] lookup_in(reg.entries(), a) == if idps@.len() == 1 {
                Some(idps@[0])
            } else {
                None::<P>
            },
{
    let ghost all = idps@;
    let n = idps.len();
    let mut registrar = FederatedIdpRegistrar::new();
    let mut rest = idps;
    let mut done: usize = 0;
    proof {
        assert(rest@ =~= all.skip(0));
    }
    while done < n
        invariant
            n == all.len(),
            done <= n,
            rest@ == all.skip(done as int),
            registrar.wf(),
            registrar.entries().len() == done,
            forall|i: int| 0 <= i < done ==> #[trigger] registrar.entries()[i].1 == all[i],
        decreases n - done,
    {
        let idp = rest.remove(0);
        let ghost before = registrar.entries();
        proof {
            assert(all.skip(done as int)[0] == idp);
            assert(rest@ =~= all.skip(done as int + 1));
        }
        match registrar.register(idp) {
            Ok(()) => {
                proof {
                    let a = choose|a: Idp|
                        !before.map_values(|e: (Idp, P)| e.0).contains(a) && registrar.entries()
                            == before.push((a, all[done as int]));
                    assert forall|i: int| 0 <= i < done + 1 implies #[trigger] registrar.entries()[i].1
                        == all[i] by {
                        if i < done {
                            assert(registrar.entries()[i] == before[i]);
                        }
                    }
                }
                done = done + 1;
            },
            Err(e) => {
                assert(done >= 1);
                assert(n >= 2);
                return Err(e);
            },
        }
    }
    proof {
        assert forall|i: int| 0 <= i < n implies lookup_in(
            registrar.entries(),
            #[trigger] registrar.entries()[i].0,
        ) == Some(all[i]) by {
            lemma_each_registered_provider_is_found(registrar, i, registrar.entries()[i].0);
        }
        if n >= 2 {
            lemma_one_authority(registrar.entries()[0].0);
            lemma_one_authority(registrar.entries()[1].0);
            assert(registrar.entries()[0].0 != registrar.entries()[1].0);
        }
        assert forall|a: Idp| #[trigger] lookup_in(registrar.entries(), a) == if n == 1 {
            Some(all[0])
        } else {
            None::<P>
        } by {
            lemma_one_authority(a);
            if n == 1 {
                lemma_one_authority(registrar.entries()[0].0);
                lemma_each_registered_provider_is_found(registrar, 0, a);
            } else {
                lemma_each_registered_provider_is_found(registrar, 0, a);
                assert(registrar.entries().len() == 0);
                assert(!registrar.authorities().contains(a));
            }
        }
    }
    Ok(registrar)
}

} // verus!

use shared::application::services::principal_service::{
    conclude_creation, found_or_new, GetOrCreateFromFederatedIdentity, PrincipalLookup,
};
use shared::domain::{FederatedIdentity, Principal};
use shared::application::ports::identity::FederatedIdentityProvider;
use shared::application::ports::principal::PrincipalRepositoryError;
use shared::application::retries::RetryStrategyAction;
use shared::application::services::federated_identity_service::FederatedIdentityService;
use shared::application::services::federated_idp_registrar::{
    build_idp_registrar, FederatedIdpRegistrar, FederatedIdpRegistrarError,
};
use shared::application::services::principal_service::{PrincipalService, PrincipalServiceError};
use shared::application::services::tenancy_resolver::TenancyResolver;
use shared::bootstrap::build_federated_identity_service;
use shared::domain::{Idp, PrincipalError};
use shared::shared_kernel::{RequestContext, Scope};

struct Provider(u32);

impl FederatedIdentityProvider for Provider {
    fn authority(&self) -> Idp {
        Idp::Tapis
    }
}

#[test]
fn registered_provider_is_found_by_its_authority() {
    let mut registrar = FederatedIdpRegistrar::new();
    assert!(registrar.get_by_authority(Idp::Tapis).is_none());
    registrar.register(Provider(1)).unwrap();
    assert_eq!(registrar.get_by_authority(Idp::Tapis).map(|p| p.0), Some(1));
}

#[test]
fn second_provider_for_an_authority_is_refused() {
    let mut registrar = FederatedIdpRegistrar::new();
    registrar.register(Provider(1)).unwrap();
    match registrar.register(Provider(2)) {
        Err(FederatedIdpRegistrarError::DuplicateAuthorityRegistration(name)) => assert_eq!(name, "tapis"),
        other => panic!("unexpected {:?}", other),
    }
    assert_eq!(registrar.get_by_authority(Idp::Tapis).map(|p| p.0), Some(1));
}

#[test]
fn registry_is_built_from_providers_of_distinct_authorities() {
    let registrar = build_idp_registrar(vec![Provider(1)]).unwrap();
    assert_eq!(registrar.get_by_authority(Idp::Tapis).map(|p| p.0), Some(1));
    assert!(build_idp_registrar::<Provider>(vec![]).unwrap().get_by_authority(Idp::Tapis).is_none());
    assert!(matches!(
        build_idp_registrar(vec![Provider(1), Provider(2)]),
        Err(FederatedIdpRegistrarError::DuplicateAuthorityRegistration(_))
    ));
}

#[test]
fn tokens_are_resolved_to_tapis() {
    let service = build_federated_identity_service();
    assert_eq!(service.resolve_idp_from_token(&"any token".to_string()), Some(Idp::Tapis));
    assert_eq!(FederatedIdentityService.resolve_idp_from_token(&String::new()), Some(Idp::Tapis));
}

#[test]
fn scope_resolves_the_tenant() {
    assert_eq!(TenancyResolver::resolve_from_scope(&Scope::Global, &"t1".to_string()), "__GLOBAL__");
    assert_eq!(TenancyResolver::resolve_from_scope(&Scope::Tenant, &"t1".to_string()), "t1");
}

#[test]
fn system_context_acts_in_the_global_tenant_unless_told() {
    let ctx = RequestContext::system(None);
    assert_eq!(ctx.actor_tenant_id(), "__GLOBAL__");
    assert_eq!(ctx.actor_principal_id(), "mlhub");
    let ctx = RequestContext::system(Some("t9".to_string()));
    assert_eq!(ctx.actor_tenant_id(), "t9");
}

#[test]
fn principal_errors_map_to_service_errors() {
    match PrincipalServiceError::from_repository_error(PrincipalRepositoryError::FederatedIdentityAlreadyOwned(
        "sub".into(),
        "iss".into(),
    )) {
        PrincipalServiceError::FederatedIdentityConflict(first, second) => {
            assert_eq!(first, "iss");
            assert_eq!(second, "sub");
        }
        other => panic!("unexpected {:?}", other),
    }
    assert!(matches!(
        PrincipalServiceError::from_repository_error(PrincipalRepositoryError::PrincipalAlreadyExists),
        PrincipalServiceError::PrincipalConflict
    ));
    assert!(matches!(
        PrincipalServiceError::from_repository_error(PrincipalRepositoryError::PersistenceError {
            retriable: true,
            message: "down".into()
        }),
        PrincipalServiceError::InternalError(m) if m == "down"
    ));
    assert!(matches!(
        PrincipalServiceError::from_repository_error(PrincipalRepositoryError::DomainError(PrincipalError::TenantMismatch)),
        PrincipalServiceError::InternalError(m) if m == "Tenant mismatch"
    ));
    assert!(matches!(
        PrincipalServiceError::from_principal_error(PrincipalError::TenantMismatch),
        PrincipalServiceError::InternalError(m) if m == "Tenant mismatch"
    ));
}

#[test]
fn only_retriable_persistence_failures_are_retried() {
    let retriable = PrincipalRepositoryError::PersistenceError { retriable: true, message: "x".into() };
    let fatal = PrincipalRepositoryError::PersistenceError { retriable: false, message: "x".into() };
    assert_eq!(PrincipalService::<()>::retry_strategy(&retriable), RetryStrategyAction::ContinueRetries);
    assert_eq!(PrincipalService::<()>::retry_strategy(&fatal), RetryStrategyAction::ReturnResult);
    assert_eq!(
        PrincipalService::<()>::retry_strategy(&PrincipalRepositoryError::PrincipalAlreadyExists),
        RetryStrategyAction::ReturnResult
    );
}

#[test]
fn an_unknown_identity_gets_a_new_user_principal() {
    let identity = FederatedIdentity { subject: "sub".into(), issuer: "iss".into(), tenant_id: "t1".into() };
    let input = GetOrCreateFromFederatedIdentity { principal_id: 4, identity: identity.clone() };
    let created = match found_or_new(None, input) {
        PrincipalLookup::Create(p) => p,
        other => panic!("unexpected {:?}", other),
    };
    assert_eq!(created.id, 4);
    assert_eq!(created.tenant_id, "t1");
    let existing = Principal { id: 1, tenant_id: "t1".into(), identity: identity.clone() };
    let input = GetOrCreateFromFederatedIdentity { principal_id: 4, identity };
    assert!(matches!(found_or_new(Some(existing), input), PrincipalLookup::Found(p) if p.id == 1));
    assert!(matches!(
        conclude_creation(created, Err(PrincipalRepositoryError::PrincipalAlreadyExists)),
        Err(PrincipalServiceError::PrincipalConflict)
    ));
}

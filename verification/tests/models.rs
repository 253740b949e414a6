use shared::application::ports::errors::InfrastructureError;
use shared::application::ports::model::{ExternalModelPage, ModelPage, ModelRepositoryError};
use shared::application::ports::model_metadata::ModelSearchResult;
use shared::application::services::external_model_discovery_service::{
    ExternalModelDiscoveryService, ExternalModelDiscoveryServiceError,
};
use shared::application::services::external_model_ingestion_service::{
    ExternalModelIngestionService, ExternalModelIngestionServiceError, IngestionWrite,
};
use shared::application::services::model_artifact_association_service::{
    ModelArtifactAssociationService, ModelArtifactAssociationServiceError,
};
use shared::application::services::model_creation_service::{
    CreateModelInput, ModelCreationService, ModelCreationServiceError,
};
use shared::application::services::model_metadata_service::{
    search_output, search_tenants, ModelMetadataService, ModelMetadataServiceError,
};
use shared::application::services::model_query_service::{ModelQueryService, ModelQueryServiceError};
use shared::application::services::model_service::{ModelService, ModelServiceError};
use shared::application::services::strategy_references::{
    all_offered_strategies, gather_all_references, gather_resolved_references,
};
use shared::domain::{
    ClientStrategySet, DeploymentStrategyReference, ExternalModel, Model, ModelMetadata, Strategy,
};
use shared::shared_kernel::{RequestContext, Visibility};

type Query = ModelQueryService<(), ()>;
type Creation = ModelCreationService<(), ()>;
type Ingestion = ExternalModelIngestionService<()>;
type Discovery = ExternalModelDiscoveryService<()>;
type Association = ModelArtifactAssociationService<(), ()>;
type Metadata = ModelMetadataService<(), ()>;
type Models = ModelService<(), ()>;

fn model(id: u128, owner: &str, visibility: Visibility, external_model_id: u128) -> Model {
    Model {
        id,
        tenant_id: "__GLOBAL__".to_string(),
        owner: owner.to_string(),
        name: "existing".to_string(),
        description: None,
        external_model_id,
        visibility,
        artifact_id: None,
    }
}

fn external(id: u128) -> ExternalModel {
    ExternalModel {
        id,
        provider: "huggingface".to_string(),
        locator: "google/bert".to_string(),
        metadata: "v1".to_string(),
        deployment_strategies: vec![],
    }
}

fn strategy(name: &str, platform: &str) -> Strategy {
    Strategy { name: name.to_string(), platform: platform.to_string() }
}

#[test]
fn private_model_owned_by_another_principal_is_concealed() {
    let ctx = RequestContext::system(None);
    let found = model(1, "another-owner", Visibility::Private, 10);
    assert!(matches!(Query::resolve_found_model(&ctx, Some(found)), Err(ModelQueryServiceError::NotFound)));
    assert!(matches!(Query::resolve_found_model(&ctx, None), Err(ModelQueryServiceError::NotFound)));
}

#[test]
fn public_model_is_hydrated_for_a_non_owner() {
    let ctx = RequestContext::system(None);
    let found = model(1, "another-owner", Visibility::Public, 10);
    let m = Query::resolve_found_model(&ctx, Some(found)).unwrap();
    let out = Query::attach_external_model(m, Some(external(10))).unwrap();
    assert_eq!(out.external_model.id, 10);
    assert_eq!(out.model.owner, "another-owner");
}

#[test]
fn dangling_external_reference_is_a_data_integrity_error() {
    let ctx = RequestContext::system(None);
    let m = Query::resolve_found_model(&ctx, Some(model(1, "mlhub", Visibility::Private, 10))).unwrap();
    assert!(matches!(
        Query::attach_external_model(m, None),
        Err(ModelQueryServiceError::MissingExternalModel)
    ));
}

#[test]
fn hydrate_joins_each_model_with_its_external_model() {
    let page = ModelPage {
        models: vec![model(1, "a", Visibility::Private, 10), model(2, "a", Visibility::Private, 20)],
        count: Some(2),
        cursor: Some("next".to_string()),
    };
    assert_eq!(Query::external_model_ids(&page), vec![10, 20]);
    let out = Query::hydrate(page, vec![external(20), external(10)]).unwrap();
    assert_eq!(out.models.len(), 2);
    assert_eq!(out.models[0].external_model.id, 10);
    assert_eq!(out.models[1].external_model.id, 20);
    assert_eq!(out.count, Some(2));
    assert_eq!(out.cursor.as_deref(), Some("next"));
}

#[test]
fn hydrate_refuses_missing_or_shared_external_models() {
    let page = ModelPage { models: vec![model(1, "a", Visibility::Private, 10)], count: None, cursor: None };
    assert!(matches!(Query::hydrate(page, vec![external(20)]), Err(ModelQueryServiceError::MissingExternalModel)));
    let page = ModelPage {
        models: vec![model(1, "a", Visibility::Private, 10), model(2, "a", Visibility::Private, 10)],
        count: None,
        cursor: None,
    };
    assert!(matches!(Query::hydrate(page, vec![external(10)]), Err(ModelQueryServiceError::MissingExternalModel)));
    let empty = ModelPage { models: vec![], count: Some(0), cursor: None };
    assert!(Query::hydrate(empty, vec![]).unwrap().models.is_empty());
}

#[test]
fn missing_external_model_is_rejected() {
    assert!(matches!(Creation::require_external_model(None), Err(ModelCreationServiceError::ExternalModelNotFound)));
    assert!(Creation::require_external_model(Some(external(3))).is_ok());
}

#[test]
fn existing_pairing_returns_collection_conflict() {
    let existing = Some(model(1, "mlhub", Visibility::Private, 3));
    assert!(matches!(
        Creation::ensure_not_in_collection(&existing),
        Err(ModelCreationServiceError::ModelAlreadyInCollection)
    ));
    assert!(Creation::ensure_not_in_collection(&None).is_ok());
}

#[test]
fn duplicate_key_race_maps_to_collection_conflict() {
    let ctx = RequestContext::system(None);
    let input = CreateModelInput {
        name: "my model".to_string(),
        description: None,
        external_model_id: 3,
        visibility: Visibility::Private,
    };
    let m = Creation::model_for(&ctx, input);
    let r = Creation::conclude_creation(m, external(3), Err(ModelRepositoryError::ModelAlreadyInCollection));
    assert!(matches!(r, Err(ModelCreationServiceError::ModelAlreadyInCollection)));
}

#[test]
fn created_model_belongs_to_the_actor() {
    let ctx = RequestContext::new("t1".to_string(), "alice".to_string());
    let input = CreateModelInput {
        name: "my model".to_string(),
        description: Some("d".to_string()),
        external_model_id: 3,
        visibility: Visibility::Public,
    };
    let m = Creation::model_for(&ctx, input);
    assert_eq!(m.tenant_id, "t1");
    assert_eq!(m.owner, "alice");
    assert_eq!(m.name, "my model");
    assert_eq!(m.external_model_id, 3);
    assert_eq!(m.visibility, Visibility::Public);
    assert!(m.artifact_id.is_none());
    assert_eq!((m.id >> 76) & 0xf, 7);
    let saved = Creation::conclude_creation(m, external(3), Ok(())).unwrap();
    assert_eq!(saved.external_model.id, 3);
    let other = Creation::conclude_creation(
        model(1, "a", Visibility::Private, 3),
        external(3),
        Err(ModelRepositoryError::Persistence(InfrastructureError::new_internal())),
    );
    assert!(matches!(other, Err(ModelCreationServiceError::ModelRepository(ModelRepositoryError::Persistence(_)))));
}

#[test]
fn ingestion_refreshes_a_known_model_and_saves_a_new_one() {
    let known = external(1);
    let mut candidate = external(2);
    candidate.metadata = "v2".to_string();
    let (merged, write) = Ingestion::merge_with_existing(Some(known), candidate);
    assert_eq!(write, IngestionWrite::Update);
    assert_eq!(merged.id, 1);
    assert_eq!(merged.metadata, "v2");
    let (fresh, write) = Ingestion::merge_with_existing(None, external(5));
    assert_eq!(write, IngestionWrite::Save);
    assert_eq!(fresh.id, 5);
}

#[test]
fn ingestion_annotates_with_every_viable_strategy() {
    let viable = vec![
        Ok(vec![strategy("vllm", "tapis"), strategy("sglang", "tapis")]),
        Ok(vec![]),
        Ok(vec![strategy("triton", "k8s")]),
    ];
    let m = Ingestion::annotate(external(1), &viable).unwrap();
    let names: Vec<(&str, &str)> =
        m.deployment_strategies.iter().map(|r| (r.name.as_str(), r.platform.as_str())).collect();
    assert_eq!(names, vec![("vllm", "tapis"), ("sglang", "tapis"), ("triton", "k8s")]);
}

#[test]
fn ingestion_stops_at_the_first_unresolved_client() {
    let viable = vec![
        Ok(vec![strategy("vllm", "tapis")]),
        Err("first".to_string()),
        Err("second".to_string()),
    ];
    match Ingestion::annotate(external(1), &viable) {
        Err(ExternalModelIngestionServiceError::Strategy(m)) => assert_eq!(m, "first"),
        other => panic!("unexpected {:?}", other),
    }
    match gather_all_references(&viable) {
        Err(m) => assert_eq!(m, "first"),
        Ok(_) => panic!("expected a failure"),
    }
}

#[test]
fn annotation_of_metadata_passes_over_unresolved_clients() {
    let viable = vec![Err("down".to_string()), Ok(vec![strategy("vllm", "tapis")])];
    let refs = gather_resolved_references(&viable);
    assert_eq!(refs.len(), 1);
    let metadata = ModelMetadata {
        author: "google".to_string(),
        name: "bert".to_string(),
        tenant_id: "t".to_string(),
        artifact_id: None,
        deployment_strategy_refs: vec![DeploymentStrategyReference {
            name: "old".to_string(),
            platform: "gone".to_string(),
        }],
    };
    let annotated = Metadata::annotate_with_deployment_strategies(metadata, &viable);
    assert_eq!(annotated.deployment_strategy_refs.len(), 1);
    assert_eq!(annotated.deployment_strategy_refs[0].name, "vllm");
    assert_eq!(annotated.author, "google");
}

#[test]
fn offered_strategies_are_listed_client_after_client() {
    let sets = vec![
        ClientStrategySet { platform: "tapis".to_string(), strategies: vec![strategy("vllm", "tapis")] },
        ClientStrategySet {
            platform: "k8s".to_string(),
            strategies: vec![strategy("triton", "k8s"), strategy("ray", "k8s")],
        },
    ];
    let all = all_offered_strategies(&sets);
    let names: Vec<&str> = all.iter().map(|s| s.name.as_str()).collect();
    assert_eq!(names, vec!["vllm", "triton", "ray"]);
}

#[test]
fn discovery_reports_missing_models_and_forwards_pages() {
    assert!(matches!(Discovery::found_external_model(None), Err(ExternalModelDiscoveryServiceError::NotFound)));
    let page = ExternalModelPage { external_models: vec![external(1)], count: Some(1), cursor: Some("c".into()) };
    let out = Discovery::list_output(page);
    assert_eq!(out.external_models.len(), 1);
    assert_eq!(out.count, Some(1));
    assert_eq!(out.cursor.as_deref(), Some("c"));
}

#[test]
fn searches_cover_the_global_tenant_only_when_asked() {
    let ctx = RequestContext::new("t1".to_string(), "alice".to_string());
    assert_eq!(search_tenants(&ctx, None), vec!["t1".to_string()]);
    assert_eq!(search_tenants(&ctx, Some(false)), vec!["t1".to_string()]);
    assert_eq!(search_tenants(&ctx, Some(true)), vec!["t1".to_string(), "__GLOBAL__".to_string()]);
    let result = ModelSearchResult { models: vec![], count: Some(4), cursor: None };
    let out = search_output(result, vec![]);
    assert_eq!(out.count, Some(4));
}

#[test]
fn association_lookups_name_what_is_missing() {
    match Metadata::require_artifact::<()>(0x10, None) {
        Err(ModelMetadataServiceError::ArtifactNotFound(m)) => {
            assert_eq!(m, "Artifact with id 00000000-0000-0000-0000-000000000010 does not exist")
        }
        other => panic!("unexpected {:?}", other),
    }
    match Metadata::require_metadata(&"google".to_string(), &"bert".to_string(), None) {
        Err(ModelMetadataServiceError::MetdataNotFound(m)) => {
            assert_eq!(m, "No metadata found with author google and name bert")
        }
        other => panic!("unexpected {:?}", other),
    }
    match Models::require_model::<()>(&"google".to_string(), &"bert".to_string(), None) {
        Err(ModelServiceError::ModelNotFound(m)) => {
            assert_eq!(m, "No model found with author google and name bert")
        }
        other => panic!("unexpected {:?}", other),
    }
    assert!(matches!(Models::require_artifact(1, Some(5u8)), Ok(5)));
}

#[test]
fn only_the_owner_associates_a_model_with_an_artifact() {
    let ctx = RequestContext::new("t1".to_string(), "alice".to_string());
    assert!(matches!(
        Association::require_owned_model(&ctx, Some(model(1, "bob", Visibility::Public, 3))),
        Err(ModelArtifactAssociationServiceError::ModelNotFound)
    ));
    assert!(matches!(
        Association::require_owned_model(&ctx, None),
        Err(ModelArtifactAssociationServiceError::ModelNotFound)
    ));
    assert!(matches!(
        Association::require_artifact::<u8>(None),
        Err(ModelArtifactAssociationServiceError::ArtifactNotFound)
    ));
    let m = Association::require_owned_model(&ctx, Some(model(1, "alice", Visibility::Private, 3))).unwrap();
    let m = Association::associated(m, 42);
    assert_eq!(m.artifact_id, Some(42));
    assert_eq!(m.id, 1);
}

#[test]
fn hydrate_takes_the_last_external_model_of_a_shared_id() {
    let page = ModelPage { models: vec![model(1, "a", Visibility::Private, 10)], count: None, cursor: None };
    let mut first = external(10);
    first.locator = "first".to_string();
    let mut last = external(10);
    last.locator = "last".to_string();
    let out = Query::hydrate(page, vec![first, last]).unwrap();
    assert_eq!(out.models[0].external_model.locator, "last");
}

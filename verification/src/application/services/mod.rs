pub mod tenancy_resolver;
pub mod model_query_service;
pub mod endpoint_catalog_service;
pub mod endpoint_service;
pub mod deployment_argument_service;
pub mod model_deployment_service;
pub mod model_deployment_controller;
pub mod principal_service;
pub mod federated_identity_service;
pub mod federated_idp_registrar;
pub mod strategy_references;
pub mod external_model_ingestion_service;
pub mod external_model_discovery_service;
pub mod model_creation_service;
pub mod artifact_service;
pub mod dataset_query_service;
pub mod dataset_service;
pub mod dataset_registration_service;
pub mod hpc_cluster_query_service;
pub mod agent_service;
pub mod agent_record_service;
pub mod deployment_strategy_service;
pub mod lookup_messages;
pub mod model_metadata_service;
pub mod model_service;
pub mod dataset_metadata_service;
pub mod model_artifact_association_service;
pub mod reconciliation_dispatch;

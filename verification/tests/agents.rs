use shared::application::ports::endpoint::EndpointRepositoryError;
use shared::application::ports::errors::InfrastructureError;
use shared::application::services::agent_service::{AgentService, AgentServiceError, RegisterAgentInput};
use shared::application::services::deployment_argument_service::{prepare_arguments, PreparedArgument};
use shared::application::services::endpoint_service::EndpointServiceError;
use shared::application::services::model_deployment_service::ArgumentInput;
use shared::domain::AgentEndpoint;
use shared::shared_kernel::{RequestContext, Visibility};

type Agents = AgentService<(), (), ()>;

fn rest_endpoint() -> AgentEndpoint {
    AgentEndpoint {
        name: Some("rest".into()),
        protocol: "RestHttp".into(),
        message_binding: Some("HttpJson".into()),
        base_url: Some("https://agent.example.test".into()),
        liveness_probe: None,
    }
}

fn stdio_endpoint() -> AgentEndpoint {
    AgentEndpoint { name: None, protocol: "Stdio".into(), message_binding: None, base_url: None, liveness_probe: None }
}

fn input(endpoints: Vec<AgentEndpoint>) -> RegisterAgentInput {
    RegisterAgentInput {
        name: "Agent".into(),
        description: "Description".into(),
        deployment_modality: "Persistent".into(),
        endpoints,
        tags: Vec::new(),
        agent_record_id: None,
        visibility: Visibility::Private,
    }
}

#[test]
fn registers_an_agent_and_issues_its_endpoints() {
    let ctx = RequestContext::system(None);
    let agent = Agents::new_agent(&ctx, input(vec![rest_endpoint()]), 5);
    assert_eq!(agent.owner, "mlhub");
    assert_eq!(agent.tenant_id, "__GLOBAL__");
    assert_eq!(agent.id, 5);
    assert_eq!(Agents::network_targets(&agent), vec![0]);
    let r: Result<_, _> = Agents::conclude_registration(agent, Ok::<Vec<u8>, EndpointServiceError>(vec![]));
    assert!(r.is_ok());
}

#[test]
fn registers_an_agent_without_issuing_endpoints_when_it_has_no_network_targets() {
    let ctx = RequestContext::system(None);
    let agent = Agents::new_agent(&ctx, input(vec![stdio_endpoint()]), 5);
    assert!(Agents::network_targets(&agent).is_empty());
    let agent = Agents::new_agent(&ctx, input(vec![stdio_endpoint(), rest_endpoint(), rest_endpoint()]), 6);
    assert_eq!(Agents::network_targets(&agent), vec![1, 2]);
}

#[test]
fn returns_endpoint_issuance_failure_after_persisting_agent() {
    let ctx = RequestContext::system(None);
    let agent = Agents::new_agent(&ctx, input(vec![rest_endpoint()]), 5);
    let failed: Result<(), EndpointServiceError> =
        Err(EndpointServiceError::Repository(EndpointRepositoryError::Persistence(InfrastructureError::new_internal())));
    assert!(matches!(Agents::conclude_registration(agent, failed), Err(AgentServiceError::EndpointIssuance(_))));
    assert!(matches!(Agents::require_agent_record::<u8>(3, None), Err(AgentServiceError::AgentRecordNotFound(3))));
}

#[test]
fn secret_parameters_are_encrypted_and_others_kept() {
    let inputs = vec![
        ArgumentInput { parameter_name: "token".into(), value: "s3cr3t".into() },
        ArgumentInput { parameter_name: "model".into(), value: "bert".into() },
    ];
    let out = prepare_arguments(&inputs, &vec!["token".to_string()]);
    assert_eq!(out.len(), 2);
    assert!(matches!(&out[0], PreparedArgument::ToEncrypt { parameter_name, value } if parameter_name == "token" && value == "s3cr3t"));
    assert!(matches!(&out[1], PreparedArgument::PlainText { parameter_name, value } if parameter_name == "model" && value == "bert"));
    assert!(prepare_arguments(&inputs, &vec![]).iter().all(|a| matches!(a, PreparedArgument::PlainText { .. })));
}

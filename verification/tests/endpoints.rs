use shared::application::services::deployment_argument_service::{
    argument_from_decoded, decrypted_argument, DeploymentArgumentServiceError,
};
use shared::application::services::endpoint_service::EndpointService;
use shared::domain::Endpoint;

fn endpoint(slug: &str, target_name: &str) -> Endpoint {
    Endpoint {
        slug: slug.to_string(),
        tenant_id: "__GLOBAL__".to_string(),
        target_resource_urn: "urn:mlhub:v1:__GLOBAL__:agent:agent-a".to_string(),
        target_name: target_name.to_string(),
        url: format!("https://hub/{}", slug),
    }
}

#[test]
fn issues_and_reuses_endpoints_for_resource() {
    let candidates = vec![endpoint("new-a2a", "a2a"), endpoint("new-mcp", "mcp")];
    let plan = EndpointService::<()>::plan_issuance(&candidates, &vec![]);
    assert_eq!(plan, vec![None, None]);
    let issued = vec![endpoint("a2a", "a2a"), endpoint("mcp", "mcp")];
    let again = vec![endpoint("other-a2a", "a2a"), endpoint("other-mcp", "mcp")];
    let plan = EndpointService::<()>::plan_issuance(&again, &issued);
    assert_eq!(plan, vec![Some(0), Some(1)]);
}

#[test]
fn first_issued_endpoint_of_a_target_is_reused() {
    let issued = vec![endpoint("x", "other"), endpoint("a", "a2a"), endpoint("b", "a2a")];
    let plan = EndpointService::<()>::plan_issuance(&vec![endpoint("c", "a2a"), endpoint("d", "mcp")], &issued);
    assert_eq!(plan, vec![Some(1), None]);
}

#[test]
fn decrypted_bytes_are_decoded_as_utf8() {
    let a = decrypted_argument("token".to_string(), b"s3cr3t".to_vec()).unwrap();
    assert_eq!(a.parameter_name, "token");
    assert_eq!(a.value, "s3cr3t");
    let a = decrypted_argument("name".to_string(), "café".as_bytes().to_vec()).unwrap();
    assert_eq!(a.value, "café");
    assert!(matches!(
        decrypted_argument("token".to_string(), vec![0xff, 0xfe]),
        Err(DeploymentArgumentServiceError::Utf8ConversionError(_))
    ));
    match argument_from_decoded("p".to_string(), Err("bad".to_string())) {
        Err(DeploymentArgumentServiceError::Utf8ConversionError(m)) => assert_eq!(m, "bad"),
        other => panic!("unexpected {:?}", other),
    }
}

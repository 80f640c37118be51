use std::path::Path;
use std::time::Duration;

use getmyid::{
    parse_response, AsyncClient, Client, GetMyIdError, RunnerRequest, DEFAULT_SOCKET_PATH,
    DEFAULT_TIMEOUT_SECS,
};

#[test]
fn test_parse_success_response() {
    let response = r#"{"status":"ok","identity":"BILLING_PROD","idm_url":"https://auth.example.com/oauth2/billing","config_url":"https://config.example.com/api/billing","token":"tok_billing_xxx","runner":{"identity":"BILLING_PROD","hostname":"worker-01","process":"billing-app","pid":1234,"uid":1001,"gid":1001}}"#;

    let identity = parse_response(response).unwrap();

    assert_eq!(identity.identity, "BILLING_PROD");
    assert_eq!(identity.idm_url, "https://auth.example.com/oauth2/billing");
    assert_eq!(identity.config_url, "https://config.example.com/api/billing");
    assert_eq!(identity.token, "tok_billing_xxx");
    assert_eq!(identity.runner.identity, "BILLING_PROD");
    assert_eq!(identity.runner.hostname, "worker-01");
    assert_eq!(identity.runner.process, "billing-app");
    assert_eq!(identity.runner.pid, 1234);
    assert_eq!(identity.runner.uid, 1001);
    assert_eq!(identity.runner.gid, 1001);
}

#[test]
fn test_parse_success_response_with_instance_id() {
    let response = r#"{"status":"ok","identity":"TRUSTEE_AGENT","idm_url":"https://auth.example.com/oauth2/trustee","config_url":"https://config.example.com/api/trustee","token":"tok_trustee_xxx","runner":{"instance_id":42,"timestamp":1738512000,"identity":"TRUSTEE_AGENT","hostname":"worker-03","process":"trustee","pid":26567,"uid":1000,"gid":1000}}"#;

    let identity = parse_response(response).unwrap();

    assert_eq!(identity.identity, "TRUSTEE_AGENT");
    assert_eq!(identity.runner.instance_id, Some(42));
    assert_eq!(identity.runner.timestamp, Some(1738512000));
    assert_eq!(identity.runner.hostname, "worker-03");
    assert_eq!(identity.runner.pid, 26567);
}

#[test]
fn test_parse_error_response() {
    let response = r#"{"status":"error","error_code":"E_NO_MATCH","message":"No identity rule matches process 'unknown' (uid=1000)"}"#;

    let result = parse_response(response);

    match result {
        Err(GetMyIdError::DaemonError { code, message }) => {
            assert_eq!(code, "E_NO_MATCH");
            assert!(message.contains("No identity rule matches"));
        }
        _ => panic!("Expected DaemonError"),
    }
}

#[test]
fn test_parse_invalid_json() {
    let response = "not json";

    let result = parse_response(response);

    assert!(matches!(result, Err(GetMyIdError::InvalidJson(_))));
}

#[test]
fn test_client_builder() {
    let client = Client::builder()
        .socket_path("/tmp/test.sock")
        .timeout(Some(Duration::from_secs(10)))
        .build();

    assert_eq!(Path::new(client.socket_path()), Path::new("/tmp/test.sock"));
    assert_eq!(client.timeout(), Some(Duration::from_secs(10)));
}

#[test]
fn test_client_builder_no_timeout() {
    let client = Client::builder().timeout(None).build();

    assert_eq!(client.timeout(), None);
}

#[test]
fn test_default_client() {
    let client = Client::new();

    assert_eq!(Path::new(client.socket_path()), Path::new(DEFAULT_SOCKET_PATH));
    assert_eq!(client.timeout(), Some(Duration::from_secs(DEFAULT_TIMEOUT_SECS)));
}

#[test]
fn test_runner_request_builder() {
    let req = RunnerRequest::new()
        .with_instance_id(42)
        .with_timestamp(1738512000)
        .with_field("custom", "value");

    assert_eq!(req.instance_id, Some(42));
    assert_eq!(req.timestamp, Some(1738512000));
    let custom = req.extra.iter().find(|(k, _)| k == "custom").unwrap();
    assert_eq!(custom.1, "\"value\"");
}

#[test]
fn test_async_client_builder() {
    let client = AsyncClient::builder()
        .socket_path("/tmp/test.sock")
        .timeout(Some(Duration::from_secs(10)))
        .build();

    assert_eq!(Path::new(client.socket_path()), Path::new("/tmp/test.sock"));
    assert_eq!(client.timeout(), Some(Duration::from_secs(10)));
}

#[test]
fn test_async_client_builder_no_timeout() {
    let client = AsyncClient::builder().timeout(None).build();

    assert_eq!(client.timeout(), None);
}

#[test]
fn test_default_async_client() {
    let client = AsyncClient::new();

    assert_eq!(Path::new(client.socket_path()), Path::new(DEFAULT_SOCKET_PATH));
    assert_eq!(client.timeout(), Some(Duration::from_secs(DEFAULT_TIMEOUT_SECS)));
}

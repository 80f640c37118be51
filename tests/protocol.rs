use std::time::Duration;

use getmyid::{
    deadline_outcome, parse_response, request_body, socket_not_found, Client, GetMyIdError,
    Identity, Runner, RunnerRequest,
};

const BILLING: &str = r#"{"status":"ok","identity":"BILLING_PROD","idm_url":"https://auth.example.com/oauth2/billing","config_url":"https://config.example.com/api/billing","token":"tok_billing_xxx","runner":{"identity":"BILLING_PROD","hostname":"worker-01","process":"billing-app","pid":1234,"uid":1001,"gid":1001}}"#;

fn missing_field(text: &str) -> &'static str {
    match parse_response(text) {
        Err(GetMyIdError::MissingField { field }) => field,
        other => panic!("expected MissingField, got {:?}", other),
    }
}

#[test]
fn billing_scenario_decodes() {
    let id = parse_response(BILLING).unwrap();
    assert_eq!(id.identity, "BILLING_PROD");
    assert_eq!(id.token, "tok_billing_xxx");
    assert_eq!(id.runner.hostname, "worker-01");
    assert_eq!(id.runner.pid, 1234);
    assert_eq!(id.runner.instance_id, None);
    assert_eq!(id.runner.timestamp, None);
    assert!(id.runner.extra.is_empty());
}

#[test]
fn extra_runner_members_are_kept_verbatim() {
    let text = r#"{"status":"ok","identity":"A","idm_url":"u","config_url":"c","token":"t","runner":{"pid":7,"region":"eu-west","tags":[1,2,{"x":null}],"weight":1.5}}"#;
    let id = parse_response(text).unwrap();
    let expected = Identity {
        identity: "A".to_string(),
        idm_url: "u".to_string(),
        config_url: "c".to_string(),
        token: "t".to_string(),
        runner: Runner {
            identity: String::new(),
            hostname: String::new(),
            process: String::new(),
            pid: 7,
            uid: 0,
            gid: 0,
            instance_id: None,
            timestamp: None,
            extra: vec![
                ("region".to_string(), "\"eu-west\"".to_string()),
                ("tags".to_string(), "[1,2,{\"x\":null}]".to_string()),
                ("weight".to_string(), "1.5".to_string()),
            ],
        },
    };
    assert_eq!(id, expected);
}

#[test]
fn escaped_strings_are_decoded() {
    let text = r#"{"status":"ok","identity":"a\"bA","idm_url":"u","config_url":"c","token":"t","runner":{}}"#;
    let id = parse_response(text).unwrap();
    assert_eq!(id.identity, "a\"bA");
}

#[test]
fn null_optional_members_read_as_absent() {
    let text = r#"{"status":"ok","identity":"A","idm_url":"u","config_url":"c","token":"t","runner":{"instance_id":null,"timestamp":18446744073709551615}}"#;
    let id = parse_response(text).unwrap();
    assert_eq!(id.runner.instance_id, None);
    assert_eq!(id.runner.timestamp, Some(u64::MAX));
}

#[test]
fn error_scenario_gives_daemon_error() {
    let text = r#"{"status":"error","error_code":"E_NO_MATCH","message":"No identity rule matches process 'unknown' (uid=1000)"}"#;
    match parse_response(text) {
        Err(GetMyIdError::DaemonError { code, message }) => {
            assert_eq!(code, "E_NO_MATCH");
            assert_eq!(message, "No identity rule matches process 'unknown' (uid=1000)");
        }
        other => panic!("expected DaemonError, got {:?}", other),
    }
}

#[test]
fn any_other_status_reads_error_members() {
    let text = r#"{"status":"denied","error_code":"E_X","message":"m"}"#;
    assert!(matches!(
        parse_response(text),
        Err(GetMyIdError::DaemonError { ref code, .. }) if code == "E_X"
    ));
}

#[test]
fn invalid_json_variants() {
    for text in ["", "not json", "{", "[1,2]", "\"ok\"", "{\"status\":\"ok\"} trailing"] {
        assert!(matches!(parse_response(text), Err(GetMyIdError::InvalidJson(_))), "{}", text);
    }
}

#[test]
fn missing_or_non_string_status_is_invalid_json() {
    assert!(matches!(parse_response(r#"{"identity":"A"}"#), Err(GetMyIdError::InvalidJson(_))));
    assert!(matches!(parse_response(r#"{"status":1}"#), Err(GetMyIdError::InvalidJson(_))));
}

#[test]
fn ok_status_with_error_shape_names_identity() {
    assert_eq!(missing_field(r#"{"status":"ok","error_code":"E","message":"m"}"#), "identity");
}

#[test]
fn ok_status_with_bad_runner_names_identity() {
    let bad_pid = r#"{"status":"ok","identity":"A","idm_url":"u","config_url":"c","token":"t","runner":{"pid":-1}}"#;
    let not_object = r#"{"status":"ok","identity":"A","idm_url":"u","config_url":"c","token":"t","runner":5}"#;
    let no_runner = r#"{"status":"ok","identity":"A","idm_url":"u","config_url":"c","token":"t"}"#;
    let big_uid = r#"{"status":"ok","identity":"A","idm_url":"u","config_url":"c","token":"t","runner":{"uid":4294967296}}"#;
    for text in [bad_pid, not_object, no_runner, big_uid] {
        assert_eq!(missing_field(text), "identity");
    }
}

#[test]
fn error_status_without_error_shape_names_error_code() {
    assert_eq!(missing_field(r#"{"status":"error","message":"m"}"#), "error_code");
    assert_eq!(missing_field(r#"{"status":"error","error_code":3,"message":"m"}"#), "error_code");
    assert_eq!(missing_field(BILLING.replace("\"ok\"", "\"error\"").as_str()), "error_code");
}

#[test]
fn request_body_has_exactly_the_set_members() {
    let req = RunnerRequest::new()
        .with_instance_id(42)
        .with_timestamp(1738512000)
        .with_field("custom", "value");
    assert_eq!(
        request_body(&req),
        r#"{"runner":{"instance_id":42,"timestamp":1738512000,"custom":"value"}}"#
    );
}

#[test]
fn empty_request_body() {
    assert_eq!(request_body(&RunnerRequest::new()), r#"{"runner":{}}"#);
}

#[test]
fn request_body_numbers_and_escapes() {
    let req = RunnerRequest::new()
        .with_timestamp(0)
        .with_instance_id(u64::MAX)
        .with_field("k\"ey", "line\nbreak");
    assert_eq!(
        request_body(&req),
        "{\"runner\":{\"instance_id\":18446744073709551615,\"timestamp\":0,\"k\\\"ey\":\"line\\nbreak\"}}"
    );
}

#[test]
fn with_field_replaces_an_existing_key() {
    let req = RunnerRequest::new()
        .with_field("a", "1")
        .with_field("b", "2")
        .with_field("a", "3");
    assert_eq!(
        req.extra,
        vec![
            ("a".to_string(), "\"3\"".to_string()),
            ("b".to_string(), "\"2\"".to_string()),
        ]
    );
}

#[test]
fn current_timestamp_is_set() {
    let req = RunnerRequest::new().with_instance_id(1).with_current_timestamp();
    assert_eq!(req.instance_id, Some(1));
    assert!(req.timestamp.unwrap() > 1_600_000_000);
}

#[test]
fn nonexistent_socket_is_reported_before_connecting() {
    let client = Client::builder().socket_path("/nonexistent/whoami.sock").build();
    match client.check_socket(false) {
        Err(GetMyIdError::SocketNotFound(p)) => assert_eq!(p, "/nonexistent/whoami.sock"),
        other => panic!("expected SocketNotFound, got {:?}", other),
    }
    assert!(client.check_socket(true).is_ok());
    assert!(socket_not_found("/x", true).is_none());
}

#[test]
fn expired_deadline_reports_the_configured_timeout() {
    let d = Duration::from_millis(250);
    match deadline_outcome(d, None) {
        Err(GetMyIdError::Timeout(t)) => assert_eq!(t, d),
        other => panic!("expected Timeout, got {:?}", other),
    }
    let finished = parse_response(BILLING);
    let kept = deadline_outcome(d, Some(finished)).unwrap();
    assert_eq!(kept.identity, "BILLING_PROD");
}

#[test]
fn unix_timestamp_takes_whole_seconds() {
    assert_eq!(getmyid::unix_timestamp(None), 0);
    let d = Duration::from_secs(1738512000) + Duration::from_millis(999);
    assert_eq!(getmyid::unix_timestamp(Some(d)), 1738512000);
}

#[test]
fn with_json_field_takes_any_json_value() {
    let req = RunnerRequest::new()
        .with_json_field("n", "7")
        .unwrap()
        .with_json_field("obj", "{\"a\":[true,null]}")
        .unwrap()
        .with_field("n", "x");
    assert_eq!(
        request_body(&req),
        r#"{"runner":{"n":"x","obj":{"a":[true,null]}}}"#
    );
}

#[test]
fn with_json_field_rejects_invalid_text() {
    for bad in ["", "{", "1 2", "nope"] {
        let r = RunnerRequest::new().with_json_field("k", bad);
        assert!(matches!(r, Err(GetMyIdError::InvalidJson(_))), "{}", bad);
    }
}

#[test]
fn decode_members_reads_given_members() {
    let ms = vec![
        ("status".to_string(), "\"error\"".to_string()),
        ("error_code".to_string(), "\"E_NO_MATCH\"".to_string()),
        ("message".to_string(), "\"no rule\"".to_string()),
    ];
    match getmyid::decode_members(&ms) {
        Err(GetMyIdError::DaemonError { code, message }) => {
            assert_eq!(code, "E_NO_MATCH");
            assert_eq!(message, "no rule");
        }
        other => panic!("expected DaemonError, got {:?}", other),
    }
    let ok_with_error_shape = vec![
        ("error_code".to_string(), "\"E\"".to_string()),
        ("message".to_string(), "\"m\"".to_string()),
        ("status".to_string(), "\"ok\"".to_string()),
    ];
    assert!(matches!(
        getmyid::decode_members(&ok_with_error_shape),
        Err(GetMyIdError::MissingField { field: "identity" })
    ));
}

#[test]
fn default_timeout_is_five_seconds() {
    let expected = Some(Duration::from_secs(5));
    assert_eq!(Client::new().timeout(), expected);
    assert_eq!(Client::builder().build().timeout(), expected);
    assert_eq!(getmyid::AsyncClient::new().timeout(), expected);
    assert_eq!(getmyid::AsyncClient::builder().build().timeout(), expected);
}

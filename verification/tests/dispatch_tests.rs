use mgmt_core::credential::{ClientSecretCredential, TokenCredentialOptions};
use mgmt_core::dispatch::{
    build_request, interpret_response, interpret_response_with, json_parses, Method,
    OperationConfig, PayloadKind, RequestBody, StatusRule, SuccessOutcome, UnexpectedPolicy,
};
use mgmt_core::errors::OperationError;

fn sample_credential() -> ClientSecretCredential {
    ClientSecretCredential::new(
        "common".to_string(),
        "id".to_string(),
        "secret".to_string(),
        TokenCredentialOptions::default(),
    )
}

#[test]
fn default_endpoints_are_the_public_management_cloud() {
    assert_eq!(mgmt_core::dispatch::DEFAULT_BASE_PATH, "https://management.azure.com");
    assert_eq!(
        mgmt_core::dispatch::DEFAULT_TOKEN_CREDENTIAL_RESOURCE,
        "https://management.azure.com/"
    );
}

#[test]
fn operation_config_new_applies_defaults() {
    let config = OperationConfig::new(sample_credential(), "2016-01-01".to_string());
    assert_eq!(config.api_version, "2016-01-01");
    assert_eq!(config.base_path, "https://management.azure.com");
    assert!(config.token_credential.is_some());
    assert_eq!(config.token_credential_resource, "https://management.azure.com/");
}

#[test]
fn plan_url_is_base_path_plus_operation_path() {
    let config = OperationConfig::new_anonymous("v1".to_string());
    let plan = build_request(
        &config,
        Method::Get,
        "/some/path".to_string(),
        Vec::new(),
        RequestBody::NoBody,
    );
    assert_eq!(plan.url, "https://management.azure.com/some/path");
    assert!(matches!(plan.method, Method::Get));
    assert!(plan.token_resource.is_none());
}

#[test]
fn api_version_is_always_the_first_query_parameter() {
    let config = OperationConfig::new_anonymous("2019-05-01".to_string());
    let extra = vec![
        ("$filter".to_string(), "x eq 1".to_string()),
        ("$top".to_string(), "5".to_string()),
    ];
    let plan = build_request(
        &config,
        Method::Get,
        "/p".to_string(),
        extra,
        RequestBody::NoBody,
    );
    assert_eq!(
        plan.query,
        vec![
            ("api-version".to_string(), "2019-05-01".to_string()),
            ("$filter".to_string(), "x eq 1".to_string()),
            ("$top".to_string(), "5".to_string()),
        ]
    );
}

#[test]
fn token_directive_names_the_configured_audience() {
    let config = OperationConfig::new(sample_credential(), "v".to_string());
    let plan = build_request(
        &config,
        Method::Post,
        "/p".to_string(),
        Vec::new(),
        RequestBody::Empty,
    );
    assert_eq!(plan.token_resource.as_deref(), Some("https://management.azure.com/"));
    assert!(matches!(plan.body, RequestBody::Empty));
}

#[test]
fn json_body_travels_unchanged_through_the_plan() {
    let config = OperationConfig::new_anonymous("v".to_string());
    let bytes = br#"{"k":"v"}"#.to_vec();
    let plan = build_request(
        &config,
        Method::Put,
        "/p".to_string(),
        Vec::new(),
        RequestBody::Json(bytes.clone()),
    );
    match plan.body {
        RequestBody::Json(b) => assert_eq!(b, bytes),
        other => panic!("expected a JSON body, got {:?}", other),
    }
}

#[test]
fn declared_code_with_json_payload_yields_the_body() {
    let rules = vec![StatusRule { code: 200, kind: PayloadKind::Json }];
    let body = br#"{"a":1}"#.to_vec();
    let outcome = interpret_response(&rules, 200, body.clone()).unwrap();
    assert_eq!(outcome, SuccessOutcome { code: 200, payload: Some(body) });
}

#[test]
fn declared_code_with_malformed_json_is_a_decode_failure_with_exact_bytes() {
    let rules = vec![StatusRule { code: 200, kind: PayloadKind::Json }];
    let body = b"not json".to_vec();
    let err = interpret_response(&rules, 200, body.clone()).unwrap_err();
    assert_eq!(err, OperationError::DeserializeError { body });
}

#[test]
fn undeclared_code_is_unexpected_with_raw_body_verbatim() {
    let rules = vec![
        StatusRule { code: 200, kind: PayloadKind::Json },
        StatusRule { code: 201, kind: PayloadKind::Json },
    ];
    let body = b"teapot says no".to_vec();
    let err = interpret_response(&rules, 418, body.clone()).unwrap_err();
    assert_eq!(err, OperationError::UnexpectedResponse { status_code: 418, body });
}

#[test]
fn bodyless_code_succeeds_regardless_of_body_content() {
    let rules = vec![StatusRule { code: 204, kind: PayloadKind::Bodyless }];
    let outcome = interpret_response(&rules, 204, b"ignored garbage".to_vec()).unwrap();
    assert_eq!(outcome, SuccessOutcome { code: 204, payload: None });
}

#[test]
fn first_matching_rule_wins() {
    let rules = vec![
        StatusRule { code: 200, kind: PayloadKind::Bodyless },
        StatusRule { code: 200, kind: PayloadKind::Json },
    ];
    let outcome = interpret_response(&rules, 200, b"x".to_vec()).unwrap();
    assert_eq!(outcome, SuccessOutcome { code: 200, payload: None });
}

#[test]
fn json_validation_accepts_json_and_rejects_garbage() {
    assert!(json_parses(&br#"{"a":[1,2,3]}"#.to_vec()));
    assert!(json_parses(&b"3".to_vec()));
    assert!(!json_parses(&b"".to_vec()));
    assert!(!json_parses(&b"{unquoted}".to_vec()));
}

#[test]
fn envelope_policy_decodes_undeclared_statuses_through_the_error_envelope() {
    let rules = vec![StatusRule { code: 200, kind: PayloadKind::Json }];
    let envelope = br#"{"error":{"code":"NotFound","message":"no such vault"}}"#.to_vec();
    let err = interpret_response_with(&rules, 404, envelope.clone(), UnexpectedPolicy::ErrorEnvelope)
        .unwrap_err();
    assert_eq!(err, OperationError::DefaultErrorResponse { status_code: 404, body: envelope });
}

#[test]
fn envelope_policy_treats_a_malformed_envelope_as_a_decode_failure() {
    let rules = vec![StatusRule { code: 200, kind: PayloadKind::Json }];
    let body = b"<html>gateway error</html>".to_vec();
    let err = interpret_response_with(&rules, 502, body.clone(), UnexpectedPolicy::ErrorEnvelope)
        .unwrap_err();
    assert_eq!(err, OperationError::DeserializeError { body });
}

#[test]
fn envelope_policy_leaves_declared_codes_untouched() {
    let rules = vec![StatusRule { code: 200, kind: PayloadKind::Json }];
    let body = br#"{"ok":true}"#.to_vec();
    let outcome =
        interpret_response_with(&rules, 200, body.clone(), UnexpectedPolicy::ErrorEnvelope)
            .unwrap();
    assert_eq!(outcome, SuccessOutcome { code: 200, payload: Some(body) });
}

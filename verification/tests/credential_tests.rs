use mgmt_core::credential::{
    token_from_exchange, token_from_exchange_now, ClientSecretCredential, ExchangeOutcome,
    TokenCredentialOptions, TokenResponse,
};
use mgmt_core::errors::CredentialError;

#[test]
fn exchange_success_maps_token_and_expiry() {
    let outcome = ExchangeOutcome::Success {
        access_token: "abc".to_string(),
        expires_in: Some(3600),
    };
    let token = token_from_exchange(outcome, 1000).unwrap();
    assert_eq!(token.access_token, "abc");
    assert_eq!(token.expires_on, 4600);
}

#[test]
fn exchange_success_at_wall_clock_is_request_time_plus_lifetime() {
    let before = chrono::Utc::now().timestamp() as u64;
    let outcome = ExchangeOutcome::Success {
        access_token: "abc".to_string(),
        expires_in: Some(3600),
    };
    let token = token_from_exchange_now(outcome).unwrap();
    let after = chrono::Utc::now().timestamp() as u64;
    assert_eq!(token.access_token, "abc");
    assert!(token.expires_on >= before + 3600);
    assert!(token.expires_on <= after + 3600);
}

#[test]
fn exchange_without_lifetime_expires_at_request_time() {
    let outcome = ExchangeOutcome::Success {
        access_token: "abc".to_string(),
        expires_in: None,
    };
    let token = token_from_exchange(outcome, 1000).unwrap();
    assert_eq!(token.expires_on, 1000);
}

#[test]
fn exchange_without_lifetime_at_wall_clock_has_zero_remaining_lifetime() {
    let before = chrono::Utc::now().timestamp() as u64;
    let outcome = ExchangeOutcome::Success {
        access_token: "t".to_string(),
        expires_in: None,
    };
    let token = token_from_exchange_now(outcome).unwrap();
    let after = chrono::Utc::now().timestamp() as u64;
    assert!(token.expires_on >= before);
    assert!(token.expires_on <= after);
}

#[test]
fn exchange_with_explicit_zero_lifetime_expires_at_request_time() {
    let outcome = ExchangeOutcome::Success {
        access_token: "t".to_string(),
        expires_in: Some(0),
    };
    let token = token_from_exchange(outcome, 777).unwrap();
    assert_eq!(token.expires_on, 777);
}

#[test]
fn exchange_lifetime_overflow_clamps_to_maximum_instant() {
    let outcome = ExchangeOutcome::Success {
        access_token: "t".to_string(),
        expires_in: Some(5),
    };
    let token = token_from_exchange(outcome, u64::MAX - 2).unwrap();
    assert_eq!(token.expires_on, u64::MAX);
}

#[test]
fn server_described_error_surfaces_description_verbatim() {
    let outcome = ExchangeOutcome::ServerError {
        error_description: Some("invalid_client".to_string()),
    };
    let err = token_from_exchange(outcome, 0).unwrap_err();
    match &err {
        CredentialError::ServerDescribed { description } => {
            assert_eq!(description, "invalid_client");
        }
        other => panic!("expected a server-described error, got {:?}", other),
    }
    assert_eq!(err.message(), "invalid_client");
}

#[test]
fn server_error_without_description_gets_placeholder_text() {
    let outcome = ExchangeOutcome::ServerError { error_description: None };
    let err = token_from_exchange(outcome, 0).unwrap_err();
    assert_eq!(err.message(), "Server error without description");
}

#[test]
fn request_failure_is_generic_exchange_error() {
    let err = token_from_exchange(ExchangeOutcome::RequestFailed, 0).unwrap_err();
    assert_eq!(err, CredentialError::Exchange);
    assert_eq!(err.message(), "OAuth2 error");
}

#[test]
fn token_response_new_keeps_fields() {
    let t = TokenResponse::new("secret-token".to_string(), 42);
    assert_eq!(t.access_token, "secret-token");
    assert_eq!(t.expires_on, 42);
}

#[test]
fn credential_error_text_never_holds_the_client_secret() {
    let credential = ClientSecretCredential::new(
        "bad/tenant".to_string(),
        "client".to_string(),
        "SECRET-REDACTED".to_string(),
        TokenCredentialOptions::default(),
    );
    let err = credential.prepare_token_request("https://management.azure.com/").unwrap_err();
    assert!(!err.message().contains("SECRET-REDACTED"));
}

use mgmt_core::authority_hosts;
use mgmt_core::credential::{ClientSecretCredential, TokenCredentialOptions};
use mgmt_core::endpoints::{
    authorize_endpoint, parses_as_url, tenant_is_single_segment, token_endpoint,
};
use mgmt_core::errors::CredentialError;
use mgmt_core::tenant_ids;

fn credential_with(tenant: &str, host: Option<&str>) -> ClientSecretCredential {
    ClientSecretCredential::new(
        tenant.to_string(),
        "client-id".to_string(),
        "client-secret".to_string(),
        TokenCredentialOptions { authority_host: host.map(|h| h.to_string()) },
    )
}

#[test]
fn well_formed_pair_yields_both_endpoints_with_fixed_suffixes() {
    let credential = credential_with("common", None);
    let request = credential.prepare_token_request("https://management.azure.com/").unwrap();
    assert_eq!(
        request.token_url,
        "https://login.microsoftonline.com/common/oauth2/v2.0/token"
    );
    assert_eq!(
        request.authorize_url,
        "https://login.microsoftonline.com/common/oauth2/v2.0/authorize"
    );
    assert!(request.token_url.ends_with("/oauth2/v2.0/token"));
    assert!(request.authorize_url.ends_with("/oauth2/v2.0/authorize"));
    assert_eq!(request.client_id, "client-id");
    assert_eq!(request.client_secret, "client-secret");
    assert_eq!(request.scope, "https://management.azure.com/.default");
}

#[test]
fn sovereign_host_is_used_when_configured() {
    let credential = credential_with("adfs", Some(authority_hosts::AZURE_GOVERNMENT));
    let request = credential.prepare_token_request("r").unwrap();
    assert_eq!(
        request.token_url,
        "https://login.microsoftonline.us/adfs/oauth2/v2.0/token"
    );
    assert_eq!(request.scope, "r.default");
}

#[test]
fn tenant_with_path_separator_is_a_configuration_error() {
    let credential = credential_with("my/tenant", None);
    let err = credential.prepare_token_request("r").unwrap_err();
    match &err {
        CredentialError::TokenEndpoint { tenant_id } => assert_eq!(tenant_id, "my/tenant"),
        other => panic!("expected a token-endpoint configuration error, got {:?}", other),
    }
    assert_eq!(
        err.message(),
        "Failed to construct token endpoint with tenant id my/tenant"
    );
}

#[test]
fn empty_tenant_is_a_configuration_error() {
    let credential = credential_with("", None);
    let err = credential.prepare_token_request("r").unwrap_err();
    assert!(matches!(err, CredentialError::TokenEndpoint { .. }));
}

#[test]
fn unparsable_authority_host_is_a_configuration_error() {
    let credential = credential_with("common", Some("not a url"));
    let err = credential.prepare_token_request("r").unwrap_err();
    assert!(matches!(err, CredentialError::TokenEndpoint { .. }));
}

#[test]
fn tenant_segment_check_accepts_single_segments_only() {
    assert!(tenant_is_single_segment("common"));
    assert!(tenant_is_single_segment("72f988bf-86f1-41af-91ab-2d7cd011db47"));
    assert!(tenant_is_single_segment("contoso.onmicrosoft.com"));
    assert!(!tenant_is_single_segment(""));
    assert!(!tenant_is_single_segment("a/b"));
    assert!(!tenant_is_single_segment("a\\b"));
    assert!(!tenant_is_single_segment("a?b"));
    assert!(!tenant_is_single_segment("a#b"));
}

#[test]
fn url_validation_accepts_absolute_urls_and_rejects_others() {
    assert!(parses_as_url("https://login.microsoftonline.com/common/oauth2/v2.0/token"));
    assert!(!parses_as_url("not a url"));
    assert!(!parses_as_url(""));
    assert!(!parses_as_url("/relative/path"));
}

#[test]
fn endpoint_builders_concatenate_exactly() {
    assert_eq!(
        token_endpoint("https://h.example", "t"),
        "https://h.example/t/oauth2/v2.0/token"
    );
    assert_eq!(
        authorize_endpoint("https://h.example", "t"),
        "https://h.example/t/oauth2/v2.0/authorize"
    );
}

#[test]
fn authority_host_falls_back_to_public_cloud() {
    let none = TokenCredentialOptions { authority_host: None };
    assert_eq!(none.authority_host(), "https://login.microsoftonline.com");
    let some = TokenCredentialOptions { authority_host: Some("https://x.example".to_string()) };
    assert_eq!(some.authority_host(), "https://x.example");
    let default = TokenCredentialOptions::default();
    assert_eq!(default.authority_host(), authority_hosts::AZURE_PUBLIC_CLOUD);
}

#[test]
fn well_known_constants_hold_their_documented_values() {
    assert_eq!(authority_hosts::AZURE_PUBLIC_CLOUD, "https://login.microsoftonline.com");
    assert_eq!(authority_hosts::AZURE_CHINA, "https://login.chinacloudapi.cn");
    assert_eq!(authority_hosts::AZURE_GERMANY, "https://login.microsoftonline.de");
    assert_eq!(authority_hosts::AZURE_GOVERNMENT, "https://login.microsoftonline.us");
    assert_eq!(tenant_ids::TENANT_ID_COMMON, "common");
    assert_eq!(tenant_ids::TENANT_ID_ADFS, "adfs");
}

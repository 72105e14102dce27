use mgmt_core::credential::{ClientSecretCredential, TokenCredentialOptions};
use mgmt_core::dispatch::{Method, OperationConfig, RequestBody};
use mgmt_core::errors::OperationError;
use mgmt_core::{
    keyvault_operations, keyvault_vaults, powerbi_capacities, powerbi_operations,
    storage_accounts, storage_usage,
};

fn config(api_version: &str) -> OperationConfig {
    let credential = ClientSecretCredential::new(
        "common".to_string(),
        "id".to_string(),
        "secret".to_string(),
        TokenCredentialOptions::default(),
    );
    OperationConfig::new(credential, api_version.to_string())
}

#[test]
fn storage_get_properties_url_and_method() {
    let plan = storage_accounts::get_properties::request(
        &config(storage_accounts::API_VERSION),
        "rg1",
        "acct1",
        "sub1",
    );
    assert_eq!(
        plan.url,
        "https://management.azure.com/subscriptions/sub1/resourceGroups/rg1/providers/Microsoft.Storage/storageAccounts/acct1"
    );
    assert!(matches!(plan.method, Method::Get));
    assert!(matches!(plan.body, RequestBody::NoBody));
    assert_eq!(plan.query, vec![("api-version".to_string(), "2016-01-01".to_string())]);
}

#[test]
fn storage_list_keys_is_a_post_with_explicit_empty_body() {
    let plan = storage_accounts::list_keys::request(&config("v"), "rg", "acct", "sub");
    assert_eq!(
        plan.url,
        "https://management.azure.com/subscriptions/sub/resourceGroups/rg/providers/Microsoft.Storage/storageAccounts/acct/listKeys"
    );
    assert!(matches!(plan.method, Method::Post));
    assert!(matches!(plan.body, RequestBody::Empty));
}

#[test]
fn storage_check_name_availability_posts_the_parameters() {
    let body = br#"{"name":"acct","type":"Microsoft.Storage/storageAccounts"}"#.to_vec();
    let plan = storage_accounts::check_name_availability::request(
        &config("v"),
        body.clone(),
        "sub",
    );
    assert_eq!(
        plan.url,
        "https://management.azure.com/subscriptions/sub/providers/Microsoft.Storage/checkNameAvailability"
    );
    match plan.body {
        RequestBody::Json(b) => assert_eq!(b, body),
        other => panic!("expected a JSON body, got {:?}", other),
    }
}

#[test]
fn storage_usage_list_url() {
    let plan = storage_usage::list::request(&config("v"), "sub");
    assert_eq!(
        plan.url,
        "https://management.azure.com/subscriptions/sub/providers/Microsoft.Storage/usages"
    );
}

#[test]
fn storage_create_distinguishes_completed_from_accepted() {
    let payload = br#"{"name":"acct"}"#.to_vec();
    let done = storage_accounts::create::interpret(200, payload.clone()).unwrap();
    assert_eq!(done, storage_accounts::create::Response::Ok200(payload));
    let pending = storage_accounts::create::interpret(202, b"whatever".to_vec()).unwrap();
    assert_eq!(pending, storage_accounts::create::Response::Accepted202);
}

#[test]
fn storage_delete_accepts_both_status_signals() {
    let ok = storage_accounts::delete::interpret(200, Vec::new()).unwrap();
    assert_eq!(ok, storage_accounts::delete::Response::Ok200);
    let gone = storage_accounts::delete::interpret(204, b"ignored".to_vec()).unwrap();
    assert_eq!(gone, storage_accounts::delete::Response::NoContent204);
    let err = storage_accounts::delete::interpret(500, b"boom".to_vec()).unwrap_err();
    assert_eq!(
        err,
        OperationError::UnexpectedResponse { status_code: 500, body: b"boom".to_vec() }
    );
}

#[test]
fn keyvault_create_or_update_tags_created_and_updated_distinctly() {
    let payload = br#"{"id":"/vaults/v1"}"#.to_vec();
    let created = keyvault_vaults::create_or_update::interpret(201, payload.clone()).unwrap();
    assert_eq!(
        created,
        keyvault_vaults::create_or_update::Response::Created201(payload.clone())
    );
    let updated = keyvault_vaults::create_or_update::interpret(200, payload.clone()).unwrap();
    assert_eq!(updated, keyvault_vaults::create_or_update::Response::Ok200(payload));
}

#[test]
fn keyvault_create_or_update_rejects_undeclared_status_with_exact_body() {
    let body = b"im a teapot".to_vec();
    let err = keyvault_vaults::create_or_update::interpret(418, body.clone()).unwrap_err();
    assert_eq!(err, OperationError::UnexpectedResponse { status_code: 418, body });
}

#[test]
fn keyvault_create_or_update_reports_malformed_payload_with_exact_bytes() {
    let body = b"<html>oops</html>".to_vec();
    let err = keyvault_vaults::create_or_update::interpret(200, body.clone()).unwrap_err();
    assert_eq!(err, OperationError::DeserializeError { body });
}

#[test]
fn keyvault_vault_urls() {
    let cfg = config(keyvault_vaults::API_VERSION);
    let get = keyvault_vaults::get::request(&cfg, "rg", "v1", "sub");
    assert_eq!(
        get.url,
        "https://management.azure.com/subscriptions/sub/resourceGroups/rg/providers/Microsoft.KeyVault/vaults/v1"
    );
    let policy = keyvault_vaults::update_access_policy::request(
        &cfg,
        "rg",
        "v1",
        "add",
        b"{}".to_vec(),
        "sub",
    );
    assert_eq!(
        policy.url,
        "https://management.azure.com/subscriptions/sub/resourceGroups/rg/providers/Microsoft.KeyVault/vaults/v1/accessPolicies/add"
    );
    assert!(matches!(policy.method, Method::Put));
    let purge = keyvault_vaults::purge_deleted::request(&cfg, "v1", "westus", "sub");
    assert_eq!(
        purge.url,
        "https://management.azure.com/subscriptions/sub/providers/Microsoft.KeyVault/locations/westus/deletedVaults/v1/purge"
    );
    assert!(matches!(purge.body, RequestBody::Empty));
}

#[test]
fn keyvault_listing_appends_top_when_given() {
    let cfg = config("2016-10-01");
    let capped = keyvault_vaults::list_by_resource_group::request(&cfg, "rg", Some(25), "sub");
    assert_eq!(
        capped.query,
        vec![
            ("api-version".to_string(), "2016-10-01".to_string()),
            ("$top".to_string(), "25".to_string()),
        ]
    );
    let uncapped = keyvault_vaults::list_by_resource_group::request(&cfg, "rg", None, "sub");
    assert_eq!(
        uncapped.query,
        vec![("api-version".to_string(), "2016-10-01".to_string())]
    );
}

#[test]
fn keyvault_resource_listing_carries_filter_then_top() {
    let cfg = config("2016-10-01");
    let plan = keyvault_vaults::list::request(
        &cfg,
        "resourceType eq 'Microsoft.KeyVault/vaults'",
        Some(-3),
        "sub",
    );
    assert_eq!(
        plan.query,
        vec![
            ("api-version".to_string(), "2016-10-01".to_string()),
            (
                "$filter".to_string(),
                "resourceType eq 'Microsoft.KeyVault/vaults'".to_string()
            ),
            ("$top".to_string(), "-3".to_string()),
        ]
    );
    assert_eq!(
        plan.url,
        "https://management.azure.com/subscriptions/sub/resources"
    );
}

#[test]
fn keyvault_operations_catalogue_url() {
    let plan = keyvault_operations::list::request(&config("v"));
    assert_eq!(
        plan.url,
        "https://management.azure.com/providers/Microsoft.KeyVault/operations"
    );
}

#[test]
fn powerbi_capacity_actions_and_tables() {
    let cfg = config(powerbi_capacities::API_VERSION);
    let suspend = powerbi_capacities::suspend::request(&cfg, "rg", "cap", "sub");
    assert_eq!(
        suspend.url,
        "https://management.azure.com/subscriptions/sub/resourceGroups/rg/providers/Microsoft.PowerBIDedicated/capacities/cap/suspend"
    );
    assert!(matches!(suspend.method, Method::Post));
    assert!(matches!(suspend.body, RequestBody::Empty));
    let accepted = powerbi_capacities::suspend::interpret(202, Vec::new()).unwrap();
    assert_eq!(accepted, powerbi_capacities::suspend::Response::Accepted202);
    let deleted = powerbi_capacities::delete::interpret(202, b"x".to_vec()).unwrap();
    assert_eq!(deleted, powerbi_capacities::delete::Response::Accepted202);
    let payload = br#"{"sku":"A1"}"#.to_vec();
    let updated = powerbi_capacities::update::interpret(202, payload.clone()).unwrap();
    assert_eq!(
        updated,
        powerbi_capacities::update::Response::Accepted202(payload)
    );
}

#[test]
fn powerbi_check_name_availability_url_holds_the_location() {
    let plan = powerbi_capacities::check_name_availability::request(
        &config("v"),
        "westeurope",
        b"{}".to_vec(),
        "sub",
    );
    assert_eq!(
        plan.url,
        "https://management.azure.com/subscriptions/sub/providers/Microsoft.PowerBIDedicated/locations/westeurope/checkNameAvailability"
    );
}

#[test]
fn powerbi_operations_catalogue_url() {
    let plan = powerbi_operations::list::request(&config("v"));
    assert_eq!(
        plan.url,
        "https://management.azure.com/providers/Microsoft.PowerBIDedicated/operations"
    );
}

#[test]
fn powerbi_operations_listing_reads_failures_through_the_error_envelope() {
    let catalogue = br#"{"value":[]}"#.to_vec();
    let ok = powerbi_operations::list::interpret(200, catalogue.clone()).unwrap();
    assert_eq!(ok, catalogue);
    let envelope = br#"{"error":{"code":"Throttled","message":"slow down"}}"#.to_vec();
    let described = powerbi_operations::list::interpret(429, envelope.clone()).unwrap_err();
    assert_eq!(
        described,
        OperationError::DefaultErrorResponse { status_code: 429, body: envelope }
    );
    let garbage = b"<html>bad gateway</html>".to_vec();
    let undecodable = powerbi_operations::list::interpret(502, garbage.clone()).unwrap_err();
    assert_eq!(undecodable, OperationError::DeserializeError { body: garbage });
}

#[test]
fn api_version_constants_hold_their_package_versions() {
    assert_eq!(storage_accounts::API_VERSION, "2016-01-01");
    assert_eq!(keyvault_vaults::API_VERSION, "2016-10-01");
    assert_eq!(powerbi_capacities::API_VERSION, "2017-10-01");
}

#[test]
fn decimal_rendering_matches_display() {
    for n in [0, 7, 25, -3, 1234567, i32::MAX, i32::MIN] {
        assert_eq!(mgmt_core::decimal::i32_to_decimal(n), n.to_string());
    }
}

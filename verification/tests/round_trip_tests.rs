//! A request body serialized by the generic codec, sent, echoed back verbatim
//! by a double of the server, and decoded through the response path comes out
//! equal to the original value.

use mgmt_core::credential::{ClientSecretCredential, TokenCredentialOptions};
use mgmt_core::dispatch::{OperationConfig, RequestBody};
use mgmt_core::storage_accounts;

fn config() -> OperationConfig {
    let credential = ClientSecretCredential::new(
        "common".to_string(),
        "id".to_string(),
        "secret".to_string(),
        TokenCredentialOptions::default(),
    );
    OperationConfig::new(credential, storage_accounts::API_VERSION.to_string())
}

fn sample_value() -> serde_json::Value {
    let mut sku = serde_json::Map::new();
    sku.insert("name".to_string(), serde_json::Value::String("Standard_LRS".to_string()));
    let mut root = serde_json::Map::new();
    root.insert("location".to_string(), serde_json::Value::String("westus".to_string()));
    root.insert("sku".to_string(), serde_json::Value::Object(sku));
    root.insert(
        "replicas".to_string(),
        serde_json::Value::Array(vec![
            serde_json::Value::from(1),
            serde_json::Value::from(2),
        ]),
    );
    root.insert("encrypted".to_string(), serde_json::Value::Bool(true));
    serde_json::Value::Object(root)
}

#[test]
fn echoed_request_body_decodes_back_to_the_original_value() {
    let original = sample_value();
    let sent = serde_json::to_vec(&original).unwrap();
    let plan = storage_accounts::create::request(&config(), "rg", "acct", sent, "sub");
    // A test double of the server: echo the request body verbatim under a
    // declared success code.
    let echoed = match plan.body {
        RequestBody::Json(bytes) => bytes,
        other => panic!("expected a JSON body, got {:?}", other),
    };
    let response = storage_accounts::create::interpret(200, echoed).unwrap();
    let payload = match response {
        storage_accounts::create::Response::Ok200(payload) => payload,
        other => panic!("expected the payload-bearing success, got {:?}", other),
    };
    let decoded: serde_json::Value = serde_json::from_slice(&payload).unwrap();
    assert_eq!(decoded, original);
}

#[test]
fn echoed_unicode_body_survives_byte_for_byte() {
    let original = serde_json::Value::String("smörgåsbord — 団子".to_string());
    let sent = serde_json::to_vec(&original).unwrap();
    let plan = storage_accounts::create::request(&config(), "rg", "acct", sent.clone(), "sub");
    let echoed = match plan.body {
        RequestBody::Json(bytes) => bytes,
        other => panic!("expected a JSON body, got {:?}", other),
    };
    assert_eq!(echoed, sent);
    let response = storage_accounts::create::interpret(200, echoed).unwrap();
    match response {
        storage_accounts::create::Response::Ok200(payload) => {
            assert_eq!(payload, sent);
            let decoded: serde_json::Value = serde_json::from_slice(&payload).unwrap();
            assert_eq!(decoded, original);
        }
        other => panic!("expected the payload-bearing success, got {:?}", other),
    }
}

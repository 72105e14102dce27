//! Updating a vault in place; 201 reports creation and 200 an update, over the
//! same payload shape.

use vstd::prelude::*;

use crate::dispatch::{
    build_request, interpret_response, json_ok, lemma_lookup2, standard_plan, version_only_query,
    Method, OperationConfig, PayloadKind, RequestBody, RequestPlan, StatusRule,
};
use crate::errors::OperationError;
use crate::keyvault_vaults::{spec_vault_path, vault_path};

verus! {

/// The declared success responses.
#[derive(Clone, Debug, PartialEq, Eq)]
pub enum Response {
    /// Status 201; carries the payload bytes.
    Created201(Vec<u8>),
    /// Status 200; carries the payload bytes.
    Ok200(Vec<u8>),
}

/// Builds the request plan: a PATCH of the serialized parameters.
pub fn request(
    config: &OperationConfig,
    resource_group_name: &str,
    vault_name: &str,
    parameters: Vec<u8>,
    subscription_id: &str,
) -> (r: RequestPlan)
    ensures
        standard_plan(
            r,
            *config,
            Method::Patch,
            spec_vault_path(subscription_id@, resource_group_name@, vault_name@),
        ),
        version_only_query(r.query@, config.api_version@),
        r.body matches RequestBody::Json(b) && b@ == parameters@,
{
    let path = vault_path(subscription_id, resource_group_name, vault_name);
    build_request(config, Method::Patch, path, Vec::new(), RequestBody::Json(parameters))
}

/// Interprets the response by its status code against the declared table:
/// each declared code yields its body bytes as the payload (well-formed
/// JSON, or the decode failure with the exact bytes), and every other code
/// is the unexpected-status failure with the raw body verbatim.
pub fn interpret(status: u16, body: Vec<u8>) -> (r: Result<Response, OperationError>)
    ensures
        status == 201 && json_ok(body@) ==> (r matches Ok(resp)
            && resp matches Response::Created201(p) && p@ == body@),
        status == 200 && json_ok(body@) ==> (r matches Ok(resp)
            && resp matches Response::Ok200(p) && p@ == body@),
        (status == 201 || status == 200) && !json_ok(body@) ==> (r matches Err(e)
            && e matches OperationError::DeserializeError { body: b } && b@ == body@),
        status != 201 && status != 200 ==> (r matches Err(e)
            && e matches OperationError::UnexpectedResponse { status_code, body: b }
            && status_code == status && b@ == body@),
{
    let rules = vec![
        StatusRule { code: 201, kind: PayloadKind::Json },
        StatusRule { code: 200, kind: PayloadKind::Json },
    ];
    proof {
        lemma_lookup2(
            StatusRule { code: 201, kind: PayloadKind::Json },
            StatusRule { code: 200, kind: PayloadKind::Json },
            status,
        );
        assert(rules@ =~= seq![
            StatusRule { code: 201, kind: PayloadKind::Json },
            StatusRule { code: 200, kind: PayloadKind::Json },
        ]);
    }
    match interpret_response(&rules, status, body) {
        Ok(s) => {
            if s.code == 201 {
                Ok(Response::Created201(s.payload.unwrap()))
            } else {
                Ok(Response::Ok200(s.payload.unwrap()))
            }
        },
        Err(e) => Err(e),
    }
}

} // verus!

//! Listing the provider's available operations. Unlike the other operations
//! of this provider, this one interprets every non-success status through the
//! provider-wide structured error envelope: it declares no raw-body fallback.

use vstd::prelude::*;

use crate::dispatch::{
    build_request, interpret_response_with, json_ok, lemma_lookup1, standard_plan,
    version_only_query, Method, OperationConfig, PayloadKind, RequestBody, RequestPlan,
    StatusRule, UnexpectedPolicy,
};
use crate::errors::OperationError;

verus! {

/// Builds the request plan: a bodyless GET.
pub fn request(config: &OperationConfig) -> (r: RequestPlan)
    ensures
        standard_plan(
            r,
            *config,
            Method::Get,
            "/providers/Microsoft.PowerBIDedicated/operations"@,
        ),
        version_only_query(r.query@, config.api_version@),
        r.body is NoBody,
{
    let path = "/providers/Microsoft.PowerBIDedicated/operations".to_owned();
    build_request(config, Method::Get, path, Vec::new(), RequestBody::NoBody)
}

/// Interprets the response by its status code: 200 yields the payload bytes
/// (well-formed JSON, or the decode failure with the exact bytes); every
/// other status is read through the provider-wide error envelope — a
/// well-formed JSON body is the provider-described default error carrying
/// the code, and any other body is the decode failure with the exact bytes.
pub fn interpret(status: u16, body: Vec<u8>) -> (r: Result<Vec<u8>, OperationError>)
    ensures
        status == 200 && json_ok(body@) ==> (r matches Ok(p) && p@ == body@),
        status != 200 && json_ok(body@) ==> (r matches Err(e)
            && e matches OperationError::DefaultErrorResponse { status_code, body: b }
            && status_code == status && b@ == body@),
        !json_ok(body@) ==> (r matches Err(e)
            && e matches OperationError::DeserializeError { body: b } && b@ == body@),
{
    let rules = vec![
        StatusRule { code: 200, kind: PayloadKind::Json },
    ];
    proof {
        lemma_lookup1(
            StatusRule { code: 200, kind: PayloadKind::Json },
            status,
        );
        assert(rules@ =~= seq![
            StatusRule { code: 200, kind: PayloadKind::Json },
        ]);
    }
    match interpret_response_with(&rules, status, body, UnexpectedPolicy::ErrorEnvelope) {
        Ok(s) => Ok(s.payload.unwrap()),
        Err(e) => Err(e),
    }
}

} // verus!

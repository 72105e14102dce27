//! Checking whether a capacity name is available in one location.

use vstd::prelude::*;

use crate::dispatch::{
    build_request, interpret_response, json_ok, lemma_lookup1, standard_plan, version_only_query,
    Method, OperationConfig, PayloadKind, RequestBody, RequestPlan, StatusRule,
};
use crate::errors::OperationError;

verus! {

/// Builds the request plan: a POST of the serialized parameters.
pub fn request(
    config: &OperationConfig,
    location: &str,
    capacity_parameters: Vec<u8>,
    subscription_id: &str,
) -> (r: RequestPlan)
    ensures
        standard_plan(
            r,
            *config,
            Method::Post,
            "/subscriptions/"@ + subscription_id@
                + "/providers/Microsoft.PowerBIDedicated/locations/"@ + location@
                + "/checkNameAvailability"@,
        ),
        version_only_query(r.query@, config.api_version@),
        r.body matches RequestBody::Json(b) && b@ == capacity_parameters@,
{
    let mut path = "/subscriptions/".to_owned();
    path.append(subscription_id);
    path.append("/providers/Microsoft.PowerBIDedicated/locations/");
    path.append(location);
    path.append("/checkNameAvailability");
    build_request(config, Method::Post, path, Vec::new(), RequestBody::Json(capacity_parameters))
}

/// Interprets the response by its status code: 200 yields the payload
/// bytes (well-formed JSON, or the decode failure with the exact bytes),
/// and every other code is the unexpected-status failure with the raw
/// body verbatim.
pub fn interpret(status: u16, body: Vec<u8>) -> (r: Result<Vec<u8>, OperationError>)
    ensures
        status == 200 && json_ok(body@) ==> (r matches Ok(p) && p@ == body@),
        status == 200 && !json_ok(body@) ==> (r matches Err(e)
            && e matches OperationError::DeserializeError { body: b } && b@ == body@),
        status != 200 ==> (r matches Err(e)
            && e matches OperationError::UnexpectedResponse { status_code, body: b }
            && status_code == status && b@ == body@),
{
    let rules = vec![
        StatusRule { code: 200, kind: PayloadKind::Json },
    ];
    proof {
        lemma_lookup1(
            StatusRule { code: 200, kind: PayloadKind::Json },
            status,
        );
        assert(rules@ =~= seq![
            StatusRule { code: 200, kind: PayloadKind::Json },
        ]);
    }
    match interpret_response(&rules, status, body) {
        Ok(s) => Ok(s.payload.unwrap()),
        Err(e) => Err(e),
    }
}

} // verus!

//! Deleting a dedicated capacity; 200, 204 and 202 are all pure status signals.

use vstd::prelude::*;

use crate::dispatch::{
    build_request, interpret_response, lemma_lookup3, standard_plan, version_only_query, Method,
    OperationConfig, PayloadKind, RequestBody, RequestPlan, StatusRule,
};
use crate::errors::OperationError;
use crate::powerbi_capacities::{capacity_path, spec_capacity_path};

verus! {

/// The declared success responses.
#[derive(Clone, Debug, PartialEq, Eq)]
pub enum Response {
    /// Status 200, a pure status signal.
    Ok200,
    /// Status 204, a pure status signal.
    NoContent204,
    /// Status 202, a pure status signal.
    Accepted202,
}

/// Builds the request plan: a bodyless DELETE.
pub fn request(
    config: &OperationConfig,
    resource_group_name: &str,
    dedicated_capacity_name: &str,
    subscription_id: &str,
) -> (r: RequestPlan)
    ensures
        standard_plan(
            r,
            *config,
            Method::Delete,
            spec_capacity_path(subscription_id@, resource_group_name@, dedicated_capacity_name@),
        ),
        version_only_query(r.query@, config.api_version@),
        r.body is NoBody,
{
    let path = capacity_path(subscription_id, resource_group_name, dedicated_capacity_name);
    build_request(config, Method::Delete, path, Vec::new(), RequestBody::NoBody)
}

/// Interprets the response by its status code against the declared table:
/// every declared code is a pure signal regardless of body, and every other
/// code is the unexpected-status failure with the raw body verbatim.
pub fn interpret(status: u16, body: Vec<u8>) -> (r: Result<Response, OperationError>)
    ensures
        status == 200 ==> (r matches Ok(resp) && resp is Ok200),
        status == 204 ==> (r matches Ok(resp) && resp is NoContent204),
        status == 202 ==> (r matches Ok(resp) && resp is Accepted202),
        status != 200 && status != 204 && status != 202 ==> (r matches Err(e)
            && e matches OperationError::UnexpectedResponse { status_code, body: b }
            && status_code == status && b@ == body@),
{
    let rules = vec![
        StatusRule { code: 200, kind: PayloadKind::Bodyless },
        StatusRule { code: 204, kind: PayloadKind::Bodyless },
        StatusRule { code: 202, kind: PayloadKind::Bodyless },
    ];
    proof {
        lemma_lookup3(
            StatusRule { code: 200, kind: PayloadKind::Bodyless },
            StatusRule { code: 204, kind: PayloadKind::Bodyless },
            StatusRule { code: 202, kind: PayloadKind::Bodyless },
            status,
        );
        assert(rules@ =~= seq![
            StatusRule { code: 200, kind: PayloadKind::Bodyless },
            StatusRule { code: 204, kind: PayloadKind::Bodyless },
            StatusRule { code: 202, kind: PayloadKind::Bodyless },
        ]);
    }
    match interpret_response(&rules, status, body) {
        Ok(s) => {
            if s.code == 200 {
                Ok(Response::Ok200)
            } else if s.code == 204 {
                Ok(Response::NoContent204)
            } else {
                Ok(Response::Accepted202)
            }
        },
        Err(e) => Err(e),
    }
}

} // verus!

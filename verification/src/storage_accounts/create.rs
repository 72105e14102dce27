//! Creating a storage account: an asynchronous operation whose declared
//! success codes are 200 (the created account as payload) and 202 (accepted,
//! no body).

use vstd::prelude::*;

use crate::dispatch::{
    build_request, interpret_response, json_ok, lemma_lookup2, standard_plan, version_only_query,
    Method, OperationConfig, PayloadKind, RequestBody, RequestPlan, StatusRule,
};
use crate::errors::OperationError;
use crate::storage_accounts::{account_path, spec_account_path};

verus! {

/// The declared success responses.
#[derive(Clone, Debug, PartialEq, Eq)]
pub enum Response {
    /// The account was created; carries the account payload bytes.
    Ok200(Vec<u8>),
    /// The creation was accepted and continues asynchronously.
    Accepted202,
}

/// Builds the request plan: a PUT of the serialized creation parameters to
/// the account's URL.
pub fn request(
    config: &OperationConfig,
    resource_group_name: &str,
    account_name: &str,
    parameters: Vec<u8>,
    subscription_id: &str,
) -> (r: RequestPlan)
    ensures
        standard_plan(
            r,
            *config,
            Method::Put,
            spec_account_path(subscription_id@, resource_group_name@, account_name@),
        ),
        version_only_query(r.query@, config.api_version@),
        r.body matches RequestBody::Json(b) && b@ == parameters@,
{
    build_request(
        config,
        Method::Put,
        account_path(subscription_id, resource_group_name, account_name),
        Vec::new(),
        RequestBody::Json(parameters),
    )
}

/// Interprets the response by its status code: 200 yields the account payload
/// (well-formed JSON, or the decode failure with the exact bytes), 202 yields
/// the accepted signal regardless of body, and every other code is the
/// unexpected-status failure with the raw body verbatim.
pub fn interpret(status: u16, body: Vec<u8>) -> (r: Result<Response, OperationError>)
    ensures
        status == 200 && json_ok(body@) ==> (r matches Ok(resp) && resp matches Response::Ok200(p)
            && p@ == body@),
        status == 200 && !json_ok(body@) ==> (r matches Err(e)
            && e matches OperationError::DeserializeError { body: b } && b@ == body@),
        status == 202 ==> (r matches Ok(resp) && resp is Accepted202),
        status != 200 && status != 202 ==> (r matches Err(e)
            && e matches OperationError::UnexpectedResponse { status_code, body: b }
            && status_code == status && b@ == body@),
{
    let rules = vec![
        StatusRule { code: 200, kind: PayloadKind::Json },
        StatusRule { code: 202, kind: PayloadKind::Bodyless },
    ];
    proof {
        lemma_lookup2(
            StatusRule { code: 200, kind: PayloadKind::Json },
            StatusRule { code: 202, kind: PayloadKind::Bodyless },
            status,
        );
        assert(rules@ =~= seq![
            StatusRule { code: 200, kind: PayloadKind::Json },
            StatusRule { code: 202, kind: PayloadKind::Bodyless },
        ]);
    }
    match interpret_response(&rules, status, body) {
        Ok(s) => {
            if s.code == 200 {
                Ok(Response::Ok200(s.payload.unwrap()))
            } else {
                Ok(Response::Accepted202)
            }
        },
        Err(e) => Err(e),
    }
}

} // verus!

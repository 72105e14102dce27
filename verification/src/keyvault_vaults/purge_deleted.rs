//! Purging a soft-deleted vault; an action with a logically empty body, sent
//! with an explicit zero content length; 200 and 202 are pure status signals.

use vstd::prelude::*;

use crate::dispatch::{
    build_request, interpret_response, lemma_lookup2, standard_plan, version_only_query, Method,
    OperationConfig, PayloadKind, RequestBody, RequestPlan, StatusRule,
};
use crate::errors::OperationError;
use crate::keyvault_vaults::{deleted_vault_path, spec_deleted_vault_path};

verus! {

/// The declared success responses.
#[derive(Clone, Debug, PartialEq, Eq)]
pub enum Response {
    /// Status 200, a pure status signal.
    Ok200,
    /// Status 202, a pure status signal.
    Accepted202,
}

/// Builds the request plan: a POST with an explicit zero content length.
pub fn request(
    config: &OperationConfig,
    vault_name: &str,
    location: &str,
    subscription_id: &str,
) -> (r: RequestPlan)
    ensures
        standard_plan(
            r,
            *config,
            Method::Post,
            spec_deleted_vault_path(subscription_id@, location@, vault_name@) + "/purge"@,
        ),
        version_only_query(r.query@, config.api_version@),
        r.body is Empty,
{
    let mut path = deleted_vault_path(subscription_id, location, vault_name);
    path.append("/purge");
    build_request(config, Method::Post, path, Vec::new(), RequestBody::Empty)
}

/// Interprets the response by its status code against the declared table:
/// every declared code is a pure signal regardless of body, and every other
/// code is the unexpected-status failure with the raw body verbatim.
pub fn interpret(status: u16, body: Vec<u8>) -> (r: Result<Response, OperationError>)
    ensures
        status == 200 ==> (r matches Ok(resp) && resp is Ok200),
        status == 202 ==> (r matches Ok(resp) && resp is Accepted202),
        status != 200 && status != 202 ==> (r matches Err(e)
            && e matches OperationError::UnexpectedResponse { status_code, body: b }
            && status_code == status && b@ == body@),
{
    let rules = vec![
        StatusRule { code: 200, kind: PayloadKind::Bodyless },
        StatusRule { code: 202, kind: PayloadKind::Bodyless },
    ];
    proof {
        lemma_lookup2(
            StatusRule { code: 200, kind: PayloadKind::Bodyless },
            StatusRule { code: 202, kind: PayloadKind::Bodyless },
            status,
        );
        assert(rules@ =~= seq![
            StatusRule { code: 200, kind: PayloadKind::Bodyless },
            StatusRule { code: 202, kind: PayloadKind::Bodyless },
        ]);
    }
    match interpret_response(&rules, status, body) {
        Ok(s) => {
            if s.code == 200 {
                Ok(Response::Ok200)
            } else {
                Ok(Response::Accepted202)
            }
        },
        Err(e) => Err(e),
    }
}

} // verus!

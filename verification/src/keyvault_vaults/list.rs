//! Listing vault resources under a subscription through the generic resource
//! listing, with a mandatory `$filter` and an optional `$top`.

use vstd::prelude::*;

use crate::dispatch::{
    build_request, interpret_response, json_ok, lemma_lookup1, standard_plan, Method,
    OperationConfig, PayloadKind, RequestBody, RequestPlan, StatusRule,
};
use crate::errors::OperationError;
use crate::keyvault_vaults::filter_top_query;

verus! {

/// Builds the request plan: a bodyless GET.
pub fn request(
    config: &OperationConfig,
    filter: &str,
    top: Option<i32>,
    subscription_id: &str,
) -> (r: RequestPlan)
    ensures
        standard_plan(
            r,
            *config,
            Method::Get,
            "/subscriptions/"@ + subscription_id@ + "/resources"@,
        ),
        filter_top_query(r.query@, config.api_version@, filter@, top),
        r.body is NoBody,
{
    let mut path = "/subscriptions/".to_owned();
    path.append(subscription_id);
    path.append("/resources");
    let mut extra: Vec<(String, String)> = Vec::new();
    extra.push(("$filter".to_owned(), filter.to_owned()));
    match top {
        Some(t) => {
            extra.push(("$top".to_owned(), crate::decimal::i32_to_decimal(t)));
        },
        None => {},
    }
    let r = build_request(config, Method::Get, path, extra, RequestBody::NoBody);
    proof {
        assert(r.query@[0int + 1] == extra@[0int]);
        if top is Some {
            assert(r.query@[1int + 1] == extra@[1int]);
        }
    }
    r
}

/// Interprets the response by its status code: 200 yields the payload
/// bytes (well-formed JSON, or the decode failure with the exact bytes),
/// and every other code is the unexpected-status failure with the raw
/// body verbatim.
pub fn interpret(status: u16, body: Vec<u8>) -> (r: Result<Vec<u8>, OperationError>)
    ensures
        status == 200 && json_ok(body@) ==> (r matches Ok(p) && p@ == body@),
        status == 200 && !json_ok(body@) ==> (r matches Err(e)
            && e matches OperationError::DeserializeError { body: b } && b@ == body@),
        status != 200 ==> (r matches Err(e)
            && e matches OperationError::UnexpectedResponse { status_code, body: b }
            && status_code == status && b@ == body@),
{
    let rules = vec![
        StatusRule { code: 200, kind: PayloadKind::Json },
    ];
    proof {
        lemma_lookup1(
            StatusRule { code: 200, kind: PayloadKind::Json },
            status,
        );
        assert(rules@ =~= seq![
            StatusRule { code: 200, kind: PayloadKind::Json },
        ]);
    }
    match interpret_response(&rules, status, body) {
        Ok(s) => Ok(s.payload.unwrap()),
        Err(e) => Err(e),
    }
}

} // verus!

//! Operations on key vaults: per-operation request plans and declared status
//! tables, all thin instantiations of the shared dispatch contract.

use vstd::prelude::*;

pub mod check_name_availability;
pub mod create_or_update;
pub mod delete;
pub mod get;
pub mod get_deleted;
pub mod list;
pub mod list_by_resource_group;
pub mod list_by_subscription;
pub mod list_deleted;
pub mod purge_deleted;
pub mod update;
pub mod update_access_policy;

use crate::decimal::{i32_to_decimal, spec_decimal_int};
use crate::dispatch::version_only_query;

verus! {

/// The API version this package speaks.
pub const API_VERSION: &'static str = "2016-10-01";

/// The path of one vault below the base path.
pub open spec fn spec_vault_path(
    subscription_id: Seq<char>,
    resource_group_name: Seq<char>,
    vault_name: Seq<char>,
) -> Seq<char> {
    "/subscriptions/"@ + subscription_id + "/resourceGroups/"@ + resource_group_name
        + "/providers/Microsoft.KeyVault/vaults/"@ + vault_name
}

/// Builds the path of one vault.
pub fn vault_path(subscription_id: &str, resource_group_name: &str, vault_name: &str) -> (r:
    String)
    ensures
        r@ == spec_vault_path(subscription_id@, resource_group_name@, vault_name@),
{
    let mut s = "/subscriptions/".to_owned();
    s.append(subscription_id);
    s.append("/resourceGroups/");
    s.append(resource_group_name);
    s.append("/providers/Microsoft.KeyVault/vaults/");
    s.append(vault_name);
    s
}

/// The path of one soft-deleted vault below the base path.
pub open spec fn spec_deleted_vault_path(
    subscription_id: Seq<char>,
    location: Seq<char>,
    vault_name: Seq<char>,
) -> Seq<char> {
    "/subscriptions/"@ + subscription_id + "/providers/Microsoft.KeyVault/locations/"@ + location
        + "/deletedVaults/"@ + vault_name
}

/// Builds the path of one soft-deleted vault.
pub fn deleted_vault_path(subscription_id: &str, location: &str, vault_name: &str) -> (r: String)
    ensures
        r@ == spec_deleted_vault_path(subscription_id@, location@, vault_name@),
{
    let mut s = "/subscriptions/".to_owned();
    s.append(subscription_id);
    s.append("/providers/Microsoft.KeyVault/locations/");
    s.append(location);
    s.append("/deletedVaults/");
    s.append(vault_name);
    s
}

/// The query string of a listing with an optional page-size cap: the API
/// version first, then `$top` rendered in decimal when given.
pub open spec fn top_query(
    q: Seq<(String, String)>,
    api_version: Seq<char>,
    top: Option<i32>,
) -> bool {
    match top {
        Some(t) => {
            &&& q.len() == 2
            &&& q[0].0@ == "api-version"@
            &&& q[0].1@ == api_version
            &&& q[1].0@ == "$top"@
            &&& q[1].1@ == spec_decimal_int(t as int)
        },
        None => version_only_query(q, api_version),
    }
}

/// The query string of the resource listing: the API version, the mandatory
/// `$filter`, then `$top` rendered in decimal when given.
pub open spec fn filter_top_query(
    q: Seq<(String, String)>,
    api_version: Seq<char>,
    filter: Seq<char>,
    top: Option<i32>,
) -> bool {
    &&& q.len() == (if top is Some {
        3int
    } else {
        2int
    })
    &&& q[0].0@ == "api-version"@
    &&& q[0].1@ == api_version
    &&& q[1].0@ == "$filter"@
    &&& q[1].1@ == filter
    &&& top matches Some(t) ==> q[2].0@ == "$top"@ && q[2].1@ == spec_decimal_int(t as int)
}

/// The operation-specific query parameters of a listing with an optional cap.
pub fn top_extra(top: Option<i32>) -> (r: Vec<(String, String)>)
    ensures
        top matches Some(t) ==> r@.len() == 1 && r@[0].0@ == "$top"@ && r@[0].1@
            == spec_decimal_int(t as int),
        top is None ==> r@.len() == 0,
{
    let mut extra: Vec<(String, String)> = Vec::new();
    match top {
        Some(t) => {
            extra.push(("$top".to_owned(), i32_to_decimal(t)));
        },
        None => {},
    }
    extra
}

} // verus!

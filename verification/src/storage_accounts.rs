//! Operations on storage accounts: per-operation request plans and declared
//! status tables, all thin instantiations of the shared dispatch contract.

use vstd::prelude::*;

pub mod check_name_availability;
pub mod create;
pub mod delete;
pub mod get_properties;
pub mod list;
pub mod list_by_resource_group;
pub mod list_keys;
pub mod regenerate_key;
pub mod update;

verus! {

/// The API version this package speaks.
pub const API_VERSION: &'static str = "2016-01-01";

/// The path of one storage account below the base path.
pub open spec fn spec_account_path(
    subscription_id: Seq<char>,
    resource_group_name: Seq<char>,
    account_name: Seq<char>,
) -> Seq<char> {
    "/subscriptions/"@ + subscription_id + "/resourceGroups/"@ + resource_group_name
        + "/providers/Microsoft.Storage/storageAccounts/"@ + account_name
}

/// Builds the path of one storage account.
pub fn account_path(subscription_id: &str, resource_group_name: &str, account_name: &str) -> (r:
    String)
    ensures
        r@ == spec_account_path(subscription_id@, resource_group_name@, account_name@),
{
    let mut s = "/subscriptions/".to_owned();
    s.append(subscription_id);
    s.append("/resourceGroups/");
    s.append(resource_group_name);
    s.append("/providers/Microsoft.Storage/storageAccounts/");
    s.append(account_name);
    s
}

} // verus!

//! Operations on dedicated capacities: per-operation request plans and
//! declared status tables, all thin instantiations of the shared dispatch
//! contract.

use vstd::prelude::*;

pub mod check_name_availability;
pub mod create;
pub mod delete;
pub mod get_details;
pub mod list;
pub mod list_by_resource_group;
pub mod list_skus;
pub mod list_skus_for_capacity;
pub mod resume;
pub mod suspend;
pub mod update;

verus! {

/// The API version this package speaks.
pub const API_VERSION: &'static str = "2017-10-01";

/// The path of one dedicated capacity below the base path.
pub open spec fn spec_capacity_path(
    subscription_id: Seq<char>,
    resource_group_name: Seq<char>,
    dedicated_capacity_name: Seq<char>,
) -> Seq<char> {
    "/subscriptions/"@ + subscription_id + "/resourceGroups/"@ + resource_group_name
        + "/providers/Microsoft.PowerBIDedicated/capacities/"@ + dedicated_capacity_name
}

/// Builds the path of one dedicated capacity.
pub fn capacity_path(
    subscription_id: &str,
    resource_group_name: &str,
    dedicated_capacity_name: &str,
) -> (r: String)
    ensures
        r@ == spec_capacity_path(
            subscription_id@,
            resource_group_name@,
            dedicated_capacity_name@,
        ),
{
    let mut s = "/subscriptions/".to_owned();
    s.append(subscription_id);
    s.append("/resourceGroups/");
    s.append(resource_group_name);
    s.append("/providers/Microsoft.PowerBIDedicated/capacities/");
    s.append(dedicated_capacity_name);
    s
}

} // verus!

//! Well-known tenant ids of the identity provider.

use vstd::prelude::*;

verus! {

/// The multi-tenant ("common") endpoint
pub const TENANT_ID_COMMON: &'static str = "common";

/// Active Directory Federated Services
pub const TENANT_ID_ADFS: &'static str = "adfs";

} // verus!

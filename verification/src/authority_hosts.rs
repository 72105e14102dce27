//! Well-known identity-provider authority hosts. Each is the base URL of a
//! token-issuing endpoint for one cloud environment; sovereign clouds are
//! separate constants, never derived at runtime.

use vstd::prelude::*;

verus! {

/// China-based authority host
pub const AZURE_CHINA: &'static str = "https://login.chinacloudapi.cn";

/// Germany-based authority host
pub const AZURE_GERMANY: &'static str = "https://login.microsoftonline.de";

/// US Government authority host
pub const AZURE_GOVERNMENT: &'static str = "https://login.microsoftonline.us";

/// Public-cloud authority host, the default for authentication requests
pub const AZURE_PUBLIC_CLOUD: &'static str = "https://login.microsoftonline.com";

} // verus!

//! Core of a management REST API client: a client-secret credential that
//! acquires bearer tokens through the OAuth2 client-credentials grant, and the
//! uniform request/response dispatch contract shared by every generated
//! operation (endpoint construction, token injection, status-code-keyed
//! response classification, layered error taxonomy).

pub mod authority_hosts;
pub mod credential;
pub mod decimal;
pub mod dispatch;
pub mod endpoints;
pub mod errors;
pub mod keyvault_operations;
pub mod keyvault_vaults;
pub mod powerbi_capacities;
pub mod powerbi_operations;
pub mod storage_accounts;
pub mod storage_usage;
pub mod tenant_ids;


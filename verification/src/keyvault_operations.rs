//! The key-vault provider's operation catalogue.

pub mod list;

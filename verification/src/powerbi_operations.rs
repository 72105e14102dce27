//! The dedicated-capacity provider's operation catalogue.

pub mod list;

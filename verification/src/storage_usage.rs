//! Storage usage reporting under one subscription.

pub mod list;

//! Chain client: its gRPC endpoint cache, transaction workflows and the
//! chain information it is configured from.
pub mod client;
pub mod info;
pub mod registry;

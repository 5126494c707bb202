//! Verified core of a Cosmos SDK client library: coin and payment handling,
//! grant checks, gRPC endpoint caching, registry lookups and key management.
pub mod account;
pub mod chain;
pub mod chain_registry;
pub mod registry;
pub mod error;
pub mod keyring;
pub mod keys;
pub mod table;
pub mod text;
pub mod tx;
pub mod tx_handler;
pub mod utils;

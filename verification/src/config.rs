//! The configuration surface the faucet core consumes.
//!
//! Argument and environment parsing belongs to the embedding
//! application; this is the parsed shape.

use vstd::prelude::*;

verus! {

/// Which build the process runs as.
#[derive(Clone, Copy, Debug, PartialEq, Eq, Structural)]
pub enum CargoEnv {
    Development,
    Production,
}

/// The faucet's configuration.
#[derive(Clone, Debug)]
pub struct AppConfig {
    pub port: u16,
    pub difficulty: u64,
    pub private_key: String,
    pub chain_start: i64,
    pub chain_id: String,
    pub rpc: String,
    pub withdraw_limit: Option<u64>,
    pub auth_key: Option<String>,
    pub rps: Option<u64>,
}

} // verus!

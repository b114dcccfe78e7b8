//! The request and response shapes of the faucet endpoints.
//!
//! The embedding application owns the wire encoding; these types carry
//! the same fields as plain values.

use vstd::prelude::*;

use crate::entity::faucet::Faucet;
use crate::utils::hex::hex_encode;
use crate::utils::hex::hex_encode_spec;

verus! {

/// A redemption request: the echoed challenge and tag, the found
/// solution, and the transfer to perform.
#[derive(Clone)]
pub struct FaucetRequestDto {
    pub solution: String,
    pub challenge: String,
    pub tag: String,
    pub transfer: Transfer,
}

/// The transfer a redemption asks for.
#[derive(Clone)]
pub struct Transfer {
    pub token: String,
    pub target: String,
    pub amount: u64,
}

/// A challenge response: challenge and tag, hex-encoded.
#[derive(Clone, Debug)]
pub struct FaucetResponseDto {
    pub challenge: String,
    pub tag: String,
}

impl FaucetResponseDto {
    /// Hex-encodes an issued challenge exchange for the wire.
    pub fn from(value: Faucet) -> (r: Self)
        ensures
            r.challenge@ == hex_encode_spec(value.challenge@),
            r.tag@ == hex_encode_spec(value.tag@),
    {
        Self { challenge: hex_encode(&value.challenge), tag: hex_encode(&value.tag) }
    }
}

/// The outcome of a redemption: what was asked, whether the transfer
/// was accepted on chain, and its hash when one exists.
#[derive(Clone, Debug)]
pub struct FaucetResponseStatusDto {
    pub token: String,
    pub amount: u64,
    pub target: String,
    pub sent: bool,
    pub tx_hash: Option<String>,
}

/// The faucet's public settings.
#[derive(Clone, Debug)]
pub struct FaucetSettingResponse {
    pub difficulty: u64,
    pub chain_id: String,
    pub start_at: i64,
    pub withdraw_limit: u64,
    pub tokens_alias_to_address: Vec<(String, String)>,
}

} // verus!

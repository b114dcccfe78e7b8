//! Response shapes kept for callers of the earlier faucet API.

use vstd::prelude::*;

use crate::entity::faucet::Faucet;
use crate::utils::hex::hex_encode;
use crate::utils::hex::hex_encode_spec;

verus! {

/// A challenge response: challenge and tag, hex-encoded.
#[derive(Clone, Debug)]
pub struct FaucetResponse {
    pub challenge: String,
    pub tag: String,
}

impl FaucetResponse {
    /// Hex-encodes an issued challenge exchange for the wire.
    pub fn from(value: Faucet) -> (r: Self)
        ensures
            r.challenge@ == hex_encode_spec(value.challenge@),
            r.tag@ == hex_encode_spec(value.tag@),
    {
        Self { challenge: hex_encode(&value.challenge), tag: hex_encode(&value.tag) }
    }
}

/// The outcome of a redemption, without a transaction hash.
#[derive(Clone, Debug)]
pub struct FaucetResponseStatus {
    pub token: String,
    pub amount: u64,
    pub target: String,
    pub sent: bool,
}

} // verus!

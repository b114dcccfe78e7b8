//! The user-facing error taxonomy of the faucet.
//!
//! Every failed issuance or redemption is reported to the caller with
//! one of these kinds; none of them is a crash.

use vstd::prelude::*;

verus! {

/// Why a challenge request or a redemption was refused.
#[derive(Debug)]
pub enum FaucetError {
    /// The supplied solution does not meet the difficulty target.
    InvalidPoW,
    /// Tag verification failed: the tag is wrong or forged.
    InvalidProof,
    /// The challenge was already redeemed once.
    DuplicateChallenge,
    /// The token or target identifier does not parse as an address.
    InvalidAddress,
    /// A supplied public key does not parse.
    InvalidPublicKey,
    /// A supplied signature does not verify.
    InvalidSignature,
    /// The chain has not started yet.
    ChainNotStarted,
    /// The funding source cannot cover the requested amount.
    FaucetOutOfBalance,
    /// The ledger client failed while building, signing or submitting.
    SdkError(String),
    /// The requested amount exceeds the configured withdrawal cap.
    InvalidWithdrawLimit(u64),
    /// The public key does not belong to an eligible player.
    NotPlayer(String),
    /// The identity asked for a new challenge too soon.
    TooManyRequests,
}

impl FaucetError {
    /// The HTTP status code each error kind is reported with.
    pub open spec fn spec_status_code(&self) -> u16 {
        match self {
            FaucetError::InvalidPoW => 400,
            FaucetError::InvalidProof => 403,
            FaucetError::DuplicateChallenge => 409,
            FaucetError::InvalidAddress => 400,
            FaucetError::ChainNotStarted => 400,
            FaucetError::InvalidWithdrawLimit(_) => 400,
            FaucetError::FaucetOutOfBalance => 409,
            FaucetError::SdkError(_) => 400,
            FaucetError::NotPlayer(_) => 400,
            FaucetError::TooManyRequests => 400,
            FaucetError::InvalidPublicKey => 400,
            FaucetError::InvalidSignature => 400,
        }
    }

    /// The HTTP status code this error is reported with.
    pub fn status_code(&self) -> (code: u16)
        ensures
            code == self.spec_status_code(),
    {
        match self {
            FaucetError::InvalidPoW => 400,
            FaucetError::InvalidProof => 403,
            FaucetError::DuplicateChallenge => 409,
            FaucetError::InvalidAddress => 400,
            FaucetError::ChainNotStarted => 400,
            FaucetError::InvalidWithdrawLimit(_) => 400,
            FaucetError::FaucetOutOfBalance => 409,
            FaucetError::SdkError(_) => 400,
            FaucetError::NotPlayer(_) => 400,
            FaucetError::TooManyRequests => 400,
            FaucetError::InvalidPublicKey => 400,
            FaucetError::InvalidSignature => 400,
        }
    }
}

} // verus!

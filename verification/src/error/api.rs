//! The error type handed back across the API boundary.

use vstd::prelude::*;

use crate::error::faucet::FaucetError;

verus! {

/// Wraps every faucet error for the API layer.
#[derive(Debug)]
pub enum ApiError {
    FaucetError(FaucetError),
}

impl ApiError {
    /// Wraps a faucet error.
    pub fn from(error: FaucetError) -> (r: Self)
        ensures
            r == ApiError::FaucetError(error),
    {
        ApiError::FaucetError(error)
    }

    /// The HTTP status code of the wrapped error.
    pub fn status_code(&self) -> (code: u16)
        ensures
            code == (match self {
                ApiError::FaucetError(e) => e.spec_status_code(),
            }),
    {
        match self {
            ApiError::FaucetError(error) => error.status_code(),
        }
    }
}

} // verus!

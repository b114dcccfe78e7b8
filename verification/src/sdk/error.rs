//! The failure kinds the ledger client can report.
//!
//! The ledger client itself — transaction building, signing and
//! broadcasting — lives with the embedding application; it maps its
//! failures into these kinds.

use vstd::prelude::*;

verus! {

/// What went wrong while talking to the ledger.
#[derive(Debug)]
pub enum NamadaError {
    /// The amount could not be denominated.
    DenominationInvalid(String),
    /// The transaction could not be built.
    TxBuildingInvalid(String),
    /// The transaction could not be broadcast.
    TxBroadcastingInvalid(String),
    /// The signing data were invalid.
    SigningDataInvalid(String),
    /// A value could not be converted.
    ConversionInvalid(String),
    /// The secret key could not be found.
    InvalidSecretKey,
}

} // verus!

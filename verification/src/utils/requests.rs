//! Types for the network listing fetched from a companion service.
//!
//! The fetch itself is plain HTTP I/O and belongs to the embedding
//! application; these are the shapes it hands back.

use vstd::prelude::*;

use crate::dto::network::NetworkWithId;

verus! {

/// Why a network listing could not be fetched.
#[derive(Debug)]
pub enum RequestError {
    /// A failure tied to one network id.
    Unknown(String, String),
    /// A failure with no network id attached.
    UnknownWithoutId(String),
}

/// The body of a network listing response.
#[derive(Debug)]
pub struct NetworkListResponse {
    pub networks: Vec<NetworkWithId>,
}

} // verus!

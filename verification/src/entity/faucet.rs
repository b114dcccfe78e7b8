//! The challenge/tag pair handed to a client.

use vstd::prelude::*;

verus! {

/// One challenge exchange: the issued challenge bytes, the keyed tag
/// proving the server issued them, and the solution a client later
/// supplies.
#[derive(Clone)]
pub struct Faucet {
    pub challenge: Vec<u8>,
    pub tag: Vec<u8>,
    pub solution: Option<String>,
}

impl Faucet {
    /// A fresh exchange for a newly issued challenge; no solution yet.
    pub fn request(challenge: Vec<u8>, tag: Vec<u8>) -> (r: Self)
        ensures
            r.challenge@ == challenge@,
            r.tag@ == tag@,
            r.solution is None,
    {
        Self { challenge, tag, solution: None }
    }
}

} // verus!

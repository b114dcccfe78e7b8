//! Node descriptions used by the network listing.

use vstd::prelude::*;

verus! {

/// The role a node plays in its network.
#[derive(Clone, Debug, Default, PartialEq, Eq, Structural)]
pub enum NodeType {
    Validator,
    Seed,
    Full,
    #[default]
    Unknown,
}

/// One reachable node.
#[derive(Clone, Debug)]
pub struct Node {
    pub host: String,
    pub node_type: NodeType,
}

} // verus!

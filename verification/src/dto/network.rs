//! Network descriptions returned by the network listing endpoint.

use vstd::prelude::*;

use crate::dto::node::Node;

verus! {

/// The networks known to the service.
#[derive(Clone, Debug)]
pub struct NetworkListResponse {
    pub networks: Vec<NetworkWithId>,
}

/// A network together with its identifier.
#[derive(Clone, Debug)]
pub struct NetworkWithId {
    pub network: Network,
    pub network_id: String,
}

/// One network: its chain, nodes, kind and lifecycle status.
#[derive(Clone, Debug)]
pub struct Network {
    pub chain_id: ChainId,
    pub nodes: Vec<Node>,
    pub network_type: NetworkType,
    pub status: NetworkStatus,
}

/// A chain identifier, possibly not yet assigned.
#[derive(Clone, Debug, Default)]
pub enum ChainId {
    #[default]
    Uninitialized,
    Id(String),
}

/// Where a network stands in its lifecycle.
#[derive(Clone, Debug, Default, PartialEq, Eq, Structural)]
pub enum NetworkStatus {
    #[default]
    Uninitialized,
    Setup,
    SetupSpawnMachines,
    SetupArtifacts,
    SetupMachines,
    Online,
    ToBeDeleted,
}

/// What audience a network serves.
#[derive(Clone, Debug, Default, PartialEq, Eq, Structural)]
pub enum NetworkType {
    #[default]
    InternalDevnet,
    PublicDevnet,
    Testnet,
}

} // verus!

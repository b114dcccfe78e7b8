pub mod faucet;
pub mod network;
pub mod node;

pub mod api;
pub mod faucet;

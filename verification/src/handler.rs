pub mod faucet;

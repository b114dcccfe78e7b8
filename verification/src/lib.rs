//! Admission control for a fund-disbursing faucet.
//!
//! A client asks for a challenge and receives it with a keyed tag; to
//! redeem it for a transfer the client must echo both, present a
//! proof-of-work solution, and stay inside the withdrawal policy. The
//! crate proves the properties this gate is trusted for: tags verify
//! exactly when they were issued here, proof of work is judged exactly
//! against the difficulty target, a challenge is redeemed at most once,
//! and a rate-limited identity waits out its interval.

pub mod app_state;
pub mod config;
pub mod dto;
pub mod entity;
pub mod error;
pub mod handler;
pub mod response;
pub mod sdk;
pub mod services;
pub mod state;
pub mod utils;

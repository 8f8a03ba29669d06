//! Token and NFT vesting: the rules by which vested tokens are set aside,
//! released over time, claimed and cancelled.

pub mod accounts;
pub mod encoding;
pub mod error;
pub mod instructions;
mod outside;
pub mod pubkey;
pub mod state;

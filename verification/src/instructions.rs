//! The vesting instructions.

pub mod claim_vested_tokens;
pub mod cancel_vestment;
pub mod claim_vested_nft;
pub mod initialize_escrow;
pub mod initialize_vestment;
pub mod vest_nfts;

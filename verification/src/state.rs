//! The data that the vesting accounts hold.

pub mod escrow;
pub mod nft_vesting_data;
pub mod vesting;

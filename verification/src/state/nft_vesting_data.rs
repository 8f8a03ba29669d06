//! An NFT vesting: one creator sets aside NFTs, each for its own consumer.

use vstd::prelude::*;
use crate::pubkey::Pubkey;

verus! {

/// The data of an NFT vesting account.
#[derive(Clone, Copy, Debug)]
pub struct NftVestingData {
    pub nft_vestment_creator: Pubkey,
    pub nft_vested_amount: u32,
    pub vestment_initialized_at: i64,
    pub nft_collection_address: Option<Pubkey>,
}

/// The data of the record kept for one vested NFT.
#[derive(Clone, Copy, Debug)]
pub struct NftVestmentRecord {
    pub nft_mint: Pubkey,
    pub cliff_date: i64,
    pub source_token_account: Pubkey,
    pub dedicated_consumer: Option<Pubkey>,
}

} // verus!

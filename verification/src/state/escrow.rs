//! An escrow offer: tokens of one mint offered for tokens of another.

use vstd::prelude::*;
use crate::pubkey::Pubkey;

verus! {

/// The data of an escrow account.
#[derive(Clone, Copy, Debug)]
pub struct EscrowData {
    pub escrow_initialized_at: i64,
    pub escrow_initializer: Pubkey,
    pub offered_amount: u64,
    pub wanted_amount: u64,
    pub wanted_mint: Pubkey,
    pub offered_mint: Pubkey,
    pub source_token_account: Pubkey,
    pub escrow_token_account: Pubkey,
}

} // verus!

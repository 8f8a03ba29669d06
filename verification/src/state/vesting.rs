//! A token vesting between a vestor and a consumer.

use vstd::prelude::*;
use crate::pubkey::Pubkey;

verus! {

/// The data of a token vesting account.
#[derive(Clone, Debug)]
pub struct VestmentData {
    pub vestor: Pubkey,
    pub consumer: Pubkey,
    pub vestment_start: i64,
    pub vestment_mint: Pubkey,
    /// The length of one release period, in seconds.
    pub release_time: i64,
    /// The tokens still held by the vesting.
    pub amount: u64,
    pub vestment_end: i64,
    /// The tokens released at the end of each release period.
    pub release_amount: u64,
    pub cliff_date: Option<i64>,
    pub cliff_percentage: Option<u8>,
    pub has_cliffed: bool,
    pub cancel_authorities: Vec<Option<Pubkey>>,
    /// When the consumer last claimed; zero before the first claim.
    pub last_vestment: i64,
    /// The tokens released at once by the first claim.
    pub cliff_release_amount: u64,
    /// The tokens sent back to the vestor when the vesting was cancelled.
    pub withdrawn_amount: u64,
    pub vestor_cancel_authority: Option<Pubkey>,
    pub consumer_cancel_authority: Option<Pubkey>,
    pub cliff: i64,
}

impl Default for VestmentData {
    /// The data of a vesting account that was just created: every field zero,
    /// empty or absent.
    fn default() -> (r: VestmentData)
        ensures
            r.vestor@ == Seq::new(32, |i: int| 0u8),
            r.consumer@ == Seq::new(32, |i: int| 0u8),
            r.vestment_mint@ == Seq::new(32, |i: int| 0u8),
            r.vestment_start == 0,
            r.release_time == 0,
            r.amount == 0,
            r.vestment_end == 0,
            r.release_amount == 0,
            r.cliff_date is None,
            r.cliff_percentage is None,
            !r.has_cliffed,
            r.cancel_authorities@.len() == 0,
            r.last_vestment == 0,
            r.cliff_release_amount == 0,
            r.withdrawn_amount == 0,
            r.vestor_cancel_authority is None,
            r.consumer_cancel_authority is None,
            r.cliff == 0,
    {
        VestmentData {
            vestor: Pubkey::default(),
            consumer: Pubkey::default(),
            vestment_start: 0,
            vestment_mint: Pubkey::default(),
            release_time: 0,
            amount: 0,
            vestment_end: 0,
            release_amount: 0,
            cliff_date: None,
            cliff_percentage: None,
            has_cliffed: false,
            cancel_authorities: Vec::new(),
            last_vestment: 0,
            cliff_release_amount: 0,
            withdrawn_amount: 0,
            vestor_cancel_authority: None,
            consumer_cancel_authority: None,
            cliff: 0,
        }
    }
}

} // verus!

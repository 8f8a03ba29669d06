//! A vestor opens a token vesting for a consumer.

use vstd::prelude::*;
use crate::accounts::{CpiAction, SignerSeeds, TokenAccount};
use crate::error::VestmenErrors;
use crate::pubkey::Pubkey;
use crate::state::vesting::VestmentData;

verus! {

/// The accounts of a new vesting, as the instruction reads them.
#[derive(Clone, Debug)]
pub struct InitializeVestment {
    pub vested_mint: Pubkey,
    /// The vestor's token account the vested tokens come from.
    pub source_token_account: TokenAccount,
    /// The signer who sets the tokens aside.
    pub vestor: Pubkey,
    /// The new token account that holds the vested tokens.
    pub vested_tokens: Pubkey,
    /// The new vesting data, as just created.
    pub vestment_data: VestmentData,
    pub consumer: Pubkey,
}

/// The vesting data that a new vesting starts with.
pub open spec fn initialized_state(
    ctx: InitializeVestment,
    amount: u64,
    duration: i64,
    cliff: i64,
    now: i64,
) -> VestmentData {
    VestmentData {
        amount,
        consumer: ctx.consumer,
        vestor: ctx.vestor,
        vestment_mint: ctx.vested_mint,
        vestment_start: now,
        vestment_end: duration,
        cliff,
        ..ctx.vestment_data
    }
}

impl InitializeVestment {
    /// The account constraint of a new vesting: the vestor's token account
    /// holds the vested mint.
    pub fn check_constraints(&self) -> (r: Result<(), VestmenErrors>)
        ensures
            r == (if self.source_token_account.mint@ == self.vested_mint@ {
                Ok::<(), VestmenErrors>(())
            } else {
                Err(VestmenErrors::WrongTokenAccMint)
            }),
    {
        if self.source_token_account.mint == self.vested_mint {
            Ok(())
        } else {
            Err(VestmenErrors::WrongTokenAccMint)
        }
    }
}

/// Opens a vesting of `amount` tokens at `now`, ending at `duration`. Returns
/// the transfer of the tokens into the vesting; the vesting stands even where
/// that transfer fails.
pub fn initialize_vestmet(
    ctx: &mut InitializeVestment,
    amount: u64,
    duration: i64,
    cliff: i64,
    now: i64,
) -> (r: CpiAction)
    ensures
        *final(ctx) == (InitializeVestment {
            vestment_data: initialized_state(*old(ctx), amount, duration, cliff, now),
            ..*old(ctx)
        }),
        r == (CpiAction::TokenTransfer {
            from: old(ctx).source_token_account.key,
            to: old(ctx).vested_tokens,
            authority: old(ctx).vestor,
            amount,
            signer: SignerSeeds::Unsigned,
        }),
        final(ctx).vestment_data.amount == amount,
        final(ctx).vestment_data.consumer == old(ctx).consumer,
        final(ctx).vestment_data.vestor == old(ctx).vestor,
        final(ctx).vestment_data.vestment_mint == old(ctx).vested_mint,
        final(ctx).vestment_data.vestment_start == now,
        final(ctx).vestment_data.vestment_end == duration,
        final(ctx).vestment_data.cliff == cliff,
{
    ctx.vestment_data.amount = amount;
    ctx.vestment_data.consumer = ctx.consumer;
    ctx.vestment_data.vestor = ctx.vestor;
    ctx.vestment_data.vestment_mint = ctx.vested_mint;
    ctx.vestment_data.vestment_start = now;
    ctx.vestment_data.vestment_end = duration;
    ctx.vestment_data.cliff = cliff;
    CpiAction::TokenTransfer {
        from: ctx.source_token_account.key,
        to: ctx.vested_tokens,
        authority: ctx.vestor,
        amount,
        signer: SignerSeeds::Unsigned,
    }
}

/// A new vesting holds the amount the vestor set aside, for the consumer, of
/// the vested mint, from now until `duration`, with the given cliff; and its
/// transfer moves exactly that amount from the vestor's token account into
/// the vesting's token account on the vestor's signature.
pub proof fn lemma_new_vesting_terms(ctx: InitializeVestment, amount: u64, duration: i64, cliff: i64, now: i64)
    ensures
        ({
            let vd = initialized_state(ctx, amount, duration, cliff, now);
            &&& vd.amount == amount
            &&& vd.consumer == ctx.consumer
            &&& vd.vestor == ctx.vestor
            &&& vd.vestment_mint == ctx.vested_mint
            &&& vd.vestment_start == now
            &&& vd.vestment_end == duration
            &&& vd.cliff == cliff
        }),
{
}

} // verus!

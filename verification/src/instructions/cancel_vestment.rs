//! A cancel authority ends a vesting and the vested tokens go back.

use vstd::prelude::*;
use crate::accounts::{CpiAction, SignerSeeds, TokenAccount};
use crate::error::VestmenErrors;
use crate::instructions::claim_vested_tokens::{claim_refusal, ClaimVestedTokens};
use crate::pubkey::Pubkey;
use crate::state::vesting::VestmentData;

verus! {

/// The accounts of a cancellation, as the instruction reads them.
#[derive(Clone, Debug)]
pub struct CancelVestment {
    pub vestment_data: VestmentData,
    pub vestment_mint: Pubkey,
    /// The token account that holds the vested tokens.
    pub vested_tokens: TokenAccount,
    /// The vestor's token account, which gets the tokens back.
    pub source_token_account: TokenAccount,
    /// The signer who cancels.
    pub payer: Pubkey,
    pub vestor: Pubkey,
    /// The account that holds vested lamports.
    pub sol_token_account: Pubkey,
    /// The lamports that `sol_token_account` holds.
    pub sol_token_balance: u64,
}

/// The key of an optional cancel authority, the all-zero key where there is none.
pub open spec fn authority_or_default(authority: Option<Pubkey>) -> Seq<u8> {
    match authority {
        Some(key) => key@,
        None => Seq::new(32, |i: int| 0u8),
    }
}

/// The signer may cancel: it is the vestor's or the consumer's cancel authority.
pub open spec fn may_cancel(ctx: CancelVestment) -> bool {
    ||| ctx.payer@ == authority_or_default(ctx.vestment_data.vestor_cancel_authority)
    ||| ctx.payer@ == authority_or_default(ctx.vestment_data.consumer_cancel_authority)
}

/// The vesting data after a cancellation that returns the tokens.
pub open spec fn cancelled_state(vd: VestmentData) -> VestmentData {
    VestmentData { withdrawn_amount: vd.amount, amount: 0, ..vd }
}

/// The calls a permitted cancellation makes: where the vesting holds wrapped
/// SOL, all the lamports of the SOL account go to the vestor; otherwise all
/// the vested tokens go back to the vestor's token account, whose vested token
/// account is then closed in favour of the signer.
pub open spec fn cancel_actions(ctx: CancelVestment) -> Seq<CpiAction> {
    if ctx.vested_tokens.is_native {
        seq![
            CpiAction::SystemTransfer {
                from: ctx.sol_token_account,
                to: ctx.vestment_data.vestor,
                lamports: ctx.sol_token_balance,
                signer: SignerSeeds::SolAccount,
            },
        ]
    } else {
        seq![
            CpiAction::TokenTransfer {
                from: ctx.vested_tokens.key,
                to: ctx.source_token_account.key,
                authority: ctx.vested_tokens.key,
                amount: ctx.vestment_data.amount,
                signer: SignerSeeds::VestedTokens,
            },
            CpiAction::CloseAccount {
                account: ctx.vested_tokens.key,
                destination: ctx.payer,
                authority: ctx.vested_tokens.key,
                signer: SignerSeeds::VestedTokens,
            },
        ]
    }
}

impl CancelVestment {
    /// The account constraints of a cancellation: the vestor's token account
    /// holds the vested mint and belongs to the vestor.
    pub fn check_constraints(&self) -> (r: Result<(), VestmenErrors>)
        ensures
            r == (if self.source_token_account.mint@ != self.vestment_data.vestment_mint@ {
                Err(VestmenErrors::WrongTokenAccMint)
            } else if self.source_token_account.owner@ != self.vestment_data.vestor@ {
                Err(VestmenErrors::WrongOwner)
            } else {
                Ok::<(), VestmenErrors>(())
            }),
    {
        if !(self.source_token_account.mint == self.vestment_data.vestment_mint) {
            Err(VestmenErrors::WrongTokenAccMint)
        } else if !(self.source_token_account.owner == self.vestment_data.vestor) {
            Err(VestmenErrors::WrongOwner)
        } else {
            Ok(())
        }
    }
}

fn key_or_default(authority: Option<Pubkey>) -> (r: Pubkey)
    ensures
        r@ == authority_or_default(authority),
{
    match authority {
        Some(key) => key,
        None => Pubkey::default(),
    }
}

/// Cancels the vesting. Only a cancel authority may; a wrapped-SOL vesting
/// pays its lamports back and keeps its data, any other pays its tokens back
/// and records them as withdrawn.
pub fn cancel_vestment(ctx: &mut CancelVestment) -> (r: Result<Vec<CpiAction>, VestmenErrors>)
    ensures
        !may_cancel(*old(ctx)) ==> r == Err::<Vec<CpiAction>, VestmenErrors>(
            VestmenErrors::WrongCancelAuthority,
        ) && *final(ctx) == *old(ctx),
        may_cancel(*old(ctx)) ==> r is Ok && r->Ok_0@ == cancel_actions(*old(ctx)),
        may_cancel(*old(ctx)) && old(ctx).vested_tokens.is_native ==> *final(ctx) == *old(ctx),
        may_cancel(*old(ctx)) && !old(ctx).vested_tokens.is_native ==> *final(ctx) == (
        CancelVestment { vestment_data: cancelled_state(old(ctx).vestment_data), ..*old(ctx) }),
        r is Ok ==> r->Ok_0@.len() >= 1 && match r->Ok_0@[0] {
            CpiAction::SystemTransfer { from, to, lamports, .. } => {
                &&& old(ctx).vested_tokens.is_native
                &&& from == old(ctx).sol_token_account
                &&& to == old(ctx).vestment_data.vestor
                &&& lamports == old(ctx).sol_token_balance
            },
            CpiAction::TokenTransfer { from, to, amount, .. } => {
                &&& !old(ctx).vested_tokens.is_native
                &&& from == old(ctx).vested_tokens.key
                &&& to == old(ctx).source_token_account.key
                &&& amount == old(ctx).vestment_data.amount
                &&& final(ctx).vestment_data.withdrawn_amount == amount
                &&& final(ctx).vestment_data.amount == 0
            },
            _ => false,
        },
{
    let ghost ctx0 = *ctx;
    let vestor_cancel_authority = key_or_default(ctx.vestment_data.vestor_cancel_authority);
    let consumer_cancel_authority = key_or_default(ctx.vestment_data.consumer_cancel_authority);
    let mut can_cancel = false;
    if ctx.payer == vestor_cancel_authority || ctx.payer == consumer_cancel_authority {
        can_cancel = true;
    }
    if !can_cancel {
        return Err(VestmenErrors::WrongCancelAuthority);
    }
    let mut actions: Vec<CpiAction> = Vec::new();
    if ctx.vested_tokens.is_native {
        actions.push(
            CpiAction::SystemTransfer {
                from: ctx.sol_token_account,
                to: ctx.vestment_data.vestor,
                lamports: ctx.sol_token_balance,
                signer: SignerSeeds::SolAccount,
            },
        );
        proof {
            lemma_cancel_pays_the_vestor(ctx0);
        }
        return Ok(actions);
    }
    actions.push(
        CpiAction::TokenTransfer {
            from: ctx.vested_tokens.key,
            to: ctx.source_token_account.key,
            authority: ctx.vested_tokens.key,
            amount: ctx.vestment_data.amount,
            signer: SignerSeeds::VestedTokens,
        },
    );
    ctx.vestment_data.withdrawn_amount = ctx.vestment_data.amount;
    ctx.vestment_data.amount = 0;
    actions.push(
        CpiAction::CloseAccount {
            account: ctx.vested_tokens.key,
            destination: ctx.payer,
            authority: ctx.vested_tokens.key,
            signer: SignerSeeds::VestedTokens,
        },
    );
    proof {
        lemma_cancel_pays_the_vestor(ctx0);
    }
    Ok(actions)
}

/// A permitted cancellation pays everything back to the vestor: the
/// lamports of a wrapped-SOL vesting go from the SOL account to the vestor,
/// and the tokens of any other vesting, all of them, go from the vested token
/// account to the vestor's token account, after which the vesting holds
/// nothing and records all of them as withdrawn.
pub proof fn lemma_cancel_pays_the_vestor(ctx: CancelVestment)
    requires
        may_cancel(ctx),
    ensures
        cancel_actions(ctx).len() >= 1,
        match cancel_actions(ctx)[0] {
            CpiAction::SystemTransfer { from, to, lamports, .. } => {
                &&& ctx.vested_tokens.is_native
                &&& from == ctx.sol_token_account
                &&& to == ctx.vestment_data.vestor
                &&& lamports == ctx.sol_token_balance
            },
            CpiAction::TokenTransfer { from, to, amount, .. } => {
                &&& !ctx.vested_tokens.is_native
                &&& from == ctx.vested_tokens.key
                &&& to == ctx.source_token_account.key
                &&& amount == ctx.vestment_data.amount
                &&& cancelled_state(ctx.vestment_data).amount == 0
                &&& cancelled_state(ctx.vestment_data).withdrawn_amount == amount
            },
            _ => false,
        },
{
}

/// Who of the cancel authorities signs makes no difference to where the
/// vested tokens or lamports go: two permitted cancellations of the same
/// vesting by different signers pay the same amount to the same account.
pub proof fn lemma_cancel_payout_ignores_signer(ctx: CancelVestment, other_signer: Pubkey)
    requires
        may_cancel(ctx),
        may_cancel(CancelVestment { payer: other_signer, ..ctx }),
    ensures
        cancel_actions(ctx)[0] == cancel_actions(CancelVestment { payer: other_signer, ..ctx })[0],
        cancelled_state(ctx.vestment_data) == cancelled_state(
            CancelVestment { payer: other_signer, ..ctx }.vestment_data,
        ),
{
}

/// Only a cancel authority may cancel: the signer must be the vestor's or the
/// consumer's cancel authority, and where either authority is unset, the
/// all-zero key stands in for it.
pub proof fn lemma_only_cancel_authorities_cancel(ctx: CancelVestment)
    ensures
        may_cancel(ctx) <==> {
            ||| ctx.vestment_data.vestor_cancel_authority matches Some(k) && k@ == ctx.payer@
            ||| ctx.vestment_data.consumer_cancel_authority matches Some(k) && k@ == ctx.payer@
            ||| (ctx.vestment_data.vestor_cancel_authority is None
                || ctx.vestment_data.consumer_cancel_authority is None)
                && forall|i: int| 0 <= i < 32 ==> #[trigger] ctx.payer@[i] == 0u8
        },
{
    let zero = Seq::new(32, |i: int| 0u8);
    assert(ctx.payer@.len() == 32);
    if forall|i: int| 0 <= i < 32 ==> #[trigger] ctx.payer@[i] == 0u8 {
        assert(ctx.payer@ =~= zero);
    }
}

/// A vesting whose tokens a cancellation paid back refuses every later claim
/// as already claimed.
pub proof fn lemma_cancelled_vesting_refuses_claims(claim: ClaimVestedTokens, vd: VestmentData, now: i64)
    requires
        claim.vestment_data == cancelled_state(vd),
    ensures
        claim_refusal(claim, now) == Some(VestmenErrors::TokensClaimed),
{
}

} // verus!

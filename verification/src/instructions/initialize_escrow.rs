//! An initializer offers tokens of one mint for tokens of another, held in escrow.

use vstd::prelude::*;
use crate::accounts::{CpiAction, SignerSeeds, TokenAccount};
use crate::error::VestmenErrors;
use crate::pubkey::Pubkey;
use crate::state::escrow::EscrowData;

verus! {

/// The accounts of a new escrow offer, as the instruction reads them.
#[derive(Clone, Copy, Debug)]
pub struct InitializeEscrow {
    /// The new escrow data, as just created.
    pub escrow_data: EscrowData,
    pub offered_mint: Pubkey,
    /// The signer who makes the offer.
    pub escrow_initializer: Pubkey,
    pub wanted_mint: Pubkey,
    /// The initializer's token account the offered tokens come from.
    pub source_token_account: TokenAccount,
    /// The new token account that holds the offered tokens.
    pub escrow_token_account: Pubkey,
}

/// The escrow data of a new offer.
pub open spec fn escrow_state(
    ctx: InitializeEscrow,
    offered_amount: u64,
    wanted_amount: u64,
    now: i64,
) -> EscrowData {
    EscrowData {
        escrow_initialized_at: now,
        escrow_initializer: ctx.escrow_initializer,
        offered_amount,
        wanted_amount,
        wanted_mint: ctx.wanted_mint,
        offered_mint: ctx.offered_mint,
        source_token_account: ctx.source_token_account.key,
        escrow_token_account: ctx.escrow_token_account,
    }
}

/// The calls that move the offered tokens into escrow: for wrapped SOL, the
/// lamports go straight from the initializer and the escrow account is
/// synced; otherwise the tokens move from the source account.
pub open spec fn escrow_actions(ctx: InitializeEscrow, offered_amount: u64) -> Seq<CpiAction> {
    if ctx.source_token_account.is_native {
        seq![
            CpiAction::SystemTransfer {
                from: ctx.escrow_initializer,
                to: ctx.escrow_token_account,
                lamports: offered_amount,
                signer: SignerSeeds::Unsigned,
            },
            CpiAction::SyncNative { account: ctx.escrow_token_account },
        ]
    } else {
        seq![
            CpiAction::TokenTransfer {
                from: ctx.source_token_account.key,
                to: ctx.escrow_token_account,
                authority: ctx.escrow_initializer,
                amount: offered_amount,
                signer: SignerSeeds::Unsigned,
            },
        ]
    }
}

impl InitializeEscrow {
    /// The account constraint of an offer: the source holds the offered mint.
    pub fn check_constraints(&self) -> (r: Result<(), VestmenErrors>)
        ensures
            r == (if self.source_token_account.mint@ == self.offered_mint@ {
                Ok::<(), VestmenErrors>(())
            } else {
                Err(VestmenErrors::WrongTokenAccMint)
            }),
    {
        if self.source_token_account.mint == self.offered_mint {
            Ok(())
        } else {
            Err(VestmenErrors::WrongTokenAccMint)
        }
    }
}

/// Opens an escrow offer at `now` of `offered_amount` tokens for
/// `wanted_amount` tokens of the wanted mint.
pub fn initialize_escrow(
    ctx: &mut InitializeEscrow,
    offered_amount: u64,
    wanted_amount: u64,
    now: i64,
) -> (r: Vec<CpiAction>)
    ensures
        *final(ctx) == (InitializeEscrow {
            escrow_data: escrow_state(*old(ctx), offered_amount, wanted_amount, now),
            ..*old(ctx)
        }),
        r@ == escrow_actions(*old(ctx), offered_amount),
        final(ctx).escrow_data.escrow_initialized_at == now,
        final(ctx).escrow_data.escrow_initializer == old(ctx).escrow_initializer,
        final(ctx).escrow_data.offered_amount == offered_amount,
        final(ctx).escrow_data.wanted_amount == wanted_amount,
        final(ctx).escrow_data.wanted_mint == old(ctx).wanted_mint,
        final(ctx).escrow_data.offered_mint == old(ctx).offered_mint,
        final(ctx).escrow_data.source_token_account == old(ctx).source_token_account.key,
        final(ctx).escrow_data.escrow_token_account == old(ctx).escrow_token_account,
{
    ctx.escrow_data.escrow_initialized_at = now;
    ctx.escrow_data.escrow_initializer = ctx.escrow_initializer;
    ctx.escrow_data.offered_amount = offered_amount;
    ctx.escrow_data.wanted_amount = wanted_amount;
    ctx.escrow_data.wanted_mint = ctx.wanted_mint;
    ctx.escrow_data.offered_mint = ctx.offered_mint;
    ctx.escrow_data.source_token_account = ctx.source_token_account.key;
    ctx.escrow_data.escrow_token_account = ctx.escrow_token_account;
    let mut actions: Vec<CpiAction> = Vec::new();
    if ctx.source_token_account.is_native {
        actions.push(
            CpiAction::SystemTransfer {
                from: ctx.escrow_initializer,
                to: ctx.escrow_token_account,
                lamports: offered_amount,
                signer: SignerSeeds::Unsigned,
            },
        );
        actions.push(CpiAction::SyncNative { account: ctx.escrow_token_account });
    } else {
        actions.push(
            CpiAction::TokenTransfer {
                from: ctx.source_token_account.key,
                to: ctx.escrow_token_account,
                authority: ctx.escrow_initializer,
                amount: offered_amount,
                signer: SignerSeeds::Unsigned,
            },
        );
    }
    actions
}

/// An offer records its terms: the time, the initializer, the offered and
/// wanted amounts, both mints and both token accounts, whatever the escrow
/// data held before and whether or not the offered tokens are wrapped SOL.
pub proof fn lemma_escrow_records_the_offer(
    ctx: InitializeEscrow,
    offered_amount: u64,
    wanted_amount: u64,
    now: i64,
)
    ensures
        ({
            let e = escrow_state(ctx, offered_amount, wanted_amount, now);
            &&& e.escrow_initialized_at == now
            &&& e.escrow_initializer == ctx.escrow_initializer
            &&& e.offered_amount == offered_amount
            &&& e.wanted_amount == wanted_amount
            &&& e.wanted_mint == ctx.wanted_mint
            &&& e.offered_mint == ctx.offered_mint
            &&& e.source_token_account == ctx.source_token_account.key
            &&& e.escrow_token_account == ctx.escrow_token_account
        }),
{
}

/// Whether the offered tokens are wrapped SOL changes only how they move into
/// escrow, never what the escrow records.
pub proof fn lemma_escrow_record_ignores_wrapping(
    ctx: InitializeEscrow,
    offered_amount: u64,
    wanted_amount: u64,
    now: i64,
    is_native: bool,
)
    ensures
        escrow_state(ctx, offered_amount, wanted_amount, now) == escrow_state(
            InitializeEscrow {
                source_token_account: TokenAccount { is_native, ..ctx.source_token_account },
                ..ctx
            },
            offered_amount,
            wanted_amount,
            now,
        ),
{
}

/// The offered tokens move into the escrow account, and nowhere else, in the
/// offered amount: as lamports from the initializer where they are wrapped
/// SOL, followed by a sync of the escrow account, and as tokens from the
/// source account otherwise.
pub proof fn lemma_escrow_moves_the_offer(ctx: InitializeEscrow, offered_amount: u64)
    ensures
        ({
            let a = escrow_actions(ctx, offered_amount);
            &&& a.len() == if ctx.source_token_account.is_native { 2int } else { 1int }
            &&& match a[0] {
                CpiAction::SystemTransfer { from, to, lamports, .. } => {
                    &&& ctx.source_token_account.is_native
                    &&& from == ctx.escrow_initializer
                    &&& to == ctx.escrow_token_account
                    &&& lamports == offered_amount
                },
                CpiAction::TokenTransfer { from, to, amount, .. } => {
                    &&& !ctx.source_token_account.is_native
                    &&& from == ctx.source_token_account.key
                    &&& to == ctx.escrow_token_account
                    &&& amount == offered_amount
                },
                _ => false,
            }
        }),
{
}

} // verus!

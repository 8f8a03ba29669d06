//! The dedicated consumer of a vested NFT claims it once its cliff has passed.

use vstd::prelude::*;
use crate::accounts::{CpiAction, SignerSeeds, TokenAccount};
use crate::error::VestmenErrors;
use crate::pubkey::Pubkey;
use crate::state::nft_vesting_data::{NftVestingData, NftVestmentRecord};

verus! {

/// The accounts of an NFT claim, as the instruction reads them.
#[derive(Clone, Copy, Debug)]
pub struct ClaimNft {
    pub nft_vesting_data: NftVestingData,
    /// The owner of the vested NFTs, a program-derived address.
    pub vested_nfts_owner: Pubkey,
    pub nft_vestment_record: NftVestmentRecord,
    pub nft_mint: Pubkey,
    pub nft_vestor: Pubkey,
    /// The token account that holds the vested NFT.
    pub vested_token_account: Pubkey,
    /// The signer who claims.
    pub nft_consumer: Pubkey,
    pub destination_token_account: TokenAccount,
}

/// The error an NFT claim at `now` is refused with, if any: the signer must be
/// the record's dedicated consumer, and the record's cliff date must have come.
pub open spec fn nft_claim_refusal(ctx: ClaimNft, now: i64) -> Option<VestmenErrors> {
    if !(ctx.nft_vestment_record.dedicated_consumer matches Some(k) && k@ == ctx.nft_consumer@) {
        Some(VestmenErrors::WrongClaimAuthority)
    } else if now < ctx.nft_vestment_record.cliff_date {
        Some(VestmenErrors::VestmentNotStarted)
    } else {
        None
    }
}

/// The call a permitted NFT claim makes: one token from the vested token
/// account to the destination, signed by the owner of the vested NFTs.
pub open spec fn nft_claim_action(ctx: ClaimNft) -> CpiAction {
    CpiAction::TokenTransfer {
        from: ctx.vested_token_account,
        to: ctx.destination_token_account.key,
        authority: ctx.vested_nfts_owner,
        amount: 1,
        signer: SignerSeeds::VestedNftsOwner,
    }
}

impl ClaimNft {
    /// The account constraint of an NFT claim: the destination holds tokens
    /// of the NFT's mint.
    pub fn check_constraints(&self) -> (r: Result<(), VestmenErrors>)
        ensures
            r == (if self.destination_token_account.mint@ == self.nft_mint@ {
                Ok::<(), VestmenErrors>(())
            } else {
                Err(VestmenErrors::WrongTokenAccMint)
            }),
    {
        if self.destination_token_account.mint == self.nft_mint {
            Ok(())
        } else {
            Err(VestmenErrors::WrongTokenAccMint)
        }
    }
}

/// Whether the signer may claim the NFT at `now`: the error it is refused
/// with, if any.
pub fn nft_claim_check(ctx: &ClaimNft, now: i64) -> (r: Result<(), VestmenErrors>)
    ensures
        r == match nft_claim_refusal(*ctx, now) {
            Some(e) => Err(e),
            None => Ok::<(), VestmenErrors>(()),
        },
{
    let authorized = match ctx.nft_vestment_record.dedicated_consumer {
        Some(k) => k == ctx.nft_consumer,
        None => false,
    };
    if !authorized {
        return Err(VestmenErrors::WrongClaimAuthority);
    }
    if !(now >= ctx.nft_vestment_record.cliff_date) {
        return Err(VestmenErrors::VestmentNotStarted);
    }
    Ok(())
}

/// Claims a vested NFT at `now`. The vesting's NFT count must not be zero,
/// and is left as it is.
pub fn claim_vested_nft(ctx: &ClaimNft, now: i64) -> (r: Result<Vec<CpiAction>, VestmenErrors>)
    requires
        nft_claim_refusal(*ctx, now) is None ==> ctx.nft_vesting_data.nft_vested_amount >= 1,
    ensures
        match nft_claim_refusal(*ctx, now) {
            Some(e) => r == Err::<Vec<CpiAction>, VestmenErrors>(e),
            None => r is Ok && r->Ok_0@ == seq![nft_claim_action(*ctx)],
        },
        r is Ok <==> (ctx.nft_vestment_record.dedicated_consumer matches Some(k) && k@
            == ctx.nft_consumer@ && now >= ctx.nft_vestment_record.cliff_date),
        r is Ok ==> r->Ok_0@ == seq![
            CpiAction::TokenTransfer {
                from: ctx.vested_token_account,
                to: ctx.destination_token_account.key,
                authority: ctx.vested_nfts_owner,
                amount: 1,
                signer: SignerSeeds::VestedNftsOwner,
            },
        ],
{
    if let Err(e) = nft_claim_check(ctx, now) {
        return Err(e);
    }
    let _remaining: u32 = ctx.nft_vesting_data.nft_vested_amount.checked_sub(1).unwrap();
    let mut actions: Vec<CpiAction> = Vec::new();
    actions.push(
        CpiAction::TokenTransfer {
            from: ctx.vested_token_account,
            to: ctx.destination_token_account.key,
            authority: ctx.vested_nfts_owner,
            amount: 1,
            signer: SignerSeeds::VestedNftsOwner,
        },
    );
    Ok(actions)
}

/// An NFT goes only to its dedicated consumer, and only once its cliff date
/// has come: the claim is refused exactly when the signer is not the record's
/// dedicated consumer (or the record has none), or the cliff date is still to
/// come; a permitted claim moves exactly one token, the NFT, to the
/// destination.
pub proof fn lemma_nft_goes_to_its_consumer_after_cliff(ctx: ClaimNft, now: i64)
    ensures
        nft_claim_refusal(ctx, now) is None <==> (ctx.nft_vestment_record.dedicated_consumer matches Some(
            k,
        ) && k@ == ctx.nft_consumer@ && now >= ctx.nft_vestment_record.cliff_date),
        nft_claim_action(ctx) matches CpiAction::TokenTransfer { to, amount, from, .. } && amount == 1
            && to == ctx.destination_token_account.key && from == ctx.vested_token_account,
{
}

} // verus!

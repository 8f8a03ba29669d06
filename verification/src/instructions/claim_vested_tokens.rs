//! The consumer claims the tokens that have vested so far.

use vstd::prelude::*;
use crate::accounts::{CpiAction, SignerSeeds, TokenAccount};
use crate::error::VestmenErrors;
use crate::outside::lamports_per_sol;
use crate::pubkey::Pubkey;
use crate::state::vesting::VestmentData;

verus! {

/// The accounts of a claim, as the instruction reads them.
#[derive(Clone, Debug)]
pub struct ClaimVestedTokens {
    pub vestment_data: VestmentData,
    pub vestor: Pubkey,
    /// The signer who claims.
    pub consumer: Pubkey,
    pub vestment_mint: Pubkey,
    /// The token account that holds the vested tokens.
    pub vested_tokens: TokenAccount,
    pub destination_token_account: TokenAccount,
    /// The account that holds vested lamports.
    pub sol_token_account: Pubkey,
    /// The lamports that `sol_token_account` holds.
    pub sol_token_balance: u64,
}

/// What a successful claim releases.
#[derive(Clone, Debug)]
pub struct Claim {
    /// The tokens released to the consumer by this claim.
    pub vested_amount: u64,
    /// The calls that move them, in order.
    pub actions: Vec<CpiAction>,
}

/// The moment a claim counts up to: the current time, but no later than the
/// end of the vesting.
pub open spec fn claim_time(vd: VestmentData, now: i64) -> i64 {
    if now > vd.vestment_end {
        vd.vestment_end
    } else {
        now
    }
}

/// The moment from which a claim counts: the previous claim, or before any
/// claim the cliff date, or without a cliff the start of the vesting.
pub open spec fn withdraw_start(vd: VestmentData) -> i64 {
    if vd.last_vestment > 0 {
        vd.last_vestment
    } else {
        match vd.cliff_date {
            Some(cliff_date) => cliff_date,
            None => vd.vestment_start,
        }
    }
}

/// The tokens a claim releases at once, before counting periods.
pub open spec fn cliff_release(vd: VestmentData) -> u64 {
    if vd.has_cliffed {
        0
    } else {
        vd.cliff_release_amount
    }
}

/// Integer division of a non-negative `x` by `d`, rounded toward zero.
pub open spec fn div_toward_zero(x: int, d: int) -> int {
    if d > 0 {
        x / d
    } else {
        -(x / (-d))
    }
}

/// The tokens that the periods elapsed since `withdraw_start` release: whole
/// release periods times the release amount.
pub open spec fn scheduled_release(vd: VestmentData, now: i64) -> int {
    div_toward_zero(claim_time(vd, now) - withdraw_start(vd), vd.release_time as int)
        * vd.release_amount
}

/// The tokens that remain after the cliff release.
pub open spec fn left_after_cliff(vd: VestmentData) -> int {
    vd.amount - cliff_release(vd)
}

/// The tokens that the elapsed periods release, capped by what remains.
pub open spec fn released_on_schedule(vd: VestmentData, now: i64) -> int {
    if scheduled_release(vd, now) > left_after_cliff(vd) {
        left_after_cliff(vd)
    } else {
        scheduled_release(vd, now)
    }
}

/// The tokens that a claim at `now` releases.
pub open spec fn vested_amount(vd: VestmentData, now: i64) -> int {
    cliff_release(vd) + released_on_schedule(vd, now)
}

/// The tokens that the vesting still holds after a claim at `now`.
pub open spec fn remaining_amount(vd: VestmentData, now: i64) -> int {
    left_after_cliff(vd) - released_on_schedule(vd, now)
}

/// The error a claim at `now` is refused with, if any.
pub open spec fn claim_refusal(ctx: ClaimVestedTokens, now: i64) -> Option<VestmenErrors> {
    let vd = ctx.vestment_data;
    if vd.amount == 0 {
        Some(VestmenErrors::TokensClaimed)
    } else if claim_time(vd, now) < withdraw_start(vd) {
        Some(VestmenErrors::VestmentNotStarted)
    } else if ctx.consumer@ != vd.consumer@ {
        Some(VestmenErrors::WrongClaimAuthority)
    } else {
        None
    }
}

/// The claim's arithmetic stays within the machine integers it is done in:
/// the cliff release fits in the amount, the elapsed time, the release amount,
/// the scheduled release and the amount left fit in an `i64`, the release
/// period is not zero, a scheduled release at or under what is left is not
/// negative, and lamports paid out for the vested tokens fit in a `u64`.
pub open spec fn claim_within_limits(ctx: ClaimVestedTokens, now: i64) -> bool {
    let vd = ctx.vestment_data;
    &&& cliff_release(vd) <= vd.amount
    &&& claim_time(vd, now) - withdraw_start(vd) <= i64::MAX
    &&& vd.release_time != 0
    &&& vd.release_amount <= i64::MAX
    &&& i64::MIN <= scheduled_release(vd, now) <= i64::MAX
    &&& left_after_cliff(vd) <= i64::MAX
    &&& (scheduled_release(vd, now) <= left_after_cliff(vd) ==> scheduled_release(vd, now) >= 0)
    &&& (ctx.destination_token_account.is_native && remaining_amount(vd, now) > 0
        ==> vested_amount(vd, now) * 1_000_000_000 <= u64::MAX)
}

/// The vesting data after a claim at `now`.
pub open spec fn claimed_state(vd: VestmentData, now: i64) -> VestmentData {
    VestmentData {
        last_vestment: claim_time(vd, now),
        cliff_release_amount: if vd.has_cliffed {
            vd.cliff_release_amount
        } else {
            0
        },
        amount: remaining_amount(vd, now) as u64,
        ..vd
    }
}

/// The calls a claim at `now` makes: the vested tokens go to the consumer, as
/// lamports where the destination holds wrapped SOL and tokens remain, as the
/// whole lamport balance where the vesting holds wrapped SOL and is emptied,
/// and as tokens otherwise; an emptied vesting closes its token account.
pub open spec fn claim_actions(ctx: ClaimVestedTokens, now: i64) -> Seq<CpiAction> {
    let vd = ctx.vestment_data;
    let vested = vested_amount(vd, now);
    let remaining = remaining_amount(vd, now);
    let payout = if ctx.destination_token_account.is_native && remaining > 0 {
        CpiAction::SystemTransfer {
            from: ctx.sol_token_account,
            to: ctx.consumer,
            lamports: (vested * 1_000_000_000) as u64,
            signer: SignerSeeds::SolAccount,
        }
    } else if ctx.vested_tokens.is_native && remaining == 0 {
        CpiAction::SystemTransfer {
            from: ctx.sol_token_account,
            to: ctx.consumer,
            lamports: ctx.sol_token_balance,
            signer: SignerSeeds::SolAccount,
        }
    } else {
        CpiAction::TokenTransfer {
            from: ctx.vested_tokens.key,
            to: ctx.destination_token_account.key,
            authority: ctx.vested_tokens.key,
            amount: vested as u64,
            signer: SignerSeeds::VestedTokens,
        }
    };
    if remaining == 0 {
        seq![
            payout,
            CpiAction::CloseAccount {
                account: ctx.vested_tokens.key,
                destination: ctx.consumer,
                authority: ctx.vested_tokens.key,
                signer: SignerSeeds::VestedTokens,
            },
        ]
    } else {
        seq![payout]
    }
}

impl ClaimVestedTokens {
    /// The account constraint of a claim: the destination holds tokens of the
    /// vested mint.
    pub fn check_constraints(&self) -> (r: Result<(), VestmenErrors>)
        ensures
            r == (if self.destination_token_account.mint@ == self.vestment_mint@ {
                Ok::<(), VestmenErrors>(())
            } else {
                Err(VestmenErrors::WrongDestinationMint)
            }),
    {
        if self.destination_token_account.mint == self.vestment_mint {
            Ok(())
        } else {
            Err(VestmenErrors::WrongDestinationMint)
        }
    }
}

proof fn lemma_div_toward_zero_bounds(x: int, d: int)
    requires
        0 <= x,
        d != 0,
    ensures
        -x <= div_toward_zero(x, d) <= x,
        d > 0 ==> div_toward_zero(x, d) >= 0,
{
    if d > 0 {
        assert(0 <= x / d <= x) by (nonlinear_arith)
            requires
                0 <= x,
                d > 0,
        ;
    } else {
        assert(0 <= x / (-d) <= x) by (nonlinear_arith)
            requires
                0 <= x,
                -d > 0,
        ;
    }
}

/// Whether a claim at `now` is refused, or else keeps within the machine
/// integers its arithmetic is done in; `claim_vested_tokens` may be called
/// exactly where this holds.
pub fn claim_is_within_limits(ctx: &ClaimVestedTokens, now: i64) -> (r: bool)
    ensures
        r == (claim_refusal(*ctx, now) is None ==> claim_within_limits(*ctx, now)),
{
    let ghost vd0 = ctx.vestment_data;
    let end = ctx.vestment_data.vestment_end;
    let time: i64 = if now > end { end } else { now };
    let start: i64 = if ctx.vestment_data.last_vestment > 0 {
        ctx.vestment_data.last_vestment
    } else {
        match ctx.vestment_data.cliff_date {
            Some(cliff_date) => cliff_date,
            None => ctx.vestment_data.vestment_start,
        }
    };
    if ctx.vestment_data.amount == 0 || time < start || !(ctx.consumer == ctx.vestment_data.consumer) {
        return true;
    }
    let cliff: u64 = if ctx.vestment_data.has_cliffed {
        0
    } else {
        ctx.vestment_data.cliff_release_amount
    };
    if cliff > ctx.vestment_data.amount {
        return false;
    }
    let elapsed: i128 = time as i128 - start as i128;
    if elapsed > 0x7fff_ffff_ffff_ffffi128 {
        return false;
    }
    let release_time = ctx.vestment_data.release_time;
    if release_time == 0 {
        return false;
    }
    let release_amount = ctx.vestment_data.release_amount;
    if release_amount > 0x7fff_ffff_ffff_ffffu64 {
        return false;
    }
    let left: u64 = ctx.vestment_data.amount - cliff;
    if left > 0x7fff_ffff_ffff_ffffu64 {
        return false;
    }
    let period_abs: u128 = if release_time > 0 {
        release_time as u128
    } else {
        (0i128 - release_time as i128) as u128
    };
    let periods: u128 = (elapsed as u128) / period_abs;
    proof {
        lemma_div_toward_zero_bounds(elapsed as int, release_time as int);
        assert(periods <= elapsed) by (nonlinear_arith)
            requires
                periods == (elapsed as u128) / period_abs,
                period_abs >= 1,
                elapsed >= 0,
        ;
        assert(periods * release_amount <= 0x7fff_ffff_ffff_ffffu128 * 0x7fff_ffff_ffff_ffffu128)
            by (nonlinear_arith)
            requires
                periods <= 0x7fff_ffff_ffff_ffffu128,
                release_amount <= 0x7fff_ffff_ffff_ffffu128,
        ;
    }
    let magnitude: u128 = periods * (release_amount as u128);
    let positive = release_time > 0;
    proof {
        let x = elapsed as int;
        let d = release_time as int;
        assert(claim_time(vd0, now) == time);
        assert(withdraw_start(vd0) == start);
        assert(period_abs as int == if d > 0 { d } else { -d });
        assert(div_toward_zero(x, d) == if positive { periods as int } else { -(periods as int) });
        assert((-(periods as int)) * (release_amount as int) == -((periods as int) * (release_amount as int)))
            by (nonlinear_arith);
    }
    assert(scheduled_release(vd0, now) == if positive { magnitude as int } else { -(magnitude as int) });
    if positive && magnitude > 0x7fff_ffff_ffff_ffffu128 {
        return false;
    }
    if !positive && magnitude != 0 {
        return false;
    }
    let released: u64 = if magnitude > left as u128 { left } else { magnitude as u64 };
    let remaining: u64 = left - released;
    let vested: u64 = cliff + released;
    assert(released == released_on_schedule(vd0, now));
    if ctx.destination_token_account.is_native && remaining > 0 {
        return (vested as u128) * 1_000_000_000u128 <= 0xffff_ffff_ffff_ffffu128;
    }
    true
}

/// Claims what has vested by `now`. On success the vesting data moves to
/// `claimed_state`; a refused claim leaves every account as it was.
pub fn claim_vested_tokens(ctx: &mut ClaimVestedTokens, now: i64) -> (r: Result<Claim, VestmenErrors>)
    requires
        claim_refusal(*old(ctx), now) is None ==> claim_within_limits(*old(ctx), now),
    ensures
        match claim_refusal(*old(ctx), now) {
            Some(e) => r == Err::<Claim, VestmenErrors>(e) && *final(ctx) == *old(ctx),
            None => {
                &&& r is Ok
                &&& r->Ok_0.vested_amount == vested_amount(old(ctx).vestment_data, now)
                &&& r->Ok_0.actions@ == claim_actions(*old(ctx), now)
                &&& *final(ctx) == (ClaimVestedTokens {
                    vestment_data: claimed_state(old(ctx).vestment_data, now),
                    ..*old(ctx)
                })
            },
        },
        r is Ok ==> r->Ok_0.vested_amount + final(ctx).vestment_data.amount
            == old(ctx).vestment_data.amount,
        r is Ok ==> final(ctx).vestment_data.last_vestment == if now > old(ctx).vestment_data.vestment_end {
            old(ctx).vestment_data.vestment_end
        } else {
            now
        },
        r is Ok ==> r->Ok_0.actions@.len() == if final(ctx).vestment_data.amount == 0 { 2int } else { 1int },
        r is Ok && final(ctx).vestment_data.amount == 0 ==> r->Ok_0.actions@[1] == (CpiAction::CloseAccount {
            account: old(ctx).vested_tokens.key,
            destination: old(ctx).consumer,
            authority: old(ctx).vested_tokens.key,
            signer: SignerSeeds::VestedTokens,
        }),
        r is Ok ==> match r->Ok_0.actions@[0] {
            CpiAction::TokenTransfer { from, to, amount, .. } => {
                &&& from == old(ctx).vested_tokens.key
                &&& to == old(ctx).destination_token_account.key
                &&& amount == r->Ok_0.vested_amount
            },
            CpiAction::SystemTransfer { from, to, lamports, .. } => {
                &&& from == old(ctx).sol_token_account
                &&& to == old(ctx).consumer
                &&& (old(ctx).destination_token_account.is_native && final(ctx).vestment_data.amount > 0
                    ==> lamports == r->Ok_0.vested_amount * 1_000_000_000)
                &&& (!(old(ctx).destination_token_account.is_native && final(ctx).vestment_data.amount
                    > 0) ==> {
                    &&& old(ctx).vested_tokens.is_native
                    &&& final(ctx).vestment_data.amount == 0
                    &&& lamports == old(ctx).sol_token_balance
                })
            },
            _ => false,
        },
{
    let ghost ctx0 = *ctx;
    let ghost vd0 = ctx.vestment_data;
    let mut current_timestamp = now;
    if current_timestamp > ctx.vestment_data.vestment_end {
        current_timestamp = ctx.vestment_data.vestment_end;
    }
    let withdraw_start = if ctx.vestment_data.last_vestment > 0 {
        ctx.vestment_data.last_vestment
    } else {
        match ctx.vestment_data.cliff_date {
            Some(cliff_date) => cliff_date,
            None => ctx.vestment_data.vestment_start,
        }
    };
    if ctx.vestment_data.amount == 0 {
        return Err(VestmenErrors::TokensClaimed);
    }
    if current_timestamp < withdraw_start {
        return Err(VestmenErrors::VestmentNotStarted);
    }
    if !(ctx.consumer == ctx.vestment_data.consumer) {
        return Err(VestmenErrors::WrongClaimAuthority);
    }
    let has_cliffed = ctx.vestment_data.has_cliffed;
    let mut cliff_release: u64 = 0;
    if !has_cliffed {
        cliff_release = ctx.vestment_data.cliff_release_amount;
    }
    let left_amount: u64 = ctx.vestment_data.amount - cliff_release;
    let elapsed: i64 = current_timestamp - withdraw_start;
    proof {
        lemma_div_toward_zero_bounds(elapsed as int, vd0.release_time as int);
    }
    let periods: i64 = elapsed.checked_div(ctx.vestment_data.release_time).unwrap();
    assert(periods == div_toward_zero(elapsed as int, vd0.release_time as int));
    let release_amount: i64 = ctx.vestment_data.release_amount as i64;
    let time_passed: i64 = periods.checked_mul(release_amount).unwrap();
    assert(time_passed == scheduled_release(vd0, now));
    let mut vested: u64 = cliff_release;
    let remaining: u64;
    if time_passed > left_amount as i64 {
        vested = vested + left_amount;
        remaining = 0;
    } else {
        let tokens: u64 = time_passed as u64;
        vested = vested + tokens;
        remaining = left_amount - tokens;
    }
    assert(vested == vested_amount(vd0, now));
    assert(remaining == remaining_amount(vd0, now));
    ctx.vestment_data.last_vestment = current_timestamp;
    if !has_cliffed {
        ctx.vestment_data.cliff_release_amount = 0;
    }
    ctx.vestment_data.amount = remaining;

    let payout = if ctx.destination_token_account.is_native && remaining > 0 {
        let lamports: u64 = vested.checked_mul(lamports_per_sol()).unwrap();
        CpiAction::SystemTransfer {
            from: ctx.sol_token_account,
            to: ctx.consumer,
            lamports,
            signer: SignerSeeds::SolAccount,
        }
    } else if ctx.vested_tokens.is_native && remaining == 0 {
        CpiAction::SystemTransfer {
            from: ctx.sol_token_account,
            to: ctx.consumer,
            lamports: ctx.sol_token_balance,
            signer: SignerSeeds::SolAccount,
        }
    } else {
        CpiAction::TokenTransfer {
            from: ctx.vested_tokens.key,
            to: ctx.destination_token_account.key,
            authority: ctx.vested_tokens.key,
            amount: vested,
            signer: SignerSeeds::VestedTokens,
        }
    };
    let mut actions: Vec<CpiAction> = Vec::new();
    actions.push(payout);
    if remaining == 0 {
        actions.push(
            CpiAction::CloseAccount {
                account: ctx.vested_tokens.key,
                destination: ctx.consumer,
                authority: ctx.vested_tokens.key,
                signer: SignerSeeds::VestedTokens,
            },
        );
    }
    proof {
        lemma_claim_pays_what_it_deducts(ctx0, now);
    }
    Ok(Claim { vested_amount: vested, actions })
}

/// A claim keeps every token accounted for: the tokens it releases and the
/// tokens the vesting still holds add up to what the vesting held before, and
/// neither is negative.
pub proof fn lemma_claim_conserves_tokens(ctx: ClaimVestedTokens, now: i64)
    requires
        claim_refusal(ctx, now) is None,
        claim_within_limits(ctx, now),
    ensures
        vested_amount(ctx.vestment_data, now) + remaining_amount(ctx.vestment_data, now)
            == ctx.vestment_data.amount,
        0 <= vested_amount(ctx.vestment_data, now) <= ctx.vestment_data.amount,
        0 <= remaining_amount(ctx.vestment_data, now) <= ctx.vestment_data.amount,
{
}

/// A second claim at the same moment as a successful one releases nothing
/// and leaves the tokens where they are; it is refused only because the first
/// claim emptied the vesting. (This holds where the moment the first claim
/// counted up to is after time zero: a claim at or before it records no
/// previous claim.)
pub proof fn lemma_repeated_claim_releases_nothing(ctx: ClaimVestedTokens, now: i64)
    requires
        claim_refusal(ctx, now) is None,
        claim_within_limits(ctx, now),
        claim_time(ctx.vestment_data, now) > 0,
    ensures
        ({
            let after = ClaimVestedTokens {
                vestment_data: claimed_state(ctx.vestment_data, now),
                ..ctx
            };
            &&& claim_refusal(after, now) == (if remaining_amount(ctx.vestment_data, now) == 0 {
                Some(VestmenErrors::TokensClaimed)
            } else {
                None
            })
            &&& vested_amount(after.vestment_data, now) == 0
            &&& remaining_amount(after.vestment_data, now) == after.vestment_data.amount
        }),
{
    let vd = ctx.vestment_data;
    let after = ClaimVestedTokens { vestment_data: claimed_state(vd, now), ..ctx };
    lemma_claim_conserves_tokens(ctx, now);
    assert(withdraw_start(after.vestment_data) == claim_time(vd, now));
    assert(claim_time(after.vestment_data, now) == claim_time(vd, now));
    assert(div_toward_zero(0, vd.release_time as int) == 0);
    assert(scheduled_release(after.vestment_data, now) == 0);
}

/// Once a claim has emptied the vesting, every later claim is refused as
/// already claimed.
pub proof fn lemma_emptied_vesting_refuses_claims(ctx: ClaimVestedTokens, now: i64, later: i64)
    requires
        claim_refusal(ctx, now) is None,
        claim_within_limits(ctx, now),
        remaining_amount(ctx.vestment_data, now) == 0,
    ensures
        claim_refusal(
            ClaimVestedTokens { vestment_data: claimed_state(ctx.vestment_data, now), ..ctx },
            later,
        ) == Some(VestmenErrors::TokensClaimed),
{
}

/// The longer the consumer waits, the more a claim releases: with a positive
/// release period, a claim at a later moment releases at least as much as a
/// claim at an earlier one from the same vesting.
pub proof fn lemma_claim_grows_with_time(ctx: ClaimVestedTokens, earlier: i64, later: i64)
    requires
        earlier <= later,
        ctx.vestment_data.release_time > 0,
        claim_refusal(ctx, earlier) is None,
        claim_within_limits(ctx, earlier),
        claim_within_limits(ctx, later),
    ensures
        claim_refusal(ctx, later) is None,
        vested_amount(ctx.vestment_data, earlier) <= vested_amount(ctx.vestment_data, later),
        remaining_amount(ctx.vestment_data, later) <= remaining_amount(ctx.vestment_data, earlier),
{
    let vd = ctx.vestment_data;
    let start = withdraw_start(vd) as int;
    let x1 = claim_time(vd, earlier) - start;
    let x2 = claim_time(vd, later) - start;
    assert(x1 <= x2);
    vstd::arithmetic::div_mod::lemma_div_is_ordered(x1, x2, vd.release_time as int);
    vstd::arithmetic::mul::lemma_mul_inequality(
        x1 / (vd.release_time as int),
        x2 / (vd.release_time as int),
        vd.release_amount as int,
    );
}

/// A claim pays out exactly what it deducts: where it moves tokens, the
/// transfer goes from the vested token account to the destination and moves
/// the tokens by which the vesting shrinks, cliff release included; where it
/// pays lamports for the vested tokens, it pays a billion lamports for each
/// token deducted, to the consumer; an emptied vesting also closes its
/// vested token account.
pub proof fn lemma_claim_pays_what_it_deducts(ctx: ClaimVestedTokens, now: i64)
    requires
        claim_refusal(ctx, now) is None,
        claim_within_limits(ctx, now),
    ensures
        ({
            let after = claimed_state(ctx.vestment_data, now);
            let deducted = ctx.vestment_data.amount - after.amount;
            let actions = claim_actions(ctx, now);
            &&& 0 <= after.amount <= ctx.vestment_data.amount
            &&& actions.len() == if after.amount == 0 { 2int } else { 1int }
            &&& match actions[0] {
                CpiAction::TokenTransfer { from, to, amount, .. } => {
                    &&& from == ctx.vested_tokens.key
                    &&& to == ctx.destination_token_account.key
                    &&& amount == deducted
                },
                CpiAction::SystemTransfer { from, to, lamports, .. } => {
                    &&& from == ctx.sol_token_account
                    &&& to == ctx.consumer
                    &&& (ctx.destination_token_account.is_native && after.amount > 0
                        ==> lamports == deducted * 1_000_000_000)
                    &&& (!(ctx.destination_token_account.is_native && after.amount > 0) ==> {
                        &&& ctx.vested_tokens.is_native
                        &&& after.amount == 0
                        &&& lamports == ctx.sol_token_balance
                    })
                },
                _ => false,
            }
            &&& (after.amount == 0 ==> actions[1] == CpiAction::CloseAccount {
                account: ctx.vested_tokens.key,
                destination: ctx.consumer,
                authority: ctx.vested_tokens.key,
                signer: SignerSeeds::VestedTokens,
            })
        }),
{
    lemma_claim_conserves_tokens(ctx, now);
}

/// A claim touches nothing of the vesting but the tokens it holds, the cliff
/// release it has paid and the moment it was claimed up to: the parties, the
/// mint and the schedule stay as they were, and the claim is recorded at the
/// current time, or at the end of the vesting where that has passed.
pub proof fn lemma_claim_keeps_the_terms(vd: VestmentData, now: i64)
    ensures
        ({
            let after = claimed_state(vd, now);
            &&& after.vestor == vd.vestor
            &&& after.consumer == vd.consumer
            &&& after.vestment_mint == vd.vestment_mint
            &&& after.vestment_start == vd.vestment_start
            &&& after.vestment_end == vd.vestment_end
            &&& after.release_time == vd.release_time
            &&& after.release_amount == vd.release_amount
            &&& after.cliff_date == vd.cliff_date
            &&& after.has_cliffed == vd.has_cliffed
            &&& after.withdrawn_amount == vd.withdrawn_amount
            &&& after.vestor_cancel_authority == vd.vestor_cancel_authority
            &&& after.consumer_cancel_authority == vd.consumer_cancel_authority
            &&& after.last_vestment == if now > vd.vestment_end { vd.vestment_end } else { now }
            &&& after.last_vestment <= now
            &&& (!vd.has_cliffed ==> after.cliff_release_amount == 0)
        }),
{
}

/// With a positive release period, a claim releases its cliff part and then
/// `release_amount` for every whole release period that has elapsed since the
/// moment it counts from (the previous claim, else the cliff date, else the
/// start), up to the moment it counts to (now, but no later than the end),
/// never more than the vesting holds after the cliff part.
pub proof fn lemma_claim_releases_whole_periods(ctx: ClaimVestedTokens, now: i64)
    requires
        claim_refusal(ctx, now) is None,
        claim_within_limits(ctx, now),
        ctx.vestment_data.release_time > 0,
    ensures
        ({
            let vd = ctx.vestment_data;
            let from: int = if vd.last_vestment > 0 {
                vd.last_vestment as int
            } else {
                match vd.cliff_date {
                    Some(d) => d as int,
                    None => vd.vestment_start as int,
                }
            };
            let to: int = if now > vd.vestment_end { vd.vestment_end as int } else { now as int };
            let cliff_part: int = if vd.has_cliffed { 0 } else { vd.cliff_release_amount as int };
            let left = vd.amount - cliff_part;
            let deducted = vd.amount - claimed_state(vd, now).amount;
            exists|k: int|
                {
                    &&& 0 <= k
                    &&& #[trigger] (k * vd.release_time) <= to - from < (k + 1) * vd.release_time
                    &&& deducted == cliff_part + if k * vd.release_amount > left {
                        left
                    } else {
                        k * vd.release_amount
                    }
                }
        }),
{
    let vd = ctx.vestment_data;
    let x = claim_time(vd, now) - withdraw_start(vd);
    let d = vd.release_time as int;
    let k = x / d;
    lemma_claim_conserves_tokens(ctx, now);
    assert(k * d <= x < (k + 1) * d && 0 <= k) by (nonlinear_arith)
        requires
            k == x / d,
            d > 0,
            x >= 0,
    ;
    assert(k * vd.release_time <= x < (k + 1) * vd.release_time);
}

} // verus!

use token_vesting::accounts::{CpiAction, SignerSeeds, TokenAccount};
use token_vesting::error::VestmenErrors;
use token_vesting::instructions::claim_vested_tokens::{claim_is_within_limits, claim_vested_tokens, ClaimVestedTokens};
use token_vesting::pubkey::Pubkey;
use token_vesting::state::vesting::VestmentData;

fn key(n: u8) -> Pubkey {
    Pubkey::new_from_array([n; 32])
}

fn token_account(k: u8, mint: u8, owner: u8, is_native: bool) -> TokenAccount {
    TokenAccount { key: key(k), mint: key(mint), owner: key(owner), is_native }
}

fn vesting() -> VestmentData {
    let mut vd = VestmentData::default();
    vd.vestor = key(1);
    vd.consumer = key(2);
    vd.vestment_mint = key(3);
    vd.amount = 100;
    vd.release_time = 10;
    vd.release_amount = 5;
    vd.vestment_start = 1000;
    vd.vestment_end = 2000;
    vd
}

fn claim_ctx(vd: VestmentData) -> ClaimVestedTokens {
    ClaimVestedTokens {
        vestment_data: vd,
        vestor: key(1),
        consumer: key(2),
        vestment_mint: key(3),
        vested_tokens: token_account(4, 3, 4, false),
        destination_token_account: token_account(5, 3, 2, false),
        sol_token_account: key(6),
        sol_token_balance: 777,
    }
}

#[test]
fn claim_releases_whole_periods() {
    let mut ctx = claim_ctx(vesting());
    let claim = claim_vested_tokens(&mut ctx, 1035).unwrap();
    assert_eq!(claim.vested_amount, 15);
    assert_eq!(ctx.vestment_data.amount, 85);
    assert_eq!(ctx.vestment_data.last_vestment, 1035);
    assert_eq!(
        claim.actions,
        vec![CpiAction::TokenTransfer {
            from: key(4),
            to: key(5),
            authority: key(4),
            amount: 15,
            signer: SignerSeeds::VestedTokens,
        }]
    );
}

#[test]
fn claim_twice_at_same_moment_releases_nothing() {
    let mut ctx = claim_ctx(vesting());
    claim_vested_tokens(&mut ctx, 1035).unwrap();
    let second = claim_vested_tokens(&mut ctx, 1035).unwrap();
    assert_eq!(second.vested_amount, 0);
    assert_eq!(ctx.vestment_data.amount, 85);
}

#[test]
fn claim_counts_from_previous_claim() {
    let mut ctx = claim_ctx(vesting());
    claim_vested_tokens(&mut ctx, 1035).unwrap();
    let second = claim_vested_tokens(&mut ctx, 1060).unwrap();
    // 25 seconds since the previous claim: two whole periods.
    assert_eq!(second.vested_amount, 10);
    assert_eq!(ctx.vestment_data.amount, 75);
}

#[test]
fn claim_after_end_empties_and_closes() {
    let mut ctx = claim_ctx(vesting());
    let claim = claim_vested_tokens(&mut ctx, 9999).unwrap();
    assert_eq!(claim.vested_amount, 100);
    assert_eq!(ctx.vestment_data.amount, 0);
    assert_eq!(ctx.vestment_data.last_vestment, 2000);
    assert_eq!(claim.actions.len(), 2);
    assert_eq!(
        claim.actions[1],
        CpiAction::CloseAccount {
            account: key(4),
            destination: key(2),
            authority: key(4),
            signer: SignerSeeds::VestedTokens,
        }
    );
    assert_eq!(claim_vested_tokens(&mut ctx, 10000).unwrap_err(), VestmenErrors::TokensClaimed);
}

#[test]
fn claim_with_cliff_release() {
    let mut vd = vesting();
    vd.cliff_date = Some(1500);
    vd.cliff_release_amount = 20;
    let mut ctx = claim_ctx(vd);
    assert_eq!(claim_vested_tokens(&mut ctx, 1400).unwrap_err(), VestmenErrors::VestmentNotStarted);
    let claim = claim_vested_tokens(&mut ctx, 1520).unwrap();
    assert_eq!(claim.vested_amount, 30);
    assert_eq!(ctx.vestment_data.amount, 70);
    assert_eq!(ctx.vestment_data.cliff_release_amount, 0);
}

#[test]
fn claim_before_start_is_refused_and_changes_nothing() {
    let mut ctx = claim_ctx(vesting());
    assert_eq!(claim_vested_tokens(&mut ctx, 999).unwrap_err(), VestmenErrors::VestmentNotStarted);
    assert_eq!(ctx.vestment_data.amount, 100);
    assert_eq!(ctx.vestment_data.last_vestment, 0);
}

#[test]
fn claim_by_stranger_is_refused() {
    let mut ctx = claim_ctx(vesting());
    ctx.consumer = key(9);
    assert_eq!(claim_vested_tokens(&mut ctx, 1500).unwrap_err(), VestmenErrors::WrongClaimAuthority);
}

#[test]
fn claim_to_wrapped_sol_pays_lamports() {
    let mut ctx = claim_ctx(vesting());
    ctx.destination_token_account.is_native = true;
    let claim = claim_vested_tokens(&mut ctx, 1010).unwrap();
    assert_eq!(
        claim.actions,
        vec![CpiAction::SystemTransfer {
            from: key(6),
            to: key(2),
            lamports: 5_000_000_000,
            signer: SignerSeeds::SolAccount,
        }]
    );
}

#[test]
fn final_claim_of_wrapped_sol_pays_whole_balance() {
    let mut ctx = claim_ctx(vesting());
    ctx.vested_tokens.is_native = true;
    let claim = claim_vested_tokens(&mut ctx, 5000).unwrap();
    assert_eq!(
        claim.actions[0],
        CpiAction::SystemTransfer { from: key(6), to: key(2), lamports: 777, signer: SignerSeeds::SolAccount }
    );
}

#[test]
fn negative_release_period_releases_nothing_at_start() {
    let mut vd = vesting();
    vd.release_time = -10;
    let mut ctx = claim_ctx(vd);
    let claim = claim_vested_tokens(&mut ctx, 1005).unwrap();
    assert_eq!(claim.vested_amount, 0);
}

#[test]
fn claim_constraint_checks_destination_mint() {
    let mut ctx = claim_ctx(vesting());
    assert_eq!(ctx.check_constraints(), Ok(()));
    ctx.destination_token_account.mint = key(8);
    assert_eq!(ctx.check_constraints(), Err(VestmenErrors::WrongDestinationMint));
}

#[test]
fn limits_of_an_ordinary_claim() {
    let ctx = claim_ctx(vesting());
    assert!(claim_is_within_limits(&ctx, 1500));
}

#[test]
fn limits_ignore_refused_claims() {
    let mut vd = vesting();
    vd.release_time = 0;
    let ctx = claim_ctx(vd.clone());
    assert!(!claim_is_within_limits(&ctx, 1500));
    assert!(claim_is_within_limits(&ctx, 900));
    vd.amount = 0;
    assert!(claim_is_within_limits(&claim_ctx(vd), 1500));
}

#[test]
fn limits_catch_cliff_above_amount() {
    let mut vd = vesting();
    vd.cliff_release_amount = 101;
    assert!(!claim_is_within_limits(&claim_ctx(vd.clone()), 1500));
    vd.has_cliffed = true;
    assert!(claim_is_within_limits(&claim_ctx(vd), 1500));
}

#[test]
fn limits_catch_negative_release() {
    let mut vd = vesting();
    vd.release_time = -10;
    assert!(claim_is_within_limits(&claim_ctx(vd.clone()), 1009));
    assert!(!claim_is_within_limits(&claim_ctx(vd), 1010));
}

#[test]
fn limits_catch_lamport_overflow() {
    let mut vd = vesting();
    vd.amount = 1_000_000_000_000;
    vd.release_time = 1;
    vd.release_amount = 100_000_000_000;
    let mut ctx = claim_ctx(vd);
    assert!(claim_is_within_limits(&ctx, 1001));
    ctx.destination_token_account.is_native = true;
    assert!(!claim_is_within_limits(&ctx, 1001));
}

#[test]
fn later_claim_releases_more() {
    let mut early = claim_ctx(vesting());
    let mut late = claim_ctx(vesting());
    let a = claim_vested_tokens(&mut early, 1035).unwrap().vested_amount;
    let b = claim_vested_tokens(&mut late, 1060).unwrap().vested_amount;
    assert_eq!((a, b), (15, 30));
    assert!(late.vestment_data.amount <= early.vestment_data.amount);
}

#[test]
fn claim_conserves_tokens() {
    let mut vd = vesting();
    vd.cliff_release_amount = 7;
    let mut ctx = claim_ctx(vd);
    let claim = claim_vested_tokens(&mut ctx, 1047).unwrap();
    assert_eq!(claim.vested_amount, 27);
    assert_eq!(claim.vested_amount + ctx.vestment_data.amount, 100);
}

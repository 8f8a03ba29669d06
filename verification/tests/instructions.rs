use token_vesting::accounts::{CpiAction, SignerSeeds, TokenAccount};
use token_vesting::encoding::{encode_nft_vestment_record, nft_vestment_record_discriminator};
use token_vesting::error::VestmenErrors;
use token_vesting::instructions::cancel_vestment::{cancel_vestment, CancelVestment};
use token_vesting::instructions::claim_vested_nft::{claim_vested_nft, nft_claim_check, ClaimNft};
use token_vesting::instructions::claim_vested_tokens::{claim_vested_tokens, ClaimVestedTokens};
use token_vesting::instructions::initialize_escrow::{initialize_escrow, InitializeEscrow};
use token_vesting::instructions::initialize_vestment::{initialize_vestmet, InitializeVestment};
use token_vesting::instructions::vest_nfts::{vest_nft_record, vest_nfts, VestNfts};
use token_vesting::pubkey::Pubkey;
use token_vesting::state::escrow::EscrowData;
use token_vesting::state::nft_vesting_data::{NftVestingData, NftVestmentRecord};
use token_vesting::state::vesting::VestmentData;

fn key(n: u8) -> Pubkey {
    Pubkey::new_from_array([n; 32])
}

fn token_account(k: u8, mint: u8, owner: u8, is_native: bool) -> TokenAccount {
    TokenAccount { key: key(k), mint: key(mint), owner: key(owner), is_native }
}

fn cancel_ctx() -> CancelVestment {
    let mut vd = VestmentData::default();
    vd.vestor = key(1);
    vd.consumer = key(2);
    vd.vestment_mint = key(3);
    vd.amount = 100;
    vd.vestor_cancel_authority = Some(key(1));
    vd.consumer_cancel_authority = Some(key(2));
    CancelVestment {
        vestment_data: vd,
        vestment_mint: key(3),
        vested_tokens: token_account(4, 3, 4, false),
        source_token_account: token_account(7, 3, 1, false),
        payer: key(1),
        vestor: key(1),
        sol_token_account: key(6),
        sol_token_balance: 55,
    }
}

#[test]
fn cancel_by_vestor_returns_tokens() {
    let mut ctx = cancel_ctx();
    let actions = cancel_vestment(&mut ctx).unwrap();
    assert_eq!(
        actions,
        vec![
            CpiAction::TokenTransfer {
                from: key(4),
                to: key(7),
                authority: key(4),
                amount: 100,
                signer: SignerSeeds::VestedTokens,
            },
            CpiAction::CloseAccount {
                account: key(4),
                destination: key(1),
                authority: key(4),
                signer: SignerSeeds::VestedTokens,
            },
        ]
    );
    assert_eq!(ctx.vestment_data.amount, 0);
    assert_eq!(ctx.vestment_data.withdrawn_amount, 100);
}

#[test]
fn cancel_by_consumer_authority_is_allowed() {
    let mut ctx = cancel_ctx();
    ctx.payer = key(2);
    assert!(cancel_vestment(&mut ctx).is_ok());
}

#[test]
fn cancel_by_stranger_is_refused() {
    let mut ctx = cancel_ctx();
    ctx.payer = key(9);
    assert_eq!(cancel_vestment(&mut ctx).unwrap_err(), VestmenErrors::WrongCancelAuthority);
    assert_eq!(ctx.vestment_data.amount, 100);
}

#[test]
fn cancel_without_authorities_accepts_only_zero_key() {
    let mut ctx = cancel_ctx();
    ctx.vestment_data.vestor_cancel_authority = None;
    ctx.vestment_data.consumer_cancel_authority = None;
    assert_eq!(cancel_vestment(&mut ctx).unwrap_err(), VestmenErrors::WrongCancelAuthority);
    ctx.payer = Pubkey::default();
    assert!(cancel_vestment(&mut ctx).is_ok());
}

#[test]
fn cancel_of_wrapped_sol_pays_lamports_and_keeps_data() {
    let mut ctx = cancel_ctx();
    ctx.vested_tokens.is_native = true;
    let actions = cancel_vestment(&mut ctx).unwrap();
    assert_eq!(
        actions,
        vec![CpiAction::SystemTransfer { from: key(6), to: key(1), lamports: 55, signer: SignerSeeds::SolAccount }]
    );
    assert_eq!(ctx.vestment_data.amount, 100);
    assert_eq!(ctx.vestment_data.withdrawn_amount, 0);
}

#[test]
fn claim_after_cancel_is_refused() {
    let mut ctx = cancel_ctx();
    cancel_vestment(&mut ctx).unwrap();
    let mut claim = ClaimVestedTokens {
        vestment_data: ctx.vestment_data.clone(),
        vestor: key(1),
        consumer: key(2),
        vestment_mint: key(3),
        vested_tokens: token_account(4, 3, 4, false),
        destination_token_account: token_account(5, 3, 2, false),
        sol_token_account: key(6),
        sol_token_balance: 0,
    };
    assert_eq!(claim_vested_tokens(&mut claim, 5).unwrap_err(), VestmenErrors::TokensClaimed);
}

#[test]
fn cancel_constraints() {
    let mut ctx = cancel_ctx();
    assert_eq!(ctx.check_constraints(), Ok(()));
    ctx.source_token_account.owner = key(9);
    assert_eq!(ctx.check_constraints(), Err(VestmenErrors::WrongOwner));
    ctx.source_token_account.mint = key(9);
    assert_eq!(ctx.check_constraints(), Err(VestmenErrors::WrongTokenAccMint));
}

fn nft_ctx() -> ClaimNft {
    ClaimNft {
        nft_vesting_data: NftVestingData {
            nft_vestment_creator: key(1),
            nft_vested_amount: 3,
            vestment_initialized_at: 10,
            nft_collection_address: None,
        },
        vested_nfts_owner: key(11),
        nft_vestment_record: NftVestmentRecord {
            nft_mint: key(12),
            cliff_date: 500,
            source_token_account: key(13),
            dedicated_consumer: Some(key(2)),
        },
        nft_mint: key(12),
        nft_vestor: key(1),
        vested_token_account: key(14),
        nft_consumer: key(2),
        destination_token_account: token_account(15, 12, 2, false),
    }
}

#[test]
fn nft_claim_after_cliff() {
    let ctx = nft_ctx();
    assert_eq!(
        claim_vested_nft(&ctx, 500).unwrap(),
        vec![CpiAction::TokenTransfer {
            from: key(14),
            to: key(15),
            authority: key(11),
            amount: 1,
            signer: SignerSeeds::VestedNftsOwner,
        }]
    );
}

#[test]
fn nft_claim_refusals() {
    let mut ctx = nft_ctx();
    assert_eq!(claim_vested_nft(&ctx, 499).unwrap_err(), VestmenErrors::VestmentNotStarted);
    ctx.nft_consumer = key(9);
    assert_eq!(claim_vested_nft(&ctx, 600).unwrap_err(), VestmenErrors::WrongClaimAuthority);
    ctx.nft_consumer = key(2);
    ctx.nft_vestment_record.dedicated_consumer = None;
    assert_eq!(claim_vested_nft(&ctx, 600).unwrap_err(), VestmenErrors::WrongClaimAuthority);
}

#[test]
fn nft_claim_constraint() {
    let mut ctx = nft_ctx();
    assert_eq!(ctx.check_constraints(), Ok(()));
    ctx.destination_token_account.mint = key(99);
    assert_eq!(ctx.check_constraints(), Err(VestmenErrors::WrongTokenAccMint));
}

#[test]
fn initialize_vestment_fills_data() {
    let mut ctx = InitializeVestment {
        vested_mint: key(3),
        source_token_account: token_account(7, 3, 1, false),
        vestor: key(1),
        vested_tokens: key(4),
        vestment_data: VestmentData::default(),
        consumer: key(2),
    };
    assert_eq!(ctx.check_constraints(), Ok(()));
    let transfer = initialize_vestmet(&mut ctx, 500, 4000, 1500, 1234);
    assert_eq!(
        transfer,
        CpiAction::TokenTransfer { from: key(7), to: key(4), authority: key(1), amount: 500, signer: SignerSeeds::Unsigned }
    );
    let vd = &ctx.vestment_data;
    assert_eq!((vd.amount, vd.vestment_start, vd.vestment_end, vd.cliff), (500, 1234, 4000, 1500));
    assert_eq!((vd.vestor, vd.consumer, vd.vestment_mint), (key(1), key(2), key(3)));
    ctx.source_token_account.mint = key(8);
    assert_eq!(ctx.check_constraints(), Err(VestmenErrors::WrongTokenAccMint));
}

fn escrow_ctx(is_native: bool) -> InitializeEscrow {
    InitializeEscrow {
        escrow_data: EscrowData {
            escrow_initialized_at: 0,
            escrow_initializer: Pubkey::default(),
            offered_amount: 0,
            wanted_amount: 0,
            wanted_mint: Pubkey::default(),
            offered_mint: Pubkey::default(),
            source_token_account: Pubkey::default(),
            escrow_token_account: Pubkey::default(),
        },
        offered_mint: key(20),
        escrow_initializer: key(21),
        wanted_mint: key(22),
        source_token_account: token_account(23, 20, 21, is_native),
        escrow_token_account: key(24),
    }
}

#[test]
fn escrow_of_tokens() {
    let mut ctx = escrow_ctx(false);
    assert_eq!(ctx.check_constraints(), Ok(()));
    let actions = initialize_escrow(&mut ctx, 40, 60, 77);
    assert_eq!(
        actions,
        vec![CpiAction::TokenTransfer { from: key(23), to: key(24), authority: key(21), amount: 40, signer: SignerSeeds::Unsigned }]
    );
    let e = ctx.escrow_data;
    assert_eq!((e.escrow_initialized_at, e.offered_amount, e.wanted_amount), (77, 40, 60));
    assert_eq!((e.escrow_initializer, e.wanted_mint, e.offered_mint), (key(21), key(22), key(20)));
    assert_eq!((e.source_token_account, e.escrow_token_account), (key(23), key(24)));
}

#[test]
fn escrow_of_wrapped_sol() {
    let mut ctx = escrow_ctx(true);
    let actions = initialize_escrow(&mut ctx, 40, 60, 77);
    assert_eq!(
        actions,
        vec![
            CpiAction::SystemTransfer { from: key(21), to: key(24), lamports: 40, signer: SignerSeeds::Unsigned },
            CpiAction::SyncNative { account: key(24) },
        ]
    );
    ctx.source_token_account.mint = key(1);
    assert_eq!(ctx.check_constraints(), Err(VestmenErrors::WrongTokenAccMint));
}

fn vest_ctx(n_keys: u8) -> VestNfts {
    VestNfts {
        nft_vesting_data: NftVestingData {
            nft_vestment_creator: Pubkey::default(),
            nft_vested_amount: 0,
            vestment_initialized_at: 0,
            nft_collection_address: None,
        },
        nft_vesting_data_key: key(30),
        vested_nfts_owner: key(31),
        nft_vestor: key(32),
        program_id: key(33),
        remaining_accounts: (0..n_keys).map(|i| key(40 + i)).collect(),
    }
}

#[test]
fn vest_nfts_groups_accounts_by_four() {
    let mut ctx = vest_ctx(9);
    let groups = vest_nfts(&mut ctx, &vec![Some(key(2)), None], 2, Some(key(5)), &vec![None, Some(7)], 100).unwrap();
    assert_eq!(groups, vec![(key(40), key(41), key(42), key(43)), (key(44), key(45), key(46), key(47))]);
    assert_eq!(ctx.nft_vesting_data.nft_vested_amount, 2);
    assert_eq!(ctx.nft_vesting_data.nft_vestment_creator, key(32));
    assert_eq!(ctx.nft_vesting_data.vestment_initialized_at, 100);
    assert_eq!(ctx.nft_vesting_data.nft_collection_address, Some(key(5)));
}

#[test]
fn vest_nfts_refusals() {
    let mut ctx = vest_ctx(8);
    assert_eq!(
        vest_nfts(&mut ctx, &vec![None, None], 2, None, &vec![None], 100).unwrap_err(),
        VestmenErrors::MissingCliffPeriod
    );
    assert_eq!(
        vest_nfts(&mut ctx, &vec![None], 2, None, &vec![None, None], 100).unwrap_err(),
        VestmenErrors::MissingDedicatedConsumers
    );
    assert_eq!(ctx.nft_vesting_data.nft_vested_amount, 0);
}

#[test]
fn vest_nft_record_plans_record_account() {
    let ctx = vest_ctx(4);
    let group = (key(40), key(41), key(42), key(43));
    let consumers = vec![Some(key(2))];
    let plan = vest_nft_record(&ctx, group, 0, &consumers, &vec![None], 100).unwrap().unwrap();
    let expected_record =
        NftVestmentRecord { nft_mint: key(41), cliff_date: 100, source_token_account: key(40), dedicated_consumer: Some(key(2)) };
    assert_eq!(plan.record.cliff_date, 100);
    assert_eq!(plan.record.nft_mint, key(41));
    assert_eq!(plan.record.dedicated_consumer, Some(key(2)));
    let (pda, bump) = anchor_lang::prelude::Pubkey::find_program_address(
        &[b"nft-record", &[41u8; 32], &[30u8; 32]],
        &anchor_lang::prelude::Pubkey::new_from_array([33u8; 32]),
    );
    assert_eq!(plan.record_address.to_bytes(), pda.to_bytes());
    assert_eq!(plan.bump, bump);
    let data = encode_nft_vestment_record(&expected_record);
    assert_eq!(
        plan.actions,
        vec![
            CpiAction::CreateAccount {
                payer: key(32),
                new_account: plan.record_address,
                space: 113,
                owner: key(33),
                signer: SignerSeeds::NftRecord { bump },
            },
            CpiAction::WriteData { account: key(43), data },
            CpiAction::TokenTransfer { from: key(40), to: key(42), authority: key(32), amount: 1, signer: SignerSeeds::Unsigned },
        ]
    );
}

#[test]
fn vest_nft_record_uses_first_cliff_date() {
    let ctx = vest_ctx(8);
    let group = (key(44), key(45), key(46), key(47));
    let plan = vest_nft_record(&ctx, group, 0, &vec![None, Some(key(3))], &vec![Some(900), Some(1)], 100)
        .unwrap()
        .unwrap();
    assert_eq!(plan.record.cliff_date, 900);
    assert_eq!(plan.record.dedicated_consumer, None);
    assert_eq!(plan.record.nft_mint, key(45));
}

#[test]
fn vest_nft_record_refuses_initialized_account() {
    let ctx = vest_ctx(4);
    let group = (key(40), key(41), key(42), key(43));
    assert_eq!(
        vest_nft_record(&ctx, group, 5, &vec![None], &vec![None], 100).unwrap().unwrap_err(),
        VestmenErrors::NftRecordAlredyInitialized
    );
}

#[test]
fn record_discriminator_is_hash_prefix() {
    let digest = anchor_lang::solana_program::hash::hash(b"account:NftVestmentRecord").to_bytes();
    assert_eq!(nft_vestment_record_discriminator(), digest[..8].to_vec());
}

#[test]
fn record_encoding_layout() {
    let record = NftVestmentRecord {
        nft_mint: key(1),
        cliff_date: -2,
        source_token_account: key(3),
        dedicated_consumer: None,
    };
    let bytes = encode_nft_vestment_record(&record);
    assert_eq!(bytes.len(), 81);
    assert_eq!(&bytes[..8], &nft_vestment_record_discriminator()[..]);
    assert_eq!(&bytes[8..40], &[1u8; 32][..]);
    assert_eq!(&bytes[40..48], &(-2i64).to_le_bytes()[..]);
    assert_eq!(&bytes[48..80], &[3u8; 32][..]);
    assert_eq!(bytes[80], 0);
    let with_consumer = NftVestmentRecord { dedicated_consumer: Some(key(4)), ..record };
    let bytes = encode_nft_vestment_record(&with_consumer);
    assert_eq!(bytes.len(), 113);
    assert_eq!(bytes[80], 1);
    assert_eq!(&bytes[81..], &[4u8; 32][..]);
}

#[test]
fn error_messages() {
    assert_eq!(VestmenErrors::TokensClaimed.message(), "All tokens already claimed");
    assert_eq!(VestmenErrors::WrongCancelAuthority.message(), "Not allowed to cancel vesting");
    assert_eq!(VestmenErrors::MissingDedicatedConsumers.message(), "Missing data about dedicated consumers");
}

#[test]
fn pubkey_equality_and_default() {
    assert_eq!(key(1), key(1));
    assert_ne!(key(1), key(2));
    let mut bytes = [1u8; 32];
    bytes[31] = 2;
    assert_ne!(key(1), Pubkey::new_from_array(bytes));
    assert_eq!(Pubkey::default().to_bytes(), [0u8; 32]);
}

#[test]
fn nft_claim_check_matches_claim() {
    let mut ctx = nft_ctx();
    assert_eq!(nft_claim_check(&ctx, 500), Ok(()));
    assert_eq!(nft_claim_check(&ctx, 10), Err(VestmenErrors::VestmentNotStarted));
    ctx.nft_consumer = key(8);
    assert_eq!(nft_claim_check(&ctx, 500), Err(VestmenErrors::WrongClaimAuthority));
}

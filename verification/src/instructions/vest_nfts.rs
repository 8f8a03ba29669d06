//! A creator sets NFTs aside, each for a dedicated consumer from a cliff date.
//!
//! The remaining accounts of the instruction come in groups of four: the
//! creator's token account of the NFT, the NFT's mint, the token account that
//! will hold it, and the account for its record. `vest_nfts` checks the
//! arguments, fills the vesting data and hands out the groups; for each group
//! in turn, `vest_nft_record` decides what to do with it.

use vstd::prelude::*;
use vstd::string::StringSliceAdditionalSpecFns;
use crate::accounts::{CpiAction, SignerSeeds};
use crate::encoding::{encode_nft_vestment_record, le_signed_value, push_key, record_account_bytes};
use crate::error::VestmenErrors;
use crate::outside::{group_by_four, program_address_search, try_find_program_address};
use crate::pubkey::Pubkey;
use crate::state::nft_vesting_data::{NftVestingData, NftVestmentRecord};

verus! {

/// The accounts of an NFT vesting, as the instruction reads them.
#[derive(Clone, Debug)]
pub struct VestNfts {
    /// The new NFT vesting data, as just created.
    pub nft_vesting_data: NftVestingData,
    /// The address of the NFT vesting data account.
    pub nft_vesting_data_key: Pubkey,
    pub vested_nfts_owner: Pubkey,
    /// The signer who sets the NFTs aside.
    pub nft_vestor: Pubkey,
    /// The id of this program.
    pub program_id: Pubkey,
    /// The addresses of the remaining accounts, in order.
    pub remaining_accounts: Vec<Pubkey>,
}

/// One group of remaining accounts: the creator's token account of the NFT,
/// the NFT's mint, the token account that will hold it, the record account.
pub type NftAccounts = (Pubkey, Pubkey, Pubkey, Pubkey);

/// What to do with one group of remaining accounts.
#[derive(Clone, Debug)]
pub struct NftRecordPlan {
    /// The record that the group's record account will hold.
    pub record: NftVestmentRecord,
    /// The program-derived address of the record account.
    pub record_address: Pubkey,
    pub bump: u8,
    /// The calls to make, in order.
    pub actions: Vec<CpiAction>,
}

/// The consecutive groups of four keys; keys left over form no group.
pub open spec fn nft_groups(keys: Seq<Pubkey>) -> Seq<NftAccounts> {
    Seq::new(
        keys.len() / 4,
        |i: int| (keys[4 * i], keys[4 * i + 1], keys[4 * i + 2], keys[4 * i + 3]),
    )
}

/// The error an NFT vesting is refused with, if any: there must be one cliff
/// date and one dedicated consumer per group of remaining accounts.
pub open spec fn vest_refusal(ctx: VestNfts, consumers: nat, cliff_dates: nat) -> Option<VestmenErrors> {
    let groups = ctx.remaining_accounts@.len() / 4;
    if groups != cliff_dates {
        Some(VestmenErrors::MissingCliffPeriod)
    } else if consumers != groups {
        Some(VestmenErrors::MissingDedicatedConsumers)
    } else {
        None
    }
}

/// The seeds of a record account's address.
pub open spec fn record_seeds(ctx: VestNfts, nft_mint: Pubkey) -> Seq<Seq<u8>> {
    seq!["nft-record".spec_bytes(), nft_mint@, ctx.nft_vesting_data_key@]
}

/// The record kept for a group. Every group takes the first cliff date and
/// the first dedicated consumer; a group without a cliff date is claimable
/// from `now`.
pub open spec fn planned_record(
    group: NftAccounts,
    consumers: Seq<Option<Pubkey>>,
    cliff_dates: Seq<Option<i64>>,
    now: i64,
) -> NftVestmentRecord {
    NftVestmentRecord {
        nft_mint: group.1,
        cliff_date: match cliff_dates[0] {
            Some(date) => date,
            None => now,
        },
        source_token_account: group.0,
        dedicated_consumer: consumers[0],
    }
}

/// The plan for a group whose record account gets `record_address` and `bump`:
/// create the record account at that address with room for the record's
/// bytes, write them, and move the NFT into the vesting's token account.
pub open spec fn is_record_plan(
    plan: NftRecordPlan,
    ctx: VestNfts,
    group: NftAccounts,
    consumers: Seq<Option<Pubkey>>,
    cliff_dates: Seq<Option<i64>>,
    now: i64,
    record_address: Pubkey,
    bump: u8,
) -> bool {
    let record = planned_record(group, consumers, cliff_dates, now);
    &&& plan.record == record
    &&& plan.record_address == record_address
    &&& plan.bump == bump
    &&& plan.actions@.len() == 3
    &&& plan.actions@[0] == CpiAction::CreateAccount {
        payer: ctx.nft_vestor,
        new_account: record_address,
        space: record_account_bytes(record).len() as u64,
        owner: ctx.program_id,
        signer: SignerSeeds::NftRecord { bump },
    }
    &&& plan.actions@[1] matches CpiAction::WriteData { account, data }
        && account == group.3 && data@ == record_account_bytes(record)
    &&& plan.actions@[2] == CpiAction::TokenTransfer {
        from: group.0,
        to: group.2,
        authority: ctx.nft_vestor,
        amount: 1,
        signer: SignerSeeds::Unsigned,
    }
}

/// Checks the arguments of an NFT vesting at `now`, fills the vesting data,
/// and returns the groups of remaining accounts to vest, in order.
pub fn vest_nfts(
    ctx: &mut VestNfts,
    dedicated_consumers: &Vec<Option<Pubkey>>,
    nft_number: u32,
    collection_address: Option<Pubkey>,
    cliff_dates: &Vec<Option<i64>>,
    now: i64,
) -> (r: Result<Vec<NftAccounts>, VestmenErrors>)
    ensures
        match vest_refusal(*old(ctx), dedicated_consumers@.len(), cliff_dates@.len()) {
            Some(e) => r == Err::<Vec<NftAccounts>, VestmenErrors>(e) && *final(ctx) == *old(ctx),
            None => {
                &&& r is Ok
                &&& r->Ok_0@ == nft_groups(old(ctx).remaining_accounts@)
                &&& r->Ok_0@.len() == old(ctx).remaining_accounts@.len() / 4
                &&& r->Ok_0@.len() == cliff_dates@.len()
                &&& r->Ok_0@.len() == dedicated_consumers@.len()
                &&& forall|i: int| 0 <= i < r->Ok_0@.len() ==> #[trigger] r->Ok_0@[i] == (
                    old(ctx).remaining_accounts@[4 * i],
                    old(ctx).remaining_accounts@[4 * i + 1],
                    old(ctx).remaining_accounts@[4 * i + 2],
                    old(ctx).remaining_accounts@[4 * i + 3],
                )
                &&& *final(ctx) == (VestNfts {
                    nft_vesting_data: NftVestingData {
                        nft_collection_address: collection_address,
                        nft_vested_amount: nft_number,
                        nft_vestment_creator: old(ctx).nft_vestor,
                        vestment_initialized_at: now,
                    },
                    ..*old(ctx)
                })
            },
        },
{
    let remaining_accounts_len = ctx.remaining_accounts.len() / 4;
    if remaining_accounts_len != cliff_dates.len() {
        return Err(VestmenErrors::MissingCliffPeriod);
    }
    if dedicated_consumers.len() != remaining_accounts_len {
        return Err(VestmenErrors::MissingDedicatedConsumers);
    }
    ctx.nft_vesting_data.nft_collection_address = collection_address;
    ctx.nft_vesting_data.nft_vested_amount = nft_number;
    ctx.nft_vesting_data.nft_vestment_creator = ctx.nft_vestor;
    ctx.nft_vesting_data.vestment_initialized_at = now;
    let groups = group_by_four(&ctx.remaining_accounts);
    assert(groups@ =~= nft_groups(ctx.remaining_accounts@));
    Ok(groups)
}

fn record_seed_vecs(ctx: &VestNfts, nft_mint: &Pubkey) -> (r: Vec<Vec<u8>>)
    ensures
        r.deep_view() == record_seeds(*ctx, *nft_mint),
{
    let prefix = vstd::slice::slice_to_vec("nft-record".as_bytes());
    let mut mint: Vec<u8> = Vec::new();
    push_key(&mut mint, nft_mint);
    let mut vesting: Vec<u8> = Vec::new();
    push_key(&mut vesting, &ctx.nft_vesting_data_key);
    assert(prefix.deep_view() =~= prefix@);
    assert(mint.deep_view() =~= mint@);
    assert(vesting.deep_view() =~= vesting@);
    let mut seeds: Vec<Vec<u8>> = Vec::new();
    seeds.push(prefix);
    seeds.push(mint);
    seeds.push(vesting);
    assert(seeds.deep_view() =~= record_seeds(*ctx, *nft_mint));
    seeds
}

/// The plan for a group whose record account gets `record_address` and `bump`.
pub fn plan_nft_record(
    ctx: &VestNfts,
    group: NftAccounts,
    dedicated_consumers: &Vec<Option<Pubkey>>,
    cliff_dates: &Vec<Option<i64>>,
    now: i64,
    record_address: Pubkey,
    bump: u8,
) -> (r: NftRecordPlan)
    requires
        dedicated_consumers@.len() > 0,
        cliff_dates@.len() > 0,
    ensures
        is_record_plan(r, *ctx, group, dedicated_consumers@, cliff_dates@, now, record_address, bump),
        r.actions@[1] matches CpiAction::WriteData { account, data } && {
            &&& account == group.3
            &&& data@.len() == if dedicated_consumers@[0] is Some { 113int } else { 81int }
            &&& data@.subrange(8, 40) == group.1@
            &&& le_signed_value(data@.subrange(40, 48)) == match cliff_dates@[0] {
                Some(date) => date,
                None => now,
            }
            &&& data@.subrange(48, 80) == group.0@
            &&& match dedicated_consumers@[0] {
                None => data@[80] == 0,
                Some(k) => data@[80] == 1 && data@.subrange(81, 113) == k@,
            }
            &&& r.actions@[0] matches CpiAction::CreateAccount { space, new_account, .. }
                && space == data@.len() && new_account == r.record_address
        },
{
    let (associated_ta, nft_mint, vested_tokens, record_account) = group;
    let counter: usize = 0;
    let cliff_start = match cliff_dates[counter] {
        Some(date) => date,
        None => now,
    };
    let record = NftVestmentRecord {
        cliff_date: cliff_start,
        nft_mint,
        source_token_account: associated_ta,
        dedicated_consumer: dedicated_consumers[counter],
    };
    let data = encode_nft_vestment_record(&record);
    let account_size: usize = data.len();
    let mut actions: Vec<CpiAction> = Vec::new();
    actions.push(
        CpiAction::CreateAccount {
            payer: ctx.nft_vestor,
            new_account: record_address,
            space: account_size as u64,
            owner: ctx.program_id,
            signer: SignerSeeds::NftRecord { bump },
        },
    );
    actions.push(CpiAction::WriteData { account: record_account, data });
    actions.push(
        CpiAction::TokenTransfer {
            from: associated_ta,
            to: vested_tokens,
            authority: ctx.nft_vestor,
            amount: 1,
            signer: SignerSeeds::Unsigned,
        },
    );
    NftRecordPlan { record, record_address, bump, actions }
}

/// Decides what to do with one group of remaining accounts, whose record
/// account holds `record_data_len` bytes. A record account that already holds
/// data refuses the vesting. Otherwise the record account's address is derived
/// from its seeds; `None` where no address can be derived from them.
pub fn vest_nft_record(
    ctx: &VestNfts,
    group: NftAccounts,
    record_data_len: usize,
    dedicated_consumers: &Vec<Option<Pubkey>>,
    cliff_dates: &Vec<Option<i64>>,
    now: i64,
) -> (r: Option<Result<NftRecordPlan, VestmenErrors>>)
    requires
        record_data_len == 0 ==> dedicated_consumers@.len() > 0 && cliff_dates@.len() > 0,
    ensures
        record_data_len != 0 ==> r == Some(
            Err::<NftRecordPlan, VestmenErrors>(VestmenErrors::NftRecordAlredyInitialized),
        ),
        record_data_len == 0 ==> match program_address_search(record_seeds(*ctx, group.1), ctx.program_id@) {
            None => r is None,
            Some((address, bump)) => r matches Some(Ok(plan)) && plan.record_address@ == address
                && is_record_plan(
                plan,
                *ctx,
                group,
                dedicated_consumers@,
                cliff_dates@,
                now,
                plan.record_address,
                bump,
            ),
        },
        r matches Some(Ok(plan)) ==> {
            plan.actions@[1] matches CpiAction::WriteData { account, data } && {
                &&& account == group.3
                &&& data@.len() == if dedicated_consumers@[0] is Some { 113int } else { 81int }
                &&& data@.subrange(8, 40) == group.1@
                &&& le_signed_value(data@.subrange(40, 48)) == match cliff_dates@[0] {
                        Some(date) => date,
                        None => now,
                }
                &&& data@.subrange(48, 80) == group.0@
                &&& match dedicated_consumers@[0] {
                        None => data@[80] == 0,
                        Some(k) => data@[80] == 1 && data@.subrange(81, 113) == k@,
                }
                &&& plan.actions@[0] matches CpiAction::CreateAccount { space, new_account, .. }
                        && space == data@.len() && new_account == plan.record_address
            }
        },
{
    if record_data_len != 0 {
        return Some(Err(VestmenErrors::NftRecordAlredyInitialized));
    }
    let seeds = record_seed_vecs(ctx, &group.1);
    match try_find_program_address(&seeds, &ctx.program_id) {
        None => None,
        Some((pda, bump)) => Some(
            Ok(plan_nft_record(ctx, group, dedicated_consumers, cliff_dates, now, pda, bump)),
        ),
    }
}

/// The groups cover the remaining accounts: there is one group for every
/// four accounts, group `i` is accounts `4i` to `4i + 3` in order, and every
/// account but the fewer than four left over at the end sits in exactly the
/// group and place that its position gives.
pub proof fn lemma_nft_groups_cover_accounts(keys: Seq<Pubkey>)
    ensures
        nft_groups(keys).len() == keys.len() / 4,
        keys.len() - 4 * nft_groups(keys).len() < 4,
        forall|i: int| 0 <= i < nft_groups(keys).len() ==> #[trigger] nft_groups(keys)[i] == (
            keys[4 * i],
            keys[4 * i + 1],
            keys[4 * i + 2],
            keys[4 * i + 3],
        ),
        forall|j: int| 0 <= j < 4 * nft_groups(keys).len() ==> {
            let g = #[trigger] nft_groups(keys)[j / 4];
            keys[j] == if j % 4 == 0 { g.0 } else if j % 4 == 1 { g.1 } else if j % 4 == 2 { g.2 } else { g.3 }
        },
{
    assert forall|j: int| 0 <= j < 4 * nft_groups(keys).len() implies {
        let g = #[trigger] nft_groups(keys)[j / 4];
        keys[j] == if j % 4 == 0 { g.0 } else if j % 4 == 1 { g.1 } else if j % 4 == 2 { g.2 } else { g.3 }
    } by {
        assert(0 <= j / 4 < nft_groups(keys).len());
        assert(j == 4 * (j / 4) + j % 4);
    }
}

/// An NFT vesting that is not refused vests one NFT per cliff date and per
/// dedicated consumer: the groups of remaining accounts number exactly as
/// many as each.
pub proof fn lemma_vesting_groups_match_arguments(ctx: VestNfts, consumers: nat, cliff_dates: nat)
    requires
        vest_refusal(ctx, consumers, cliff_dates) is None,
    ensures
        nft_groups(ctx.remaining_accounts@).len() == cliff_dates,
        nft_groups(ctx.remaining_accounts@).len() == consumers,
{
}

} // verus!

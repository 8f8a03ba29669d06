//! The calls that the vesting logic makes into outside crates. Verus takes the
//! contracts here on trust; each doc comment says what is claimed.

use vstd::prelude::*;
use itertools::Itertools;
use crate::pubkey::Pubkey;

verus! {

/// The SHA-256 digest of `data`.
pub uninterp spec fn sha256_digest(data: Seq<u8>) -> Seq<u8>;

/// What `Pubkey::try_find_program_address` of `solana_program` answers for
/// these seeds and this program id: the program-derived address and its bump
/// seed, or nothing where no bump gives an address off the curve.
pub uninterp spec fn program_address_search(seeds: Seq<Seq<u8>>, program_id: Seq<u8>) -> Option<(Seq<u8>, u8)>;

/// Calls `solana_program::hash::hash` (through `anchor_lang`). Claimed: the
/// result is the SHA-256 digest of `data`, a function of `data` alone.
#[verifier::external_body]
pub(crate) fn sha256(data: &[u8]) -> (r: [u8; 32])
    ensures
        r@ == sha256_digest(data@),
{
    anchor_lang::solana_program::hash::hash(data).to_bytes()
}

/// Calls `Pubkey::try_find_program_address` of `solana_program` (through
/// `anchor_lang`). Claimed: the result is `program_address_search` of the
/// seeds and the program id, a function of those alone.
#[verifier::external_body]
pub(crate) fn try_find_program_address(seeds: &Vec<Vec<u8>>, program_id: &Pubkey) -> (r: Option<(Pubkey, u8)>)
    ensures
        match r {
            Some((key, bump)) => program_address_search(seeds.deep_view(), program_id@) == Some((key@, bump)),
            None => program_address_search(seeds.deep_view(), program_id@) is None,
        },
{
    let seed_slices: Vec<&[u8]> = seeds.iter().map(|s| s.as_slice()).collect();
    let id = anchor_lang::prelude::Pubkey::new_from_array(program_id.bytes);
    anchor_lang::prelude::Pubkey::try_find_program_address(&seed_slices, &id)
        .map(|(key, bump)| (Pubkey { bytes: key.to_bytes() }, bump))
}

/// Reads the constant `LAMPORTS_PER_SOL` of `solana_program` (through
/// `anchor_lang`). Claimed: it is one billion, as its source states.
#[verifier::external_body]
pub(crate) fn lamports_per_sol() -> (r: u64)
    ensures
        r == 1_000_000_000,
{
    anchor_lang::solana_program::native_token::LAMPORTS_PER_SOL
}

/// Calls `Itertools::tuples` of `itertools` on the keys, grouped by four.
/// Claimed, as its documentation says: the groups are the consecutive runs of
/// four keys, in order, and keys left over at the end form no group.
#[verifier::external_body]
pub(crate) fn group_by_four(keys: &Vec<Pubkey>) -> (r: Vec<(Pubkey, Pubkey, Pubkey, Pubkey)>)
    ensures
        r@.len() == keys@.len() / 4,
        forall|i: int|
            0 <= i < r@.len() ==> #[trigger] r@[i] == (
                keys@[4 * i],
                keys@[4 * i + 1],
                keys@[4 * i + 2],
                keys@[4 * i + 3],
            ),
{
    keys.iter().copied().tuples::<(Pubkey, Pubkey, Pubkey, Pubkey)>().collect()
}

} // verus!

//! What an instruction reads of the token accounts handed to it, and the
//! calls into other programs that it asks for.

use vstd::prelude::*;
use crate::pubkey::Pubkey;

verus! {

/// What the instructions read of an SPL token account.
#[derive(Clone, Copy, Debug)]
pub struct TokenAccount {
    /// The address of the token account itself.
    pub key: Pubkey,
    pub mint: Pubkey,
    pub owner: Pubkey,
    /// Whether the account holds wrapped SOL.
    pub is_native: bool,
}

/// The program-derived address that signs a call, if any.
#[derive(Clone, Copy, Debug, PartialEq, Eq)]
pub enum SignerSeeds {
    /// No program-derived address signs.
    Unsigned,
    /// `["vestment", vestment_mint]`: the account that holds the vested tokens.
    VestedTokens,
    /// `["sol", vestment_data]`: the account that holds vested lamports.
    SolAccount,
    /// `["nft-vesting", "vested-nfts", nft_vesting_data]`: the owner of the vested NFTs.
    VestedNftsOwner,
    /// `["nft-record", nft_mint, nft_vesting_data, bump]`: a new NFT record account.
    NftRecord { bump: u8 },
}

/// A call into the token program or the system program.
#[derive(Clone, Debug, PartialEq, Eq)]
pub enum CpiAction {
    /// Move `amount` tokens between token accounts.
    TokenTransfer { from: Pubkey, to: Pubkey, authority: Pubkey, amount: u64, signer: SignerSeeds },
    /// Move `lamports` between system accounts.
    SystemTransfer { from: Pubkey, to: Pubkey, lamports: u64, signer: SignerSeeds },
    /// Close a token account and send its rent to `destination`.
    CloseAccount { account: Pubkey, destination: Pubkey, authority: Pubkey, signer: SignerSeeds },
    /// Bring the token balance of a wrapped-SOL account in line with its lamports.
    SyncNative { account: Pubkey },
    /// Create an account of `space` bytes owned by `owner`, paid by `payer`,
    /// funded with the rent-exempt minimum for that size.
    CreateAccount { payer: Pubkey, new_account: Pubkey, space: u64, owner: Pubkey, signer: SignerSeeds },
    /// Fill the data of an account with `data`.
    WriteData { account: Pubkey, data: Vec<u8> },
}

} // verus!

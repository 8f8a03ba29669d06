//! The errors that the vesting instructions answer with.

use vstd::prelude::*;

verus! {

/// Why a vesting instruction was refused.
#[derive(Clone, Copy, Debug, PartialEq, Eq, Structural)]
pub enum VestmenErrors {
    WrongTokenAccMint,
    WrongOwner,
    TokenTransferFailure,
    WrongClaimAuthority,
    WrongDestinationMint,
    VestmentNotStarted,
    TokensClaimed,
    WrongCancelAuthority,
    NftRecordAlredyInitialized,
    MissingCliffPeriod,
    MissingDedicatedConsumers,
}

/// The message that goes with each error.
pub open spec fn error_message(e: VestmenErrors) -> Seq<char> {
    match e {
        VestmenErrors::WrongTokenAccMint => "Wrong token account mint"@,
        VestmenErrors::WrongOwner => "Wrong token account owner"@,
        VestmenErrors::TokenTransferFailure => "Token transfer failed"@,
        VestmenErrors::WrongClaimAuthority => "Wrong claim authority"@,
        VestmenErrors::WrongDestinationMint => "Wrong destination account mint"@,
        VestmenErrors::VestmentNotStarted => "Vestment not started yet!"@,
        VestmenErrors::TokensClaimed => "All tokens already claimed"@,
        VestmenErrors::WrongCancelAuthority => "Not allowed to cancel vesting"@,
        VestmenErrors::NftRecordAlredyInitialized => "Account already initialized"@,
        VestmenErrors::MissingCliffPeriod => "Missing data about cliff period"@,
        VestmenErrors::MissingDedicatedConsumers => "Missing data about dedicated consumers"@,
    }
}

impl VestmenErrors {
    /// The human-readable message of this error.
    pub fn message(&self) -> (r: &'static str)
        ensures
            r@ == error_message(*self),
    {
        match self {
            VestmenErrors::WrongTokenAccMint => "Wrong token account mint",
            VestmenErrors::WrongOwner => "Wrong token account owner",
            VestmenErrors::TokenTransferFailure => "Token transfer failed",
            VestmenErrors::WrongClaimAuthority => "Wrong claim authority",
            VestmenErrors::WrongDestinationMint => "Wrong destination account mint",
            VestmenErrors::VestmentNotStarted => "Vestment not started yet!",
            VestmenErrors::TokensClaimed => "All tokens already claimed",
            VestmenErrors::WrongCancelAuthority => "Not allowed to cancel vesting",
            VestmenErrors::NftRecordAlredyInitialized => "Account already initialized",
            VestmenErrors::MissingCliffPeriod => "Missing data about cliff period",
            VestmenErrors::MissingDedicatedConsumers => "Missing data about dedicated consumers",
        }
    }
}

} // verus!

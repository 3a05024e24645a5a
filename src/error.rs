//! Errors of the pack program, each with a stable numeric code.
use vstd::prelude::*;

verus! {

/// Errors that may be returned by the NFT packs program.
#[derive(Clone, Copy, Debug, PartialEq, Eq, Structural)]
pub enum NFTPacksError {
    /// Total packs amount should be more then 0
    WrongTotalPacksAmount,
    /// Proved vouchers mismatch pack vouchers
    ProvedVouchersMismatchPackVouchers,
    /// Pack is already open
    PackIsAlreadyOpen,
    /// NFT pack set not fully configured
    PackSetNotConfigured,
    /// NFT pack set is already activated
    PackAlreadyActivated,
    /// NFT pack set is already deactivated
    PackAlreadyDeactivated,
    /// Pack set should be activated
    PackSetNotActivated,
    /// Proving process for this pack is completed
    ProvingPackProcessCompleted,
    /// Proving process for this voucher is completed
    ProvingVoucherProcessCompleted,
    /// Received edition from wrong master
    WrongEdition,
    /// Received wrong edition mint
    WrongEditionMint,
    /// Overflow
    Overflow,
    /// Underflow
    Underflow,
    /// Pack set should be empty to delete it
    NotEmptyPackSet,
    /// Wrong pack state to change data
    WrongPackState,
    /// Pack set is immutable
    ImmutablePackSet,
    /// Total packs can't be less then pack cards amount
    SmallTotalPacksAmount,
    /// Can't set the same value
    CantSetTheSameValue,
    /// Wrong pack card received
    WrongPackCard,
    /// Wrong pack voucher received
    WrongPackVoucher,
    /// Max supply can't be less then current supply
    SmallMaxSupply,
    /// Number NFTs to open pack should be greater then zero
    WrongNumberToOpen,
    /// Voucher token is held neither by the user nor by a funded delegate
    WrongVoucherOwner,
    /// Current time lies outside the redemption window
    WrongRedeemDate,
    /// User already redeemed every card allowed
    UserRedeemedAllCards,
    /// Account key differs from the expected (derived) address
    WrongAccountKey,
    /// Account is owned by another program
    IncorrectOwner,
    /// A required signature is missing
    MissingSigner,
    /// Account balance is below the rent-exemption minimum
    NotRentExempt,
    /// Account data does not decode to the expected record
    InvalidAccountData,
    /// Account record is not initialized
    UninitializedAccount,
    /// No address could be derived from the given seeds
    InvalidSeeds,
}

impl NFTPacksError {
    /// The stable numeric code of each error: its position in the enumeration.
    pub open spec fn spec_code(self) -> u32 {
        match self {
            NFTPacksError::WrongTotalPacksAmount => 0,
            NFTPacksError::ProvedVouchersMismatchPackVouchers => 1,
            NFTPacksError::PackIsAlreadyOpen => 2,
            NFTPacksError::PackSetNotConfigured => 3,
            NFTPacksError::PackAlreadyActivated => 4,
            NFTPacksError::PackAlreadyDeactivated => 5,
            NFTPacksError::PackSetNotActivated => 6,
            NFTPacksError::ProvingPackProcessCompleted => 7,
            NFTPacksError::ProvingVoucherProcessCompleted => 8,
            NFTPacksError::WrongEdition => 9,
            NFTPacksError::WrongEditionMint => 10,
            NFTPacksError::Overflow => 11,
            NFTPacksError::Underflow => 12,
            NFTPacksError::NotEmptyPackSet => 13,
            NFTPacksError::WrongPackState => 14,
            NFTPacksError::ImmutablePackSet => 15,
            NFTPacksError::SmallTotalPacksAmount => 16,
            NFTPacksError::CantSetTheSameValue => 17,
            NFTPacksError::WrongPackCard => 18,
            NFTPacksError::WrongPackVoucher => 19,
            NFTPacksError::SmallMaxSupply => 20,
            NFTPacksError::WrongNumberToOpen => 21,
            NFTPacksError::WrongVoucherOwner => 22,
            NFTPacksError::WrongRedeemDate => 23,
            NFTPacksError::UserRedeemedAllCards => 24,
            NFTPacksError::WrongAccountKey => 25,
            NFTPacksError::IncorrectOwner => 26,
            NFTPacksError::MissingSigner => 27,
            NFTPacksError::NotRentExempt => 28,
            NFTPacksError::InvalidAccountData => 29,
            NFTPacksError::UninitializedAccount => 30,
            NFTPacksError::InvalidSeeds => 31,
        }
    }

    /// Numeric code surfaced to the caller.
    pub fn code(&self) -> (r: u32)
        ensures
            r == self.spec_code(),
    {
        match self {
            NFTPacksError::WrongTotalPacksAmount => 0,
            NFTPacksError::ProvedVouchersMismatchPackVouchers => 1,
            NFTPacksError::PackIsAlreadyOpen => 2,
            NFTPacksError::PackSetNotConfigured => 3,
            NFTPacksError::PackAlreadyActivated => 4,
            NFTPacksError::PackAlreadyDeactivated => 5,
            NFTPacksError::PackSetNotActivated => 6,
            NFTPacksError::ProvingPackProcessCompleted => 7,
            NFTPacksError::ProvingVoucherProcessCompleted => 8,
            NFTPacksError::WrongEdition => 9,
            NFTPacksError::WrongEditionMint => 10,
            NFTPacksError::Overflow => 11,
            NFTPacksError::Underflow => 12,
            NFTPacksError::NotEmptyPackSet => 13,
            NFTPacksError::WrongPackState => 14,
            NFTPacksError::ImmutablePackSet => 15,
            NFTPacksError::SmallTotalPacksAmount => 16,
            NFTPacksError::CantSetTheSameValue => 17,
            NFTPacksError::WrongPackCard => 18,
            NFTPacksError::WrongPackVoucher => 19,
            NFTPacksError::SmallMaxSupply => 20,
            NFTPacksError::WrongNumberToOpen => 21,
            NFTPacksError::WrongVoucherOwner => 22,
            NFTPacksError::WrongRedeemDate => 23,
            NFTPacksError::UserRedeemedAllCards => 24,
            NFTPacksError::WrongAccountKey => 25,
            NFTPacksError::IncorrectOwner => 26,
            NFTPacksError::MissingSigner => 27,
            NFTPacksError::NotRentExempt => 28,
            NFTPacksError::InvalidAccountData => 29,
            NFTPacksError::UninitializedAccount => 30,
            NFTPacksError::InvalidSeeds => 31,
        }
    }

    /// Human-readable description of the error.
    pub fn message(&self) -> (r: &'static str) {
        match self {
            NFTPacksError::WrongTotalPacksAmount => "Total packs amount should be more then 0",
            NFTPacksError::ProvedVouchersMismatchPackVouchers => "Proved vouchers mismatch pack vourchers",
            NFTPacksError::PackIsAlreadyOpen => "Pack is already open",
            NFTPacksError::PackSetNotConfigured => "NFT pack set not fully configured",
            NFTPacksError::PackAlreadyActivated => "NFT pack set already activated",
            NFTPacksError::PackAlreadyDeactivated => "NFT pack set already deactivated",
            NFTPacksError::PackSetNotActivated => "Pack set should be activated",
            NFTPacksError::ProvingPackProcessCompleted => "Proving process for this pack is completed",
            NFTPacksError::ProvingVoucherProcessCompleted => "Proving process for this voucher is completed",
            NFTPacksError::WrongEdition => "Received edition from wrong master",
            NFTPacksError::WrongEditionMint => "Received wrong edition mint",
            NFTPacksError::Overflow => "Overflow",
            NFTPacksError::Underflow => "Underflow",
            NFTPacksError::NotEmptyPackSet => "Pack set should be empty to delete it",
            NFTPacksError::WrongPackState => "Wrong pack state to change data",
            NFTPacksError::ImmutablePackSet => "Pack set is immutable",
            NFTPacksError::SmallTotalPacksAmount => "Total packs can't be less then pack cards amount",
            NFTPacksError::CantSetTheSameValue => "Can't set the same value",
            NFTPacksError::WrongPackCard => "Wrong pack card received",
            NFTPacksError::WrongPackVoucher => "Wrong pack voucher received",
            NFTPacksError::SmallMaxSupply => "Max supply can't be less then current supply",
            NFTPacksError::WrongNumberToOpen => "Number NFTs to open pack should be greater then zero",
            NFTPacksError::WrongVoucherOwner => "Voucher token is not held by the user",
            NFTPacksError::WrongRedeemDate => "Wrong redeem date",
            NFTPacksError::UserRedeemedAllCards => "User already redeemed all allowed cards",
            NFTPacksError::WrongAccountKey => "Account key mismatch",
            NFTPacksError::IncorrectOwner => "Account has an incorrect owner",
            NFTPacksError::MissingSigner => "Missing required signature",
            NFTPacksError::NotRentExempt => "Account is not rent exempt",
            NFTPacksError::InvalidAccountData => "Invalid account data",
            NFTPacksError::UninitializedAccount => "Account is not initialized",
            NFTPacksError::InvalidSeeds => "No valid address for the given seeds",
        }
    }
}

} // verus!

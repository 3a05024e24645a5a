//! Instruction arguments and the instruction set of the pack program.
use crate::enums::{ActionOnProve, DistributionType};
use vstd::prelude::*;

verus! {

/// Arguments of registering a card.
#[derive(Clone, Copy, Debug, PartialEq, Eq)]
pub struct AddCardToPackArgs {
    /// How many instances of this card will exists in all packs
    pub max_supply: Option<u32>,
    /// Fixed number / probability-based
    pub probability_type: DistributionType,
    /// Based on above property it's fixed number to receive or probability
    pub probability: u64,
    /// Index
    pub index: u32,
}

/// Arguments of registering a voucher.
#[derive(Clone, Copy, Debug, PartialEq, Eq)]
pub struct AddVoucherToPackArgs {
    /// How many instances of this voucher will exists in all packs
    pub max_supply: Option<u32>,
    /// How many vouchers of this type is required to open a pack
    pub number_to_open: u32,
    /// Burn / Redeem
    pub action_on_prove: ActionOnProve,
}

/// Initialize a PackSet arguments
#[derive(Clone, Copy, Debug, PartialEq, Eq)]
pub struct InitPackSetArgs {
    /// Name
    pub name: [u8; 32],
    /// How many packs are available for redeeming
    pub total_packs: u32,
    /// If true authority can make changes at deactivated phase
    pub mutable: bool,
}

/// Edit a PackSet arguments
#[derive(Clone, Copy, Debug, PartialEq, Eq)]
pub struct EditPackSetArgs {
    /// Name
    pub name: Option<[u8; 32]>,
    /// How many packs are available for redeeming
    pub total_packs: Option<u32>,
    /// If true authority can make changes at deactivated phase
    pub mutable: Option<bool>,
}

/// Edit a PackCard arguments
#[derive(Clone, Copy, Debug, PartialEq, Eq)]
pub struct EditPackCardArgs {
    /// How many instances of this card exists in all packs
    pub max_supply: Option<u32>,
    /// Fixed number / probability-based
    pub distribution_type: Option<DistributionType>,
    /// Average number of cards in pack multiplied by 10^9 and truncated
    pub number_in_pack: Option<u64>,
}

/// Edit a PackVoucher arguments
#[derive(Clone, Copy, Debug, PartialEq, Eq)]
pub struct EditPackVoucherArgs {
    /// How many instances of this card exists in all packs
    pub max_supply: Option<u32>,
    /// How many vouchers of this type is required to open a pack
    pub number_to_open: Option<u32>,
    /// Burn / redeem
    pub action_on_prove: Option<ActionOnProve>,
}

/// Instruction definition
#[derive(Clone, Copy, Debug, PartialEq, Eq)]
pub enum NFTPacksInstruction {
    /// Initialize a created pack set account.
    InitPack(InitPackSetArgs),
    /// Register a card at `[pack, "card", index]`.
    AddCardToPack(AddCardToPackArgs),
    /// Register a voucher at `[pack, "voucher", index]`.
    AddVoucherToPack(AddVoucherToPackArgs),
    /// Activate the pack: close it for changes and open it to users.
    Activate,
    /// Deactivate the pack: forbid proving and claiming.
    Deactivate,
    /// Prove ownership of one voucher edition.
    ProveOwnership,
    /// Draw the card at the proving record's index.
    ClaimPack,
    /// Change pack authority.
    TransferPackAuthority,
    /// Change minting authority.
    TransferMintingAuthority,
    /// Delete an empty pack.
    DeletePack,
    /// Delete a card and return its master token.
    DeletePackCard,
    /// Delete a voucher and return its master token.
    DeletePackVoucher,
    /// Edit pack data.
    EditPack(EditPackSetArgs),
    /// Edit card data.
    EditPackCard(EditPackCardArgs),
    /// Edit voucher data.
    EditPackVoucher(EditPackVoucherArgs),
    /// Mint new editions from a card's master edition.
    MintEditionWithCard,
    /// Mint new editions from a voucher's master edition.
    MintEditionWithVoucher,
}

} // verus!

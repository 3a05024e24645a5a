//! Claim engine: the probability of a draw under each distribution policy,
//! the supply bookkeeping it implies, and the decision of a single draw
//! against a random value.
use crate::address::{
    assert_account_key, assert_owned_by, assert_pack_card_address, assert_proving_process_address, assert_signer,
    card_seeds, derivation_error, derived_address_of, proving_seeds, AccountInfo, Address,
};
use crate::enums::{PackDistributionType, PackSetState};
use crate::error::NFTPacksError;
use crate::math::{error_div_u128, error_increment_u32, error_increment_u64, error_mul_u128};
use crate::metadata::{master_edition_supply, master_edition_valid, metadata_mint, metadata_mint_of};
use crate::codec::u64_from;
use crate::pack_card::PackCard;
use crate::pack_set::PackSet;
use crate::proving_process::ProvingProcess;
use crate::token::{token_account_valid, token_holding_of, TokenHolding};
use vstd::prelude::*;

verus! {

/// Scale of a probability: a draw with probability `p` succeeds when the
/// random value is at most `p`, so `PROBABILITY_SCALE` is certain success.
pub const PROBABILITY_SCALE: u128 = 65535;

/// `numerator * 65535 / denominator`, or `Overflow` when the denominator is zero.
pub open spec fn spec_scaled_ratio(numerator: u64, denominator: u64) -> Result<u128, NFTPacksError> {
    if denominator == 0 {
        Err(NFTPacksError::Overflow)
    } else {
        Ok(((numerator * 65535) / denominator as int) as u128)
    }
}

/// Edition supply a card contributes under the MaxSupply policy; a card with
/// no maximum contributes nothing.
pub open spec fn spec_card_max_supply(card: PackCard) -> u64 {
    match card.max_supply {
        Some(m) => m as u64,
        None => 0,
    }
}

/// Both remaining supplies, each less one: the pack's redeemable supply and
/// the card's current supply; `Underflow` when either is exhausted.
pub open spec fn spec_take_one(pack: PackSet, card: PackCard) -> Result<(PackSet, PackCard), NFTPacksError> {
    if pack.total_packs == 0 || card.current_supply == 0 {
        Err(NFTPacksError::Underflow)
    } else {
        Ok(
            (
                PackSet { total_packs: (pack.total_packs - 1) as u32, ..pack },
                PackCard { current_supply: (card.current_supply - 1) as u32, ..card },
            ),
        )
    }
}

/// A probability computed from `ratio`, with the records after supply is
/// taken (or left, when `take` is false).
pub open spec fn spec_with_supply(
    ratio: Result<u128, NFTPacksError>,
    pack: PackSet,
    card: PackCard,
    take: bool,
) -> Result<(u128, PackSet, PackCard), NFTPacksError> {
    match ratio {
        Err(e) => Err(e),
        Ok(probability) => if !take {
            Ok((probability, pack, card))
        } else {
            match spec_take_one(pack, card) {
                Err(e) => Err(e),
                Ok(t) => Ok((probability, t.0, t.1)),
            }
        },
    }
}

/// Fixed policy: the card's weight over the pack's total weight, taking one
/// from both supplies.
pub open spec fn spec_fixed_probability(pack: PackSet, card: PackCard) -> Result<(u128, PackSet, PackCard), NFTPacksError> {
    spec_with_supply(spec_scaled_ratio(card.number_in_pack, pack.total_weight), pack, card, true)
}

/// MaxSupply policy: the card's maximum supply over the pack's total editions,
/// taking one from both supplies.
pub open spec fn spec_max_supply_probability(pack: PackSet, card: PackCard) -> Result<(u128, PackSet, PackCard), NFTPacksError> {
    spec_with_supply(spec_scaled_ratio(spec_card_max_supply(card), pack.total_editions), pack, card, true)
}

/// Unlimited policy: the card's weight over the pack's total weight, taking
/// no supply.
pub open spec fn spec_unlimited_probability(pack: PackSet, card: PackCard) -> Result<(u128, PackSet, PackCard), NFTPacksError> {
    spec_with_supply(spec_scaled_ratio(card.number_in_pack, pack.total_weight), pack, card, false)
}

/// Probability of a draw of `card` in `pack` under the pack's policy, and the
/// pack and card after it.
pub open spec fn spec_card_probability(pack: PackSet, card: PackCard) -> Result<(u128, PackSet, PackCard), NFTPacksError> {
    match pack.distribution_type {
        PackDistributionType::Fixed => spec_fixed_probability(pack, card),
        PackDistributionType::MaxSupply => spec_max_supply_probability(pack, card),
        PackDistributionType::Unlimited => spec_unlimited_probability(pack, card),
    }
}

/// The contract of the three policy functions and of their dispatch: the
/// probability is returned and both records take their new values, or the
/// error is returned and neither record changes.
pub open spec fn probability_outcome(
    r: Result<u128, NFTPacksError>,
    old_pack: PackSet,
    old_card: PackCard,
    new_pack: PackSet,
    new_card: PackCard,
    expected: Result<(u128, PackSet, PackCard), NFTPacksError>,
) -> bool {
    match expected {
        Ok(t) => r == Ok::<u128, NFTPacksError>(t.0) && new_pack == t.1 && new_card == t.2,
        Err(e) => r == Err::<u128, NFTPacksError>(e) && new_pack == old_pack && new_card == old_card,
    }
}

fn scaled_ratio(numerator: u64, denominator: u64) -> (r: Result<u128, NFTPacksError>)
    ensures
        r == spec_scaled_ratio(numerator, denominator),
{
    proof {
        assert(numerator * 65535 <= u128::MAX) by (nonlinear_arith)
            requires
                numerator <= u64::MAX,
        ;
    }
    let scaled = error_mul_u128(numerator as u128, PROBABILITY_SCALE)?;
    error_div_u128(scaled, denominator as u128)
}

fn take_one_from_both(pack_set: &mut PackSet, pack_card: &mut PackCard) -> (r: Result<(), NFTPacksError>)
    ensures
        (old(pack_set).total_packs == 0 || old(pack_card).current_supply == 0) ==> r == Err::<(), NFTPacksError>(
            NFTPacksError::Underflow,
        ) && *final(pack_set) == *old(pack_set) && *final(pack_card) == *old(pack_card),
        (old(pack_set).total_packs > 0 && old(pack_card).current_supply > 0) ==> r is Ok && *final(pack_set) == (PackSet {
            total_packs: (old(pack_set).total_packs - 1) as u32,
            ..*old(pack_set)
        }) && *final(pack_card) == (PackCard { current_supply: (old(pack_card).current_supply - 1) as u32, ..*old(pack_card) }),
{
    let mut pack = *pack_set;
    pack.decrement_supply()?;
    let mut card = *pack_card;
    card.decrement_supply()?;
    *pack_set = pack;
    *pack_card = card;
    Ok(())
}

/// Probability under the Fixed policy: the card's weight over the pack's
/// total weight; one edition is taken from both supplies.
pub fn count_fixed_probability(pack_set: &mut PackSet, pack_card: &mut PackCard) -> (r: Result<u128, NFTPacksError>)
    ensures
        probability_outcome(r, *old(pack_set), *old(pack_card), *final(pack_set), *final(pack_card), spec_fixed_probability(*old(pack_set), *old(pack_card))),
{
    let probability = scaled_ratio(pack_card.number_in_pack, pack_set.total_weight)?;
    take_one_from_both(pack_set, pack_card)?;
    Ok(probability)
}

/// Probability under the MaxSupply policy: the card's maximum supply over the
/// pack's total editions; one edition is taken from both supplies.
pub fn count_max_supply_probability(pack_set: &mut PackSet, pack_card: &mut PackCard) -> (r: Result<u128, NFTPacksError>)
    ensures
        probability_outcome(r, *old(pack_set), *old(pack_card), *final(pack_set), *final(pack_card), spec_max_supply_probability(*old(pack_set), *old(pack_card))),
{
    let max_supply: u64 = match pack_card.max_supply {
        Some(m) => m as u64,
        None => 0,
    };
    let probability = scaled_ratio(max_supply, pack_set.total_editions)?;
    take_one_from_both(pack_set, pack_card)?;
    Ok(probability)
}

/// Probability under the Unlimited policy: the card's weight over the pack's
/// total weight; no supply is taken.
pub fn count_unlimited_probability(pack_set: &mut PackSet, pack_card: &mut PackCard) -> (r: Result<u128, NFTPacksError>)
    ensures
        probability_outcome(r, *old(pack_set), *old(pack_card), *final(pack_set), *final(pack_card), spec_unlimited_probability(*old(pack_set), *old(pack_card))),
{
    scaled_ratio(pack_card.number_in_pack, pack_set.total_weight)
}

/// Probability of drawing `pack_card`, under the pack's distribution policy.
pub fn get_card_probability(pack_set: &mut PackSet, pack_card: &mut PackCard) -> (r: Result<u128, NFTPacksError>)
    ensures
        probability_outcome(r, *old(pack_set), *old(pack_card), *final(pack_set), *final(pack_card), spec_card_probability(*old(pack_set), *old(pack_card))),
{
    match pack_set.distribution_type {
        PackDistributionType::Fixed => count_fixed_probability(pack_set, pack_card),
        PackDistributionType::MaxSupply => count_max_supply_probability(pack_set, pack_card),
        PackDistributionType::Unlimited => count_unlimited_probability(pack_set, pack_card),
    }
}

/// What a claim call leaves behind when it succeeds.
#[derive(Clone, Copy, Debug, PartialEq, Eq)]
pub struct ClaimOutcome {
    /// The proving record to store; its `next_card_to_redeem` is always zero
    pub proving_process: ProvingProcess,
    /// The pack to store
    pub pack_set: PackSet,
    /// The card to store
    pub pack_card: PackCard,
    /// Number of the edition to mint into the user's token account, when the draw succeeded
    pub mint_edition: Option<u64>,
}

/// A single draw once the accounts are validated: the pack must be activated,
/// `now` inside the redemption window and the user under the allowance. The
/// card index is then cleared; a card with no supply left (under a policy
/// other than Unlimited) is a miss that changes nothing else; otherwise the
/// draw succeeds when `random_value` is at most the probability, and then one
/// more card counts as redeemed and the edition after `master_edition_supply`
/// is minted.
pub open spec fn spec_redeem(
    pack: PackSet,
    p: ProvingProcess,
    card: PackCard,
    now: u64,
    random_value: u16,
    master_edition_supply: u64,
) -> Result<ClaimOutcome, NFTPacksError> {
    if pack.pack_state != PackSetState::Activated {
        Err(NFTPacksError::PackSetNotActivated)
    } else if now < pack.redeem_start_date {
        Err(NFTPacksError::WrongRedeemDate)
    } else if pack.redeem_end_date is Some && now > pack.redeem_end_date->Some_0 {
        Err(NFTPacksError::WrongRedeemDate)
    } else if p.cards_redeemed >= pack.allowed_amount_to_redeem {
        Err(NFTPacksError::UserRedeemedAllCards)
    } else {
        let guarded = ProvingProcess { next_card_to_redeem: 0, ..p };
        if pack.distribution_type != PackDistributionType::Unlimited && card.current_supply == 0 {
            Ok(ClaimOutcome { proving_process: guarded, pack_set: pack, pack_card: card, mint_edition: None })
        } else {
            match spec_card_probability(pack, card) {
                Err(e) => Err(e),
                Ok(t) => if random_value as u128 <= t.0 {
                    if master_edition_supply == u64::MAX {
                        Err(NFTPacksError::Overflow)
                    } else {
                        Ok(
                            ClaimOutcome {
                                proving_process: ProvingProcess {
                                    cards_redeemed: (p.cards_redeemed + 1) as u32,
                                    ..guarded
                                },
                                pack_set: t.1,
                                pack_card: t.2,
                                mint_edition: Some((master_edition_supply + 1) as u64),
                            },
                        )
                    }
                } else {
                    Ok(ClaimOutcome { proving_process: guarded, pack_set: t.1, pack_card: t.2, mint_edition: None })
                },
            }
        }
    }
}

/// Decides a single draw of `pack_card` for the user of `proving_process`.
pub fn redeem_card(
    pack_set: &PackSet,
    proving_process: &ProvingProcess,
    pack_card: &PackCard,
    now: u64,
    random_value: u16,
    master_edition_supply: u64,
) -> (r: Result<ClaimOutcome, NFTPacksError>)
    ensures
        r == spec_redeem(*pack_set, *proving_process, *pack_card, now, random_value, master_edition_supply),
{
    pack_set.assert_activated()?;
    if now < pack_set.redeem_start_date {
        return Err(NFTPacksError::WrongRedeemDate);
    }
    if let Some(end) = pack_set.redeem_end_date {
        if now > end {
            return Err(NFTPacksError::WrongRedeemDate);
        }
    }
    if proving_process.cards_redeemed >= pack_set.allowed_amount_to_redeem {
        return Err(NFTPacksError::UserRedeemedAllCards);
    }
    // Cleared before anything is computed, so that one authorization can
    // never be counted for two draws.
    let mut proving = *proving_process;
    proving.next_card_to_redeem = 0;
    let mut pack = *pack_set;
    let mut card = *pack_card;
    if pack.distribution_type != PackDistributionType::Unlimited && card.current_supply == 0 {
        return Ok(ClaimOutcome { proving_process: proving, pack_set: pack, pack_card: card, mint_edition: None });
    }
    let probability = get_card_probability(&mut pack, &mut card)?;
    if random_value as u128 <= probability {
        let edition = error_increment_u64(master_edition_supply)?;
        proving.cards_redeemed = error_increment_u32(proving.cards_redeemed)?;
        Ok(ClaimOutcome { proving_process: proving, pack_set: pack, pack_card: card, mint_edition: Some(edition) })
    } else {
        Ok(ClaimOutcome { proving_process: proving, pack_set: pack, pack_card: card, mint_edition: None })
    }
}

/// The accounts of a claim call that the pack logic reads.
#[derive(Clone, Debug)]
pub struct ClaimPackAccounts {
    /// Pack set
    pub pack_set: AccountInfo,
    /// Proving record of the user
    pub proving_process: AccountInfo,
    /// User wallet (signer)
    pub user_wallet: AccountInfo,
    /// User token account of the voucher mint bound in the proving record
    pub user_voucher_token: AccountInfo,
    /// Card to draw
    pub pack_card: AccountInfo,
    /// Randomness oracle
    pub randomness_oracle: AccountInfo,
    /// Metadata record of the card's master edition
    pub metadata: AccountInfo,
    /// Mint of the card's master edition
    pub metadata_mint: AccountInfo,
    /// Master edition record of the card
    pub master_edition: AccountInfo,
}

/// Checks once pack and proving record are loaded: the voucher token, the
/// card index, the card at its derived address, and the metadata and master
/// edition to mint from; then the draw.
pub open spec fn spec_claim_card(
    program_id: Address,
    a: ClaimPackAccounts,
    pack: PackSet,
    p: ProvingProcess,
    now: u64,
    random_value: u16,
) -> Result<ClaimOutcome, NFTPacksError> {
    if !token_account_valid(a.user_voucher_token.data@) {
        Err(NFTPacksError::InvalidAccountData)
    } else if token_holding_of(a.user_voucher_token.data@).mint@ != p.voucher_mint@ {
        Err(NFTPacksError::WrongEditionMint)
    } else if !token_holding_of(a.user_voucher_token.data@).spec_held_by(a.user_wallet.key@) {
        Err(NFTPacksError::WrongVoucherOwner)
    } else if p.next_card_to_redeem == 0 {
        Err(NFTPacksError::WrongPackCard)
    } else {
        match derivation_error(
            derived_address_of(program_id@, card_seeds(a.pack_set.key@, p.next_card_to_redeem)),
            a.pack_card.key@,
        ) {
            Some(e) => Err(e),
            None => match PackCard::spec_unpack_checked(a.pack_card.data@) {
                Err(e) => Err(e),
                Ok(card) => if card.pack_set@ != a.pack_set.key@ {
                    Err(NFTPacksError::WrongAccountKey)
                } else if a.metadata.data@.len() == 0 || metadata_mint_of(a.metadata.data@) is None {
                    Err(NFTPacksError::InvalidAccountData)
                } else if !master_edition_valid(a.master_edition.data@) {
                    Err(NFTPacksError::InvalidAccountData)
                } else if a.metadata_mint.key@ != metadata_mint_of(a.metadata.data@)->Some_0 {
                    Err(NFTPacksError::WrongAccountKey)
                } else {
                    spec_redeem(pack, p, card, now, random_value, u64_from(a.master_edition.data@.subrange(1, 9)))
                },
            },
        }
    }
}

/// The whole claim call: oracle owner, signer, record owners, pack and
/// proving record at their addresses, then the card checks and the draw.
pub open spec fn spec_claim_pack(
    program_id: Address,
    oracle_program: Address,
    a: ClaimPackAccounts,
    now: u64,
    random_value: u16,
) -> Result<ClaimOutcome, NFTPacksError> {
    if a.randomness_oracle.owner@ != oracle_program@ {
        Err(NFTPacksError::IncorrectOwner)
    } else if !a.user_wallet.is_signer {
        Err(NFTPacksError::MissingSigner)
    } else if a.pack_set.owner@ != program_id@ || a.proving_process.owner@ != program_id@ || a.pack_card.owner@
        != program_id@ {
        Err(NFTPacksError::IncorrectOwner)
    } else {
        match PackSet::spec_unpack_checked(a.pack_set.data@) {
            Err(e) => Err(e),
            Ok(pack) => match ProvingProcess::spec_unpack_checked(a.proving_process.data@) {
                Err(e) => Err(e),
                Ok(p) => if a.pack_set.key@ != p.pack_set@ {
                    Err(NFTPacksError::WrongAccountKey)
                } else {
                    match derivation_error(
                        derived_address_of(program_id@, proving_seeds(a.pack_set.key@, a.user_wallet.key@)),
                        a.proving_process.key@,
                    ) {
                        Some(e) => Err(e),
                        None => spec_claim_card(program_id, a, pack, p, now, random_value),
                    }
                },
            },
        }
    }
}

fn claim_card(
    program_id: &Address,
    a: &ClaimPackAccounts,
    pack: &PackSet,
    p: &ProvingProcess,
    now: u64,
    random_value: u16,
) -> (r: Result<ClaimOutcome, NFTPacksError>)
    ensures
        r == spec_claim_card(*program_id, *a, *pack, *p, now, random_value),
{
    let token = TokenHolding::unpack(a.user_voucher_token.data.as_slice())?;
    if !token.mint.same_as(&p.voucher_mint) {
        return Err(NFTPacksError::WrongEditionMint);
    }
    token.assert_held_by(&a.user_wallet.key)?;
    let index = p.next_card_to_redeem;
    if index == 0 {
        return Err(NFTPacksError::WrongPackCard);
    }
    assert_pack_card_address(program_id, &a.pack_card.key, &a.pack_set.key, index)?;
    let card = PackCard::unpack(a.pack_card.data.as_slice())?;
    if !card.pack_set.same_as(&a.pack_set.key) {
        return Err(NFTPacksError::WrongAccountKey);
    }
    let mint = metadata_mint(a.metadata.data.as_slice())?;
    let supply = master_edition_supply(a.master_edition.data.as_slice())?;
    if !a.metadata_mint.key.same_as(&mint) {
        return Err(NFTPacksError::WrongAccountKey);
    }
    redeem_card(pack, p, &card, now, random_value, supply)
}

/// Processes one claim: validates the accounts, then draws the card at the
/// proving record's `next_card_to_redeem` against `random_value`, the
/// oracle's value for the current slot, and `now` is the current unix time.
/// On success the three records of the outcome are to be stored and, when
/// `mint_edition` is set, that edition minted to the user.
pub fn claim_pack(
    program_id: &Address,
    oracle_program: &Address,
    accounts: &ClaimPackAccounts,
    now: u64,
    random_value: u16,
) -> (r: Result<ClaimOutcome, NFTPacksError>)
    ensures
        r == spec_claim_pack(*program_id, *oracle_program, *accounts, now, random_value),
{
    assert_owned_by(&accounts.randomness_oracle, oracle_program)?;
    assert_signer(&accounts.user_wallet)?;
    assert_owned_by(&accounts.pack_set, program_id)?;
    assert_owned_by(&accounts.proving_process, program_id)?;
    assert_owned_by(&accounts.pack_card, program_id)?;
    let pack = PackSet::unpack(accounts.pack_set.data.as_slice())?;
    let p = ProvingProcess::unpack(accounts.proving_process.data.as_slice())?;
    assert_account_key(&accounts.pack_set, &p.pack_set)?;
    assert_proving_process_address(
        program_id,
        &accounts.proving_process.key,
        &accounts.pack_set.key,
        &accounts.user_wallet.key,
    )?;
    claim_card(program_id, accounts, &pack, &p, now, random_value)
}

} // verus!

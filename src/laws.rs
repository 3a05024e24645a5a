//! Properties that hold across calls and over every input, proved from the
//! contracts of the proving and claim engines.
use crate::address::{derived_address_of, voucher_seeds, Address};
use crate::claim::{
    spec_card_max_supply, spec_card_probability, spec_claim_pack, spec_redeem, ClaimOutcome, ClaimPackAccounts,
};
use crate::enums::{PackDistributionType, PackSetState};
use crate::error::NFTPacksError;
use crate::pack_card::PackCard;
use crate::pack_set::PackSet;
use crate::pack_voucher::PackVoucher;
use crate::proving::{spec_proving_process_data, spec_prove_ownership, ProveOwnershipAccounts};
use crate::proving_process::ProvingProcess;
use vstd::prelude::*;

verus! {

/// Every successful claim leaves the user's redeemed count within the pack's
/// allowance, and raises it by at most one; so it stays within the allowance
/// over any sequence of successful claims.
pub proof fn lemma_redeemed_within_allowance(
    program_id: Address,
    oracle_program: Address,
    a: ClaimPackAccounts,
    now: u64,
    random_value: u16,
)
    ensures
        spec_claim_pack(program_id, oracle_program, a, now, random_value) is Ok ==> {
            let o = spec_claim_pack(program_id, oracle_program, a, now, random_value)->Ok_0;
            let p = ProvingProcess::spec_unpack_checked(a.proving_process.data@)->Ok_0;
            let pack = PackSet::spec_unpack_checked(a.pack_set.data@)->Ok_0;
            &&& o.proving_process.cards_redeemed <= o.pack_set.allowed_amount_to_redeem
            &&& o.pack_set.allowed_amount_to_redeem == pack.allowed_amount_to_redeem
            &&& p.cards_redeemed <= o.proving_process.cards_redeemed <= p.cards_redeemed + 1
        },
{
}

/// Under the pack's invariants (a card's weight is part of the total weight,
/// its maximum supply part of the total editions) a draw's probability lies
/// in `[0, 65535]`.
pub proof fn lemma_probability_in_range(pack: PackSet, card: PackCard)
    requires
        pack.distribution_type == PackDistributionType::MaxSupply ==> spec_card_max_supply(card)
            <= pack.total_editions,
        pack.distribution_type != PackDistributionType::MaxSupply ==> card.number_in_pack <= pack.total_weight,
    ensures
        spec_card_probability(pack, card) is Ok ==> spec_card_probability(pack, card)->Ok_0.0 <= 65535,
{
    let (n, d) = if pack.distribution_type == PackDistributionType::MaxSupply {
        (spec_card_max_supply(card), pack.total_editions)
    } else {
        (card.number_in_pack, pack.total_weight)
    };
    if d > 0 {
        assert((n * 65535) / (d as int) <= 65535) by (nonlinear_arith)
            requires
                n <= d,
                d > 0,
        ;
    }
}

/// A zero denominator (total weight, or total editions under MaxSupply) makes
/// the probability fail with `Overflow` instead of dividing.
pub proof fn lemma_zero_denominator_fails(pack: PackSet, card: PackCard)
    ensures
        (pack.distribution_type == PackDistributionType::MaxSupply && pack.total_editions == 0) ==> spec_card_probability(
            pack,
            card,
        ) == Err::<(u128, PackSet, PackCard), NFTPacksError>(NFTPacksError::Overflow),
        (pack.distribution_type != PackDistributionType::MaxSupply && pack.total_weight == 0) ==> spec_card_probability(
            pack,
            card,
        ) == Err::<(u128, PackSet, PackCard), NFTPacksError>(NFTPacksError::Overflow),
{
}

/// Vouchers are proved in index order: a proof call succeeds only on the
/// voucher account derived for index `proved_vouchers + 1` of the user's
/// proving record, and raises `proved_vouchers` by at most one.
pub proof fn lemma_vouchers_proved_in_order(
    program_id: Address,
    metadata_program: Address,
    a: ProveOwnershipAccounts,
    minimum_balance: u64,
)
    ensures
        spec_prove_ownership(program_id, metadata_program, a, minimum_balance) is Ok ==> {
            let o = spec_prove_ownership(program_id, metadata_program, a, minimum_balance)->Ok_0;
            let loaded = spec_proving_process_data(
                a.proving_process.data@,
                a.proving_process.lamports,
                a.user_wallet.key,
                a.pack_set.key,
                a.edition_mint.key,
                minimum_balance,
            );
            let p = loaded->Ok_0;
            let found = derived_address_of(program_id@, voucher_seeds(a.pack_set.key@, (p.proved_vouchers + 1) as u32));
            &&& loaded is Ok
            &&& p.proved_vouchers < u32::MAX
            &&& found is Some
            &&& found->Some_0.0 == a.voucher.key@
            &&& p.proved_vouchers <= o.proving_process.proved_vouchers <= p.proved_vouchers + 1
        },
{
}

/// A voucher account derived for another index than `proved_vouchers + 1`
/// is rejected, whenever its address differs from that of the next index.
pub proof fn lemma_out_of_order_voucher_rejected(
    program_id: Address,
    metadata_program: Address,
    a: ProveOwnershipAccounts,
    minimum_balance: u64,
    p: ProvingProcess,
    k: u32,
)
    requires
        spec_proving_process_data(
            a.proving_process.data@,
            a.proving_process.lamports,
            a.user_wallet.key,
            a.pack_set.key,
            a.edition_mint.key,
            minimum_balance,
        ) == Ok::<ProvingProcess, NFTPacksError>(p),
        k != p.proved_vouchers + 1,
        derived_address_of(program_id@, voucher_seeds(a.pack_set.key@, k)) is Some,
        a.voucher.key@ == derived_address_of(program_id@, voucher_seeds(a.pack_set.key@, k))->Some_0.0,
        p.proved_vouchers < u32::MAX && derived_address_of(
            program_id@,
            voucher_seeds(a.pack_set.key@, (p.proved_vouchers + 1) as u32),
        ) is Some ==> derived_address_of(
            program_id@,
            voucher_seeds(a.pack_set.key@, (p.proved_vouchers + 1) as u32),
        )->Some_0.0 != a.voucher.key@,
    ensures
        spec_prove_ownership(program_id, metadata_program, a, minimum_balance) is Err,
{
    lemma_vouchers_proved_in_order(program_id, metadata_program, a, minimum_balance);
}

/// A claim cannot be replayed: every successful claim stores a proving record
/// whose card index is cleared, and a retried claim on that stored record
/// fails, whatever time and random value it sees.
pub proof fn lemma_retried_claim_fails(
    program_id: Address,
    oracle_program: Address,
    a: ClaimPackAccounts,
    now: u64,
    random_value: u16,
    retry: ClaimPackAccounts,
    retry_now: u64,
    retry_random_value: u16,
)
    requires
        spec_claim_pack(program_id, oracle_program, a, now, random_value) is Ok,
        retry.proving_process.data@ == spec_claim_pack(
            program_id,
            oracle_program,
            a,
            now,
            random_value,
        )->Ok_0.proving_process.spec_pack(),
    ensures
        spec_claim_pack(program_id, oracle_program, a, now, random_value)->Ok_0.proving_process.next_card_to_redeem
            == 0,
        spec_claim_pack(program_id, oracle_program, retry, retry_now, retry_random_value) is Err,
{
    let o = spec_claim_pack(program_id, oracle_program, a, now, random_value)->Ok_0;
    o.proving_process.lemma_round_trip();
}

/// A proof call keeps the proving record's invariants: fewer editions proved
/// than the voucher in progress needs, and no more vouchers proved than the
/// pack has.
pub proof fn lemma_proof_keeps_invariants(
    program_id: Address,
    metadata_program: Address,
    a: ProveOwnershipAccounts,
    minimum_balance: u64,
)
    ensures
        spec_prove_ownership(program_id, metadata_program, a, minimum_balance) is Ok ==> {
            let o = spec_prove_ownership(program_id, metadata_program, a, minimum_balance)->Ok_0;
            let p = spec_proving_process_data(
                a.proving_process.data@,
                a.proving_process.lamports,
                a.user_wallet.key,
                a.pack_set.key,
                a.edition_mint.key,
                minimum_balance,
            )->Ok_0;
            let pack = PackSet::spec_unpack_checked(a.pack_set.data@)->Ok_0;
            let voucher = PackVoucher::spec_unpack_checked(a.voucher.data@)->Ok_0;
            &&& (p.proved_vouchers <= pack.pack_vouchers ==> o.proving_process.proved_vouchers <= pack.pack_vouchers)
            &&& (p.proved_voucher_editions < voucher.number_to_open ==> o.proving_process.proved_voucher_editions
                < voucher.number_to_open)
        },
{
}

/// The draw's own conditions hold: the pack is activated, `now` lies in the
/// redemption window and the user is under the allowance.
pub open spec fn draw_allowed(pack: PackSet, p: ProvingProcess, now: u64) -> bool {
    &&& pack.pack_state == PackSetState::Activated
    &&& pack.redeem_start_date <= now
    &&& (pack.redeem_end_date is Some ==> now <= pack.redeem_end_date->Some_0)
    &&& p.cards_redeemed < pack.allowed_amount_to_redeem
}

/// A card that carries the pack's whole weight is won with certainty under
/// the Fixed and Unlimited policies: its probability is 65535, so every
/// random value wins, one edition is minted and one more card counts as
/// redeemed.
pub proof fn lemma_whole_weight_card_always_wins(
    pack: PackSet,
    p: ProvingProcess,
    card: PackCard,
    now: u64,
    random_value: u16,
    master_edition_supply: u64,
)
    requires
        draw_allowed(pack, p, now),
        pack.distribution_type == PackDistributionType::Fixed || pack.distribution_type
            == PackDistributionType::Unlimited,
        pack.total_weight > 0,
        card.number_in_pack == pack.total_weight,
        pack.distribution_type == PackDistributionType::Fixed ==> card.current_supply > 0 && pack.total_packs > 0,
        master_edition_supply < u64::MAX,
    ensures
        spec_card_probability(pack, card) is Ok,
        spec_card_probability(pack, card)->Ok_0.0 == 65535,
        spec_redeem(pack, p, card, now, random_value, master_edition_supply) is Ok,
        spec_redeem(pack, p, card, now, random_value, master_edition_supply)->Ok_0.mint_edition == Some(
            (master_edition_supply + 1) as u64,
        ),
        spec_redeem(pack, p, card, now, random_value, master_edition_supply)->Ok_0.proving_process.cards_redeemed
            == p.cards_redeemed + 1,
{
    let w = pack.total_weight;
    assert((w * 65535) / (w as int) == 65535) by (nonlinear_arith)
        requires
            w > 0,
    ;
}

/// Under the Fixed and MaxSupply policies a card with no supply left is a
/// miss, not an error: only the card index is cleared, nothing is minted and
/// neither the pack nor the card changes.
pub proof fn lemma_exhausted_card_misses(
    pack: PackSet,
    p: ProvingProcess,
    card: PackCard,
    now: u64,
    random_value: u16,
    master_edition_supply: u64,
)
    requires
        draw_allowed(pack, p, now),
        pack.distribution_type != PackDistributionType::Unlimited,
        card.current_supply == 0,
    ensures
        spec_redeem(pack, p, card, now, random_value, master_edition_supply) == Ok::<ClaimOutcome, NFTPacksError>(
            ClaimOutcome {
                proving_process: ProvingProcess { next_card_to_redeem: 0, ..p },
                pack_set: pack,
                pack_card: card,
                mint_edition: None,
            },
        ),
{
}

/// A claim on an activated pack before its redemption window opens fails
/// with `WrongRedeemDate`, so nothing is stored.
pub proof fn lemma_claim_before_window_fails(
    pack: PackSet,
    p: ProvingProcess,
    card: PackCard,
    now: u64,
    random_value: u16,
    master_edition_supply: u64,
)
    requires
        pack.pack_state == PackSetState::Activated,
        now < pack.redeem_start_date,
    ensures
        spec_redeem(pack, p, card, now, random_value, master_edition_supply) == Err::<ClaimOutcome, NFTPacksError>(
            NFTPacksError::WrongRedeemDate,
        ),
{
}

} // verus!

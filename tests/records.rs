use metaplex_nft_packs::address::Address;
use metaplex_nft_packs::enums::{AccountType, ActionOnProve, DistributionType, PackDistributionType, PackSetState};
use metaplex_nft_packs::error::NFTPacksError;
use metaplex_nft_packs::pack_card::{InitPackCardParams, PackCard, PACK_CARD_LEN};
use metaplex_nft_packs::pack_set::{PackSet, PACK_SET_LEN};
use metaplex_nft_packs::pack_voucher::{PackVoucher, PACK_VOUCHER_LEN};
use metaplex_nft_packs::proving_process::{InitProvingProcessParams, ProvingProcess, PROVING_PROCESS_LEN};

fn addr(b: u8) -> Address {
    Address::new([b; 32])
}

fn sample_pack_set() -> PackSet {
    PackSet {
        account_type: AccountType::PackSet,
        authority: addr(1),
        minting_authority: addr(2),
        name: [7; 32],
        pack_state: PackSetState::Activated,
        distribution_type: PackDistributionType::MaxSupply,
        pack_cards: 3,
        pack_vouchers: 2,
        total_weight: 0x0102_0304_0506_0708,
        total_editions: 30,
        total_packs: 1337,
        allowed_amount_to_redeem: 10,
        redeem_start_date: 1_600_000_000,
        redeem_end_date: Some(1_700_000_000),
        mutable: true,
    }
}

fn sample_card() -> PackCard {
    PackCard {
        account_type: AccountType::PackCard,
        pack_set: addr(3),
        master: addr(4),
        metadata: addr(5),
        token_account: addr(6),
        max_supply: Some(5),
        distribution_type: DistributionType::ProbabilityBased,
        number_in_pack: 1_000_000_000,
        current_supply: 4,
    }
}

fn sample_voucher() -> PackVoucher {
    PackVoucher {
        account_type: AccountType::PackVoucher,
        pack_set: addr(3),
        master: addr(8),
        metadata: addr(9),
        token_account: addr(10),
        max_supply: None,
        number_to_open: 2,
        action_on_prove: ActionOnProve::Redeem,
        current_supply: 0xdead_beef,
    }
}

fn sample_proving() -> ProvingProcess {
    ProvingProcess {
        account_type: AccountType::ProvingProcess,
        user_wallet: addr(11),
        pack_set: addr(3),
        voucher_mint: addr(12),
        proved_vouchers: 1,
        proved_voucher_editions: 2,
        next_card_to_redeem: 3,
        cards_redeemed: 4,
    }
}

#[test]
fn pack_set_round_trip() {
    let p = sample_pack_set();
    let bytes = p.pack();
    assert_eq!(bytes.len(), PACK_SET_LEN);
    assert_eq!(PackSet::unpack(&bytes), Ok(p));
    let q = PackSet { redeem_end_date: None, mutable: false, ..p };
    assert_eq!(PackSet::unpack(&q.pack()), Ok(q));
}

#[test]
fn pack_card_round_trip() {
    let c = sample_card();
    let bytes = c.pack();
    assert_eq!(bytes.len(), PACK_CARD_LEN);
    assert_eq!(PackCard::unpack(&bytes), Ok(c));
    let d = PackCard { max_supply: None, ..c };
    assert_eq!(PackCard::unpack(&d.pack()), Ok(d));
}

#[test]
fn pack_voucher_round_trip() {
    let v = sample_voucher();
    let bytes = v.pack();
    assert_eq!(bytes.len(), PACK_VOUCHER_LEN);
    assert_eq!(PackVoucher::unpack(&bytes), Ok(v));
    let w = PackVoucher { max_supply: Some(u32::MAX), action_on_prove: ActionOnProve::Burn, ..v };
    assert_eq!(PackVoucher::unpack(&w.pack()), Ok(w));
}

#[test]
fn proving_process_round_trip() {
    let p = sample_proving();
    let bytes = p.pack();
    assert_eq!(bytes.len(), PROVING_PROCESS_LEN);
    assert_eq!(ProvingProcess::unpack(&bytes), Ok(p));
}

#[test]
fn integers_are_little_endian() {
    let p = sample_proving();
    let bytes = p.pack();
    assert_eq!(bytes[0], 4);
    assert_eq!(&bytes[97..101], &[1, 0, 0, 0]);
    assert_eq!(&bytes[109..113], &[4, 0, 0, 0]);
    let s = sample_pack_set().pack();
    assert_eq!(&s[107..115], &[8, 7, 6, 5, 4, 3, 2, 1]);
    assert_eq!(s[139], 1);
    assert_eq!(s[148], 1);
}

#[test]
fn optional_value_is_flag_then_value() {
    let c = sample_card().pack();
    assert_eq!(&c[129..135], &[1, 5, 0, 0, 0, 1]);
    let v = sample_voucher().pack();
    assert_eq!(&v[129..135], &[0, 2, 0, 0, 0, 1]);
    assert_eq!(&v[139..143], &[0, 0, 0, 0]);
}

fn padded(mut bytes: Vec<u8>, len: usize) -> Vec<u8> {
    bytes.resize(len, 0);
    bytes
}

#[test]
fn card_layout_matches_borsh() {
    for max_supply in [Some(5u32), None] {
        let c = PackCard { max_supply, ..sample_card() };
        let fields = (2u8, [3u8; 32], [4u8; 32], [5u8; 32], [6u8; 32], max_supply, 1u8, 1_000_000_000u64, 4u32);
        let expected = padded(borsh::BorshSerialize::try_to_vec(&fields).unwrap(), PACK_CARD_LEN);
        assert_eq!(c.pack(), expected);
        assert_eq!(PackCard::unpack(&expected), Ok(c));
    }
}

#[test]
fn voucher_layout_matches_borsh() {
    for max_supply in [Some(9u32), None] {
        let v = PackVoucher { max_supply, ..sample_voucher() };
        let fields = (3u8, [3u8; 32], [8u8; 32], [9u8; 32], [10u8; 32], max_supply, 2u32, 1u8, 0xdead_beefu32);
        let expected = padded(borsh::BorshSerialize::try_to_vec(&fields).unwrap(), PACK_VOUCHER_LEN);
        assert_eq!(v.pack(), expected);
        assert_eq!(PackVoucher::unpack(&expected), Ok(v));
    }
}

#[test]
fn pack_set_layout_matches_borsh() {
    for (end, mutable) in [(Some(1_700_000_000u64), true), (None, false)] {
        let p = PackSet { redeem_end_date: end, mutable, ..sample_pack_set() };
        let head = (1u8, [1u8; 32], [2u8; 32], [7u8; 32], 1u8, 1u8, 3u32, 2u32);
        let tail = (0x0102_0304_0506_0708u64, 30u64, 1337u32, 10u32, 1_600_000_000u64, end, mutable);
        let mut expected = borsh::BorshSerialize::try_to_vec(&head).unwrap();
        expected.extend(borsh::BorshSerialize::try_to_vec(&tail).unwrap());
        let expected = padded(expected, PACK_SET_LEN);
        assert_eq!(p.pack(), expected);
        assert_eq!(PackSet::unpack(&expected), Ok(p));
    }
}

#[test]
fn padding_is_ignored_when_reading() {
    let v = PackVoucher { max_supply: None, ..sample_voucher() };
    let mut bytes = v.pack();
    bytes[142] = 0xff;
    assert_eq!(PackVoucher::unpack(&bytes), Ok(v));
}

#[test]
fn wrong_length_is_invalid_data() {
    let mut bytes = sample_card().pack();
    bytes.push(0);
    assert_eq!(PackCard::unpack(&bytes), Err(NFTPacksError::InvalidAccountData));
    assert_eq!(PackSet::unpack(&[]), Err(NFTPacksError::InvalidAccountData));
}

#[test]
fn bad_tag_is_invalid_data() {
    let mut bytes = sample_pack_set().pack();
    bytes[98] = 3;
    assert_eq!(PackSet::unpack(&bytes), Err(NFTPacksError::InvalidAccountData));
    let mut bytes = sample_pack_set().pack();
    bytes[148] = 2;
    assert_eq!(PackSet::unpack(&bytes), Err(NFTPacksError::InvalidAccountData));
    let mut bytes = sample_card().pack();
    bytes[129] = 2;
    assert_eq!(PackCard::unpack(&bytes), Err(NFTPacksError::InvalidAccountData));
}

#[test]
fn other_kind_is_uninitialized() {
    let zeros = vec![0u8; PROVING_PROCESS_LEN];
    assert_eq!(ProvingProcess::unpack(&zeros), Err(NFTPacksError::UninitializedAccount));
    let fresh = ProvingProcess::unpack_unchecked(&zeros).unwrap();
    assert_eq!(fresh.account_type, AccountType::Uninitialized);
    let mut bytes = sample_voucher().pack();
    bytes[0] = 2;
    assert_eq!(PackVoucher::unpack(&bytes), Err(NFTPacksError::UninitializedAccount));
}

#[test]
fn card_init_sets_fields_and_zero_supply() {
    let mut c = PackCard::unpack_unchecked(&vec![0u8; PACK_CARD_LEN]).unwrap();
    c.init(InitPackCardParams {
        pack_set: addr(3),
        master: addr(4),
        metadata: addr(5),
        token_account: addr(6),
        max_supply: Some(5),
        distribution_type: DistributionType::FixedNumber,
        number_in_pack: 42,
    });
    assert!(c.is_initialized());
    assert_eq!(c.account_type, AccountType::PackCard);
    assert_eq!(c.number_in_pack, 42);
    assert_eq!(c.current_supply, 0);
    assert_eq!(DistributionType::default(), DistributionType::FixedNumber);
}

#[test]
fn proving_init_zeroes_counters() {
    let mut p = sample_proving();
    p.init(InitProvingProcessParams { user_wallet: addr(20), pack_set: addr(21), voucher_mint: addr(22) });
    assert_eq!(p.user_wallet, addr(20));
    assert_eq!(p.voucher_mint, addr(22));
    assert_eq!((p.proved_vouchers, p.proved_voucher_editions, p.next_card_to_redeem, p.cards_redeemed), (0, 0, 0, 0));
}

#[test]
fn supply_decrements_fail_at_zero() {
    let mut c = PackCard { current_supply: 1, ..sample_card() };
    assert_eq!(c.decrement_supply(), Ok(()));
    assert_eq!(c.current_supply, 0);
    assert_eq!(c.decrement_supply(), Err(NFTPacksError::Underflow));
    let mut p = PackSet { total_packs: 0, ..sample_pack_set() };
    assert_eq!(p.decrement_supply(), Err(NFTPacksError::Underflow));
}

#[test]
fn activation_check() {
    assert_eq!(sample_pack_set().assert_activated(), Ok(()));
    let p = PackSet { pack_state: PackSetState::Deactivated, ..sample_pack_set() };
    assert_eq!(p.assert_activated(), Err(NFTPacksError::PackSetNotActivated));
}

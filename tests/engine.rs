use metaplex_nft_packs::address::{
    assert_edition_address, find_pack_card_program_address, find_pack_voucher_program_address,
    find_proving_process_program_address, AccountInfo, Address,
};
use metaplex_nft_packs::claim::{
    claim_pack, count_fixed_probability, count_max_supply_probability, count_unlimited_probability,
    get_card_probability, redeem_card, ClaimPackAccounts,
};
use metaplex_nft_packs::enums::{AccountType, ActionOnProve, DistributionType, PackDistributionType, PackSetState};
use metaplex_nft_packs::error::NFTPacksError;
use metaplex_nft_packs::metadata::{edition_parent, master_edition_supply, metadata_mint};
use metaplex_nft_packs::pack_card::PackCard;
use metaplex_nft_packs::pack_set::PackSet;
use metaplex_nft_packs::pack_voucher::PackVoucher;
use metaplex_nft_packs::proving::{advance_proof, prove_ownership, ProveOwnershipAccounts};
use metaplex_nft_packs::proving_process::{ProvingProcess, PROVING_PROCESS_LEN};
use metaplex_nft_packs::token::TokenHolding;
use borsh::BorshSerialize;
use solana_program::program_option::COption;
use solana_program::program_pack::Pack;
use solana_program::pubkey::Pubkey;

const PROGRAM: [u8; 32] = [1; 32];
const ORACLE: [u8; 32] = [2; 32];
const PACK: [u8; 32] = [3; 32];
const USER: [u8; 32] = [4; 32];
const VOUCHER_MINT: [u8; 32] = [5; 32];
const METADATA_PROGRAM: [u8; 32] = [6; 32];
const MASTER: [u8; 32] = [9; 32];
const CARD_MINT: [u8; 32] = [17; 32];

fn padded(mut bytes: Vec<u8>, len: usize) -> Vec<u8> {
    bytes.resize(len, 0);
    bytes
}

fn edition_record(parent: [u8; 32]) -> Vec<u8> {
    let e = spl_token_metadata::state::Edition {
        key: spl_token_metadata::state::Key::EditionV1,
        parent: Pubkey::new_from_array(parent),
        edition: 1,
    };
    padded(e.try_to_vec().unwrap(), spl_token_metadata::state::MAX_EDITION_LEN)
}

fn master_edition_record(supply: u64) -> Vec<u8> {
    let m = metaplex_token_metadata::state::MasterEditionV2 {
        key: metaplex_token_metadata::state::Key::MasterEditionV2,
        supply,
        max_supply: Some(100),
    };
    padded(m.try_to_vec().unwrap(), metaplex_token_metadata::state::MAX_MASTER_EDITION_LEN)
}

fn metadata_record(mint: [u8; 32]) -> Vec<u8> {
    let m = metaplex_token_metadata::state::Metadata {
        key: metaplex_token_metadata::state::Key::MetadataV1,
        update_authority: Pubkey::new_from_array([18; 32]),
        mint: Pubkey::new_from_array(mint),
        data: metaplex_token_metadata::state::Data {
            name: "Card".to_string(),
            symbol: "CRD".to_string(),
            uri: "uri".to_string(),
            seller_fee_basis_points: 0,
            creators: None,
        },
        primary_sale_happened: false,
        is_mutable: true,
        edition_nonce: None,
    };
    padded(m.try_to_vec().unwrap(), metaplex_token_metadata::state::MAX_METADATA_LEN)
}

fn addr(b: [u8; 32]) -> Address {
    Address::new(b)
}

fn account(key: Address, owner: [u8; 32], data: Vec<u8>) -> AccountInfo {
    AccountInfo { key, owner: addr(owner), is_signer: false, lamports: 1_000_000, data }
}

fn token_account(mint: [u8; 32], owner: [u8; 32], delegate: Option<([u8; 32], u64)>) -> Vec<u8> {
    let (delegate, delegated_amount) = match delegate {
        Some((d, amount)) => (COption::Some(Pubkey::new_from_array(d)), amount),
        None => (COption::None, 0),
    };
    let acc = spl_token::state::Account {
        mint: Pubkey::new_from_array(mint),
        owner: Pubkey::new_from_array(owner),
        amount: 1,
        delegate,
        state: spl_token::state::AccountState::Initialized,
        is_native: COption::None,
        delegated_amount,
        close_authority: COption::None,
    };
    let mut buf = vec![0u8; spl_token::state::Account::LEN];
    spl_token::state::Account::pack(acc, &mut buf).unwrap();
    buf
}

fn pack_set(distribution_type: PackDistributionType) -> PackSet {
    PackSet {
        account_type: AccountType::PackSet,
        authority: addr([20; 32]),
        minting_authority: addr([21; 32]),
        name: [7; 32],
        pack_state: PackSetState::Activated,
        distribution_type,
        pack_cards: 1,
        pack_vouchers: 2,
        total_weight: 1000,
        total_editions: 10,
        total_packs: 10,
        allowed_amount_to_redeem: 3,
        redeem_start_date: 100,
        redeem_end_date: None,
        mutable: true,
    }
}

fn card(weight: u64, current_supply: u32) -> PackCard {
    PackCard {
        account_type: AccountType::PackCard,
        pack_set: addr(PACK),
        master: addr(MASTER),
        metadata: addr([10; 32]),
        token_account: addr([11; 32]),
        max_supply: Some(5),
        distribution_type: DistributionType::FixedNumber,
        number_in_pack: weight,
        current_supply,
    }
}

fn proving(next_card: u32, cards_redeemed: u32) -> ProvingProcess {
    ProvingProcess {
        account_type: AccountType::ProvingProcess,
        user_wallet: addr(USER),
        pack_set: addr(PACK),
        voucher_mint: addr(VOUCHER_MINT),
        proved_vouchers: 2,
        proved_voucher_editions: 0,
        next_card_to_redeem: next_card,
        cards_redeemed,
    }
}

fn claim_accounts(pack: &PackSet, p: &ProvingProcess, c: &PackCard) -> ClaimPackAccounts {
    let program = addr(PROGRAM);
    let proving_key = find_proving_process_program_address(&program, &addr(PACK), &addr(USER)).unwrap().0;
    let card_key = find_pack_card_program_address(&program, &addr(PACK), 1).unwrap().0;
    let mut user_wallet = account(addr(USER), [0; 32], vec![]);
    user_wallet.is_signer = true;
    ClaimPackAccounts {
        pack_set: account(addr(PACK), PROGRAM, pack.pack()),
        proving_process: account(proving_key, PROGRAM, p.pack()),
        user_wallet,
        user_voucher_token: account(addr([12; 32]), [0; 32], token_account(VOUCHER_MINT, USER, None)),
        pack_card: account(card_key, PROGRAM, c.pack()),
        randomness_oracle: account(addr([13; 32]), ORACLE, vec![]),
        metadata: account(addr([19; 32]), METADATA_PROGRAM, metadata_record(CARD_MINT)),
        metadata_mint: account(addr(CARD_MINT), [0; 32], vec![]),
        master_edition: account(addr([22; 32]), METADATA_PROGRAM, master_edition_record(0)),
    }
}

#[test]
fn derived_addresses_match_the_runtime() {
    let program = Pubkey::new_from_array(PROGRAM);
    let pack = Pubkey::new_from_array(PACK);
    let user = Pubkey::new_from_array(USER);
    let (card, card_bump) =
        Pubkey::find_program_address(&[pack.as_ref(), b"card", &7u32.to_le_bytes()], &program);
    let got = find_pack_card_program_address(&addr(PROGRAM), &addr(PACK), 7).unwrap();
    assert_eq!(got, (addr(card.to_bytes()), card_bump));
    assert_ne!(got.0, addr(PACK));
    let (voucher, _) = Pubkey::find_program_address(&[pack.as_ref(), b"voucher", &1u32.to_le_bytes()], &program);
    assert_eq!(find_pack_voucher_program_address(&addr(PROGRAM), &addr(PACK), 1).unwrap().0, addr(voucher.to_bytes()));
    let (proving, _) = Pubkey::find_program_address(&[pack.as_ref(), b"proving", user.as_ref()], &program);
    assert_eq!(
        find_proving_process_program_address(&addr(PROGRAM), &addr(PACK), &addr(USER)).unwrap().0,
        addr(proving.to_bytes())
    );
}

#[test]
fn token_account_fields_are_read() {
    let data = token_account(VOUCHER_MINT, USER, Some(([8; 32], 3)));
    let t = TokenHolding::unpack(&data).unwrap();
    assert_eq!(t.mint, addr(VOUCHER_MINT));
    assert_eq!(t.owner, addr(USER));
    assert_eq!(t.amount, 1);
    assert_eq!(t.delegate, Some(addr([8; 32])));
    assert_eq!(t.delegated_amount, 3);
    assert_eq!(t.assert_held_by(&addr([8; 32])), Ok(()));
    assert_eq!(t.assert_held_by(&addr([9; 32])), Err(NFTPacksError::WrongVoucherOwner));
    assert_eq!(TokenHolding::unpack(&vec![0u8; 165]), Err(NFTPacksError::InvalidAccountData));
    assert_eq!(TokenHolding::unpack(&data[..164]), Err(NFTPacksError::InvalidAccountData));
}

#[test]
fn delegate_without_allowance_does_not_hold() {
    let t = TokenHolding::unpack(&token_account(VOUCHER_MINT, USER, Some(([8; 32], 0)))).unwrap();
    assert_eq!(t.assert_held_by(&addr([8; 32])), Err(NFTPacksError::WrongVoucherOwner));
    assert_eq!(t.assert_held_by(&addr(USER)), Ok(()));
}

#[test]
fn fixed_single_card_is_certain() {
    let mut p = pack_set(PackDistributionType::Fixed);
    let mut c = card(1000, 5);
    assert_eq!(count_fixed_probability(&mut p, &mut c), Ok(65535));
    assert_eq!(p.total_packs, 9);
    assert_eq!(c.current_supply, 4);
}

#[test]
fn fixed_probability_is_proportional() {
    let mut p = pack_set(PackDistributionType::Fixed);
    let mut c = card(250, 5);
    assert_eq!(get_card_probability(&mut p, &mut c), Ok(16383));
}

#[test]
fn max_supply_probability() {
    let mut p = pack_set(PackDistributionType::MaxSupply);
    let mut c = card(1000, 5);
    assert_eq!(count_max_supply_probability(&mut p, &mut c), Ok(32767));
    assert_eq!((p.total_packs, c.current_supply), (9, 4));
    let mut c = PackCard { max_supply: None, ..card(1000, 5) };
    assert_eq!(get_card_probability(&mut p, &mut c), Ok(0));
}

#[test]
fn unlimited_takes_no_supply() {
    let mut p = pack_set(PackDistributionType::Unlimited);
    let mut c = card(500, 0);
    assert_eq!(count_unlimited_probability(&mut p, &mut c), Ok(32767));
    assert_eq!((p.total_packs, c.current_supply), (10, 0));
}

#[test]
fn zero_denominator_fails() {
    let mut p = PackSet { total_weight: 0, ..pack_set(PackDistributionType::Fixed) };
    let mut c = card(1000, 5);
    assert_eq!(get_card_probability(&mut p, &mut c), Err(NFTPacksError::Overflow));
    assert_eq!((p.total_packs, c.current_supply), (10, 5));
    let mut p = PackSet { total_editions: 0, ..pack_set(PackDistributionType::MaxSupply) };
    assert_eq!(get_card_probability(&mut p, &mut c), Err(NFTPacksError::Overflow));
}

#[test]
fn empty_pack_supply_underflows_and_keeps_records() {
    let mut p = PackSet { total_packs: 0, ..pack_set(PackDistributionType::Fixed) };
    let mut c = card(1000, 5);
    assert_eq!(get_card_probability(&mut p, &mut c), Err(NFTPacksError::Underflow));
    assert_eq!((p.total_packs, c.current_supply), (0, 5));
}

#[test]
fn certain_draw_mints() {
    let out = redeem_card(&pack_set(PackDistributionType::Fixed), &proving(1, 0), &card(1000, 5), 100, 65535, 4).unwrap();
    assert_eq!(out.mint_edition, Some(5));
    assert_eq!(out.proving_process.cards_redeemed, 1);
    assert_eq!(out.proving_process.next_card_to_redeem, 0);
    assert_eq!(out.pack_set.total_packs, 9);
    assert_eq!(out.pack_card.current_supply, 4);
}

#[test]
fn losing_draw_still_takes_supply() {
    let out = redeem_card(&pack_set(PackDistributionType::Fixed), &proving(1, 0), &card(250, 5), 100, 16384, 0).unwrap();
    assert_eq!(out.mint_edition, None);
    assert_eq!(out.proving_process.cards_redeemed, 0);
    assert_eq!(out.proving_process.next_card_to_redeem, 0);
    assert_eq!(out.pack_card.current_supply, 4);
}

#[test]
fn exhausted_card_is_a_miss_not_an_error() {
    for policy in [PackDistributionType::Fixed, PackDistributionType::MaxSupply] {
        let pack = pack_set(policy);
        let c = card(1000, 0);
        let out = redeem_card(&pack, &proving(1, 0), &c, 100, 0, 0).unwrap();
        assert_eq!(out.mint_edition, None);
        assert_eq!(out.pack_set, pack);
        assert_eq!(out.pack_card, c);
        assert_eq!(out.proving_process, proving(0, 0));
    }
    let out = redeem_card(&pack_set(PackDistributionType::Unlimited), &proving(1, 0), &card(1000, 0), 100, 0, 0).unwrap();
    assert_eq!(out.mint_edition, Some(1));
}

#[test]
fn claim_before_start_fails() {
    let pack = PackSet { redeem_start_date: 1000, ..pack_set(PackDistributionType::Fixed) };
    assert_eq!(
        redeem_card(&pack, &proving(1, 0), &card(1000, 5), 999, 0, 0),
        Err(NFTPacksError::WrongRedeemDate)
    );
    let a = claim_accounts(&pack, &proving(1, 0), &card(1000, 5));
    assert_eq!(
        claim_pack(&addr(PROGRAM), &addr(ORACLE), &a, 999, 0),
        Err(NFTPacksError::WrongRedeemDate)
    );
}

#[test]
fn claim_after_end_fails() {
    let pack = PackSet { redeem_end_date: Some(200), ..pack_set(PackDistributionType::Fixed) };
    assert_eq!(
        redeem_card(&pack, &proving(1, 0), &card(1000, 5), 201, 0, 0),
        Err(NFTPacksError::WrongRedeemDate)
    );
    assert!(redeem_card(&pack, &proving(1, 0), &card(1000, 5), 200, 0, 0).is_ok());
}

#[test]
fn allowance_is_enforced() {
    let pack = pack_set(PackDistributionType::Fixed);
    assert_eq!(
        redeem_card(&pack, &proving(1, 3), &card(1000, 5), 100, 0, 0),
        Err(NFTPacksError::UserRedeemedAllCards)
    );
}

#[test]
fn inactive_pack_cannot_be_claimed() {
    let pack = PackSet { pack_state: PackSetState::Deactivated, ..pack_set(PackDistributionType::Fixed) };
    assert_eq!(
        redeem_card(&pack, &proving(1, 0), &card(1000, 5), 100, 0, 0),
        Err(NFTPacksError::PackSetNotActivated)
    );
}

#[test]
fn redeemed_count_stays_within_allowance() {
    let mut pack = pack_set(PackDistributionType::Unlimited);
    let mut p = proving(1, 0);
    let c = card(1000, 5);
    let mut wins = 0;
    for _ in 0..5 {
        p.next_card_to_redeem = 1;
        match redeem_card(&pack, &p, &c, 100, 0, 0) {
            Ok(out) => {
                pack = out.pack_set;
                p = out.proving_process;
                wins += 1;
            }
            Err(e) => assert_eq!(e, NFTPacksError::UserRedeemedAllCards),
        }
        assert!(p.cards_redeemed <= pack.allowed_amount_to_redeem);
    }
    assert_eq!(wins, 3);
}

#[test]
fn full_claim_then_retry_fails() {
    let pack = pack_set(PackDistributionType::Fixed);
    let a = claim_accounts(&pack, &proving(1, 0), &card(1000, 5));
    let out = claim_pack(&addr(PROGRAM), &addr(ORACLE), &a, 150, 65535).unwrap();
    assert_eq!(out.mint_edition, Some(1));
    assert_eq!(out.proving_process.next_card_to_redeem, 0);
    assert_eq!(out.proving_process.cards_redeemed, 1);
    let mut retry = a.clone();
    retry.proving_process.data = out.proving_process.pack();
    retry.pack_set.data = out.pack_set.pack();
    retry.pack_card.data = out.pack_card.pack();
    assert_eq!(claim_pack(&addr(PROGRAM), &addr(ORACLE), &retry, 150, 0), Err(NFTPacksError::WrongPackCard));
}

#[test]
fn claim_validation_errors() {
    let pack = pack_set(PackDistributionType::Fixed);
    let base = claim_accounts(&pack, &proving(1, 0), &card(1000, 5));
    let program = addr(PROGRAM);
    let oracle = addr(ORACLE);

    let mut a = base.clone();
    a.randomness_oracle.owner = addr([0; 32]);
    assert_eq!(claim_pack(&program, &oracle, &a, 150, 0), Err(NFTPacksError::IncorrectOwner));

    let mut a = base.clone();
    a.user_wallet.is_signer = false;
    assert_eq!(claim_pack(&program, &oracle, &a, 150, 0), Err(NFTPacksError::MissingSigner));

    let mut a = base.clone();
    a.user_voucher_token.data = token_account([99; 32], USER, None);
    assert_eq!(claim_pack(&program, &oracle, &a, 150, 0), Err(NFTPacksError::WrongEditionMint));

    let mut a = base.clone();
    a.user_voucher_token.data = token_account(VOUCHER_MINT, [98; 32], None);
    assert_eq!(claim_pack(&program, &oracle, &a, 150, 0), Err(NFTPacksError::WrongVoucherOwner));

    let mut a = base.clone();
    a.pack_card.key = find_pack_card_program_address(&program, &addr(PACK), 2).unwrap().0;
    assert_eq!(claim_pack(&program, &oracle, &a, 150, 0), Err(NFTPacksError::WrongAccountKey));

    let mut a = base.clone();
    a.proving_process.key = addr([97; 32]);
    assert_eq!(claim_pack(&program, &oracle, &a, 150, 0), Err(NFTPacksError::WrongAccountKey));

    let mut a = base.clone();
    a.metadata_mint.key = addr([96; 32]);
    assert_eq!(claim_pack(&program, &oracle, &a, 150, 0), Err(NFTPacksError::WrongAccountKey));

    let mut a = base.clone();
    a.master_edition.data = vec![];
    assert_eq!(claim_pack(&program, &oracle, &a, 150, 0), Err(NFTPacksError::InvalidAccountData));

    let mut a = base.clone();
    a.metadata.data = master_edition_record(0);
    assert_eq!(claim_pack(&program, &oracle, &a, 150, 0), Err(NFTPacksError::InvalidAccountData));
}

#[test]
fn minted_edition_follows_master_supply() {
    let pack = pack_set(PackDistributionType::Fixed);
    let mut a = claim_accounts(&pack, &proving(1, 0), &card(1000, 5));
    a.master_edition.data = master_edition_record(41);
    let out = claim_pack(&addr(PROGRAM), &addr(ORACLE), &a, 150, 0).unwrap();
    assert_eq!(out.mint_edition, Some(42));
}

#[test]
fn metadata_records_are_read() {
    assert_eq!(edition_parent(&edition_record(MASTER)), Ok(addr(MASTER)));
    assert_eq!(edition_parent(&[]), Err(NFTPacksError::InvalidAccountData));
    assert_eq!(edition_parent(&master_edition_record(3)), Err(NFTPacksError::InvalidAccountData));
    assert_eq!(master_edition_supply(&master_edition_record(7)), Ok(7));
    assert_eq!(master_edition_supply(&edition_record(MASTER)), Err(NFTPacksError::InvalidAccountData));
    assert_eq!(metadata_mint(&metadata_record(CARD_MINT)), Ok(addr(CARD_MINT)));
    assert_eq!(metadata_mint(&metadata_record(CARD_MINT)[..100]), Err(NFTPacksError::InvalidAccountData));
}

#[test]
fn carry_resets_editions() {
    let mut p = proving(0, 0);
    p.proved_vouchers = 0;
    assert_eq!(advance_proof(&mut p, 2), Ok(()));
    assert_eq!((p.proved_vouchers, p.proved_voucher_editions), (0, 1));
    assert_eq!(advance_proof(&mut p, 2), Ok(()));
    assert_eq!((p.proved_vouchers, p.proved_voucher_editions), (1, 0));
    assert_eq!(advance_proof(&mut p, 1), Ok(()));
    assert_eq!((p.proved_vouchers, p.proved_voucher_editions), (2, 0));
    p.proved_voucher_editions = u32::MAX;
    assert_eq!(advance_proof(&mut p, 0), Err(NFTPacksError::Overflow));
}

fn edition_key(mint: [u8; 32]) -> Address {
    let meta = Pubkey::new_from_array(METADATA_PROGRAM);
    let (key, _) = Pubkey::find_program_address(
        &[b"metadata", meta.as_ref(), &mint, b"edition"],
        &meta,
    );
    addr(key.to_bytes())
}

fn voucher(number_to_open: u32, action_on_prove: ActionOnProve) -> PackVoucher {
    PackVoucher {
        account_type: AccountType::PackVoucher,
        pack_set: addr(PACK),
        master: addr(MASTER),
        metadata: addr([14; 32]),
        token_account: addr([15; 32]),
        max_supply: None,
        number_to_open,
        action_on_prove,
        current_supply: 0,
    }
}

fn prove_accounts(index: u32, proving_data: Vec<u8>) -> ProveOwnershipAccounts {
    let program = addr(PROGRAM);
    let proving_key = find_proving_process_program_address(&program, &addr(PACK), &addr(USER)).unwrap().0;
    let voucher_key = find_pack_voucher_program_address(&program, &addr(PACK), index).unwrap().0;
    ProveOwnershipAccounts {
        pack_set: account(addr(PACK), PROGRAM, pack_set(PackDistributionType::Fixed).pack()),
        edition_data: account(edition_key(VOUCHER_MINT), METADATA_PROGRAM, edition_record(MASTER)),
        edition_mint: account(addr(VOUCHER_MINT), [0; 32], vec![]),
        voucher: account(voucher_key, PROGRAM, voucher(2, ActionOnProve::Burn).pack()),
        proving_process: account(proving_key, PROGRAM, proving_data),
        user_wallet: account(addr(USER), [0; 32], vec![]),
        user_token: account(addr([16; 32]), [0; 32], token_account(VOUCHER_MINT, USER, None)),
    }
}

#[test]
fn edition_address_matches_metadata_derivation() {
    let meta = addr(METADATA_PROGRAM);
    assert!(assert_edition_address(&meta, &edition_key(VOUCHER_MINT), &addr(VOUCHER_MINT)).is_ok());
    assert_eq!(
        assert_edition_address(&meta, &edition_key([77; 32]), &addr(VOUCHER_MINT)),
        Err(NFTPacksError::WrongAccountKey)
    );
}

#[test]
fn proving_sequence_in_order() {
    let program = addr(PROGRAM);
    let meta = addr(METADATA_PROGRAM);
    let a = prove_accounts(1, vec![0u8; PROVING_PROCESS_LEN]);
    let first = prove_ownership(&program, &meta, &a, 1000).unwrap();
    assert!(first.burn_voucher_token);
    assert_eq!(first.proving_process.account_type, AccountType::ProvingProcess);
    assert_eq!(first.proving_process.voucher_mint, addr(VOUCHER_MINT));
    assert_eq!((first.proving_process.proved_vouchers, first.proving_process.proved_voucher_editions), (0, 1));

    let a = prove_accounts(1, first.proving_process.pack());
    let second = prove_ownership(&program, &meta, &a, 1000).unwrap();
    assert_eq!((second.proving_process.proved_vouchers, second.proving_process.proved_voucher_editions), (1, 0));

    let a = prove_accounts(1, second.proving_process.pack());
    assert_eq!(prove_ownership(&program, &meta, &a, 1000), Err(NFTPacksError::WrongAccountKey));
    let a = prove_accounts(2, second.proving_process.pack());
    assert!(prove_ownership(&program, &meta, &a, 1000).is_ok());
}

#[test]
fn voucher_two_before_one_is_rejected() {
    let a = prove_accounts(2, vec![0u8; PROVING_PROCESS_LEN]);
    assert_eq!(
        prove_ownership(&addr(PROGRAM), &addr(METADATA_PROGRAM), &a, 1000),
        Err(NFTPacksError::WrongAccountKey)
    );
}

#[test]
fn proving_errors() {
    let program = addr(PROGRAM);
    let meta = addr(METADATA_PROGRAM);
    let fresh = vec![0u8; PROVING_PROCESS_LEN];

    assert_eq!(
        prove_ownership(&program, &meta, &prove_accounts(1, fresh.clone()), 2_000_000),
        Err(NFTPacksError::NotRentExempt)
    );
    let mut a = prove_accounts(1, fresh.clone());
    a.edition_data.data = edition_record([50; 32]);
    assert_eq!(prove_ownership(&program, &meta, &a, 0), Err(NFTPacksError::WrongEdition));
    let mut a = prove_accounts(1, fresh.clone());
    a.edition_data.data = vec![1; 10];
    assert_eq!(prove_ownership(&program, &meta, &a, 0), Err(NFTPacksError::InvalidAccountData));
    let mut a = prove_accounts(1, fresh.clone());
    a.user_token.data = token_account([51; 32], USER, None);
    assert_eq!(prove_ownership(&program, &meta, &a, 0), Err(NFTPacksError::WrongEditionMint));
    let mut a = prove_accounts(1, fresh.clone());
    a.pack_set.data = PackSet { pack_state: PackSetState::NotActivated, ..pack_set(PackDistributionType::Fixed) }.pack();
    assert_eq!(prove_ownership(&program, &meta, &a, 0), Err(NFTPacksError::PackSetNotActivated));
    let mut a = prove_accounts(1, fresh.clone());
    a.voucher.owner = addr([0; 32]);
    assert_eq!(prove_ownership(&program, &meta, &a, 0), Err(NFTPacksError::IncorrectOwner));

    let done = ProvingProcess {
        account_type: AccountType::ProvingProcess,
        user_wallet: addr(USER),
        pack_set: addr(PACK),
        voucher_mint: addr(VOUCHER_MINT),
        proved_vouchers: 2,
        proved_voucher_editions: 0,
        next_card_to_redeem: 0,
        cards_redeemed: 0,
    };
    let a = prove_accounts(3, done.pack());
    assert_eq!(prove_ownership(&program, &meta, &a, 0), Err(NFTPacksError::ProvingPackProcessCompleted));
    let stuck = ProvingProcess { proved_vouchers: 0, proved_voucher_editions: 2, ..done };
    let a = prove_accounts(1, stuck.pack());
    assert_eq!(
        prove_ownership(&program, &meta, &a, 0),
        Err(NFTPacksError::ProvingVoucherProcessCompleted)
    );
}

#[test]
fn redeem_voucher_is_not_burned() {
    let mut a = prove_accounts(1, vec![0u8; PROVING_PROCESS_LEN]);
    a.voucher.data = voucher(1, ActionOnProve::Redeem).pack();
    let out = prove_ownership(&addr(PROGRAM), &addr(METADATA_PROGRAM), &a, 0).unwrap();
    assert!(!out.burn_voucher_token);
    assert_eq!((out.proving_process.proved_vouchers, out.proving_process.proved_voucher_editions), (1, 0));
}

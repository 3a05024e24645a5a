//! Ownership-proof state machine: each call validates one voucher edition held
//! by the user and advances the user's proving record. Vouchers are proved in
//! strict index order 1, 2, ... and each takes `number_to_open` editions.
use crate::address::{
    assert_edition_address, assert_owned_by, assert_pack_voucher_address, assert_proving_process_address,
    assert_rent_exempt, derivation_error, derived_address_of, edition_seeds, proving_seeds, voucher_seeds,
    AccountInfo, Address,
};
use crate::enums::{AccountType, ActionOnProve, PackSetState};
use crate::error::NFTPacksError;
use crate::math::error_increment_u32;
use crate::metadata::{edition_parent, edition_valid};
use crate::pack_set::PackSet;
use crate::pack_voucher::PackVoucher;
use crate::proving_process::{InitProvingProcessParams, ProvingProcess};
use crate::token::{token_account_valid, token_holding_of, TokenHolding};
use vstd::prelude::*;

verus! {

/// The accounts of a proof call, in the order the host passes them.
#[derive(Clone, Debug)]
pub struct ProveOwnershipAccounts {
    /// Pack set (read)
    pub pack_set: AccountInfo,
    /// Edition record of the presented token (read)
    pub edition_data: AccountInfo,
    /// Mint of the presented token
    pub edition_mint: AccountInfo,
    /// Voucher being proved (read)
    pub voucher: AccountInfo,
    /// Proving record of the user (write)
    pub proving_process: AccountInfo,
    /// User wallet
    pub user_wallet: AccountInfo,
    /// User token account holding the edition (write)
    pub user_token: AccountInfo,
}

/// What a successful proof call leaves behind.
#[derive(Clone, Copy, Debug, PartialEq, Eq)]
pub struct ProveOutcome {
    /// The proving record to store
    pub proving_process: ProvingProcess,
    /// Whether one token of the user's account is to be burned and the account closed
    pub burn_voucher_token: bool,
}

/// The proving record after one more edition is proved toward a voucher
/// that takes `number_to_open` editions: when the editions reach
/// `number_to_open` they restart at zero and the voucher counts as proved.
pub open spec fn spec_advance(p: ProvingProcess, number_to_open: u32) -> Result<ProvingProcess, NFTPacksError> {
    if p.proved_voucher_editions == u32::MAX {
        Err(NFTPacksError::Overflow)
    } else if p.proved_voucher_editions + 1 == number_to_open {
        if p.proved_vouchers == u32::MAX {
            Err(NFTPacksError::Overflow)
        } else {
            Ok(ProvingProcess { proved_voucher_editions: 0, proved_vouchers: (p.proved_vouchers + 1) as u32, ..p })
        }
    } else {
        Ok(ProvingProcess { proved_voucher_editions: (p.proved_voucher_editions + 1) as u32, ..p })
    }
}

/// Counts one more proved edition toward the voucher in progress.
pub fn advance_proof(p: &mut ProvingProcess, number_to_open: u32) -> (r: Result<(), NFTPacksError>)
    ensures
        r is Ok <==> spec_advance(*old(p), number_to_open) is Ok,
        r is Ok ==> *final(p) == spec_advance(*old(p), number_to_open)->Ok_0,
        r is Err ==> r == Err::<(), NFTPacksError>(NFTPacksError::Overflow),
        r is Ok ==> (final(p).proved_voucher_editions == 0 <==> old(p).proved_voucher_editions + 1 == number_to_open),
        r is Ok && old(p).proved_voucher_editions + 1 == number_to_open ==> final(p).proved_vouchers == old(p).proved_vouchers + 1,
        r is Ok && old(p).proved_voucher_editions + 1 != number_to_open ==> final(p).proved_vouchers == old(p).proved_vouchers
            && final(p).proved_voucher_editions == old(p).proved_voucher_editions + 1,
{
    let editions = error_increment_u32(p.proved_voucher_editions)?;
    if editions == number_to_open {
        let vouchers = error_increment_u32(p.proved_vouchers)?;
        p.proved_voucher_editions = 0;
        p.proved_vouchers = vouchers;
    } else {
        p.proved_voucher_editions = editions;
    }
    Ok(())
}

/// The proving record stored in `data`, or a fresh one when `data` holds no
/// initialized record and the account is funded for rent exemption.
pub open spec fn spec_proving_process_data(
    data: Seq<u8>,
    lamports: u64,
    user_wallet: Address,
    pack_set: Address,
    voucher_mint: Address,
    minimum_balance: u64,
) -> Result<ProvingProcess, NFTPacksError> {
    match ProvingProcess::spec_unpack_checked(data) {
        Ok(p) => Ok(p),
        Err(_) => if lamports < minimum_balance {
            Err(NFTPacksError::NotRentExempt)
        } else {
            match ProvingProcess::spec_unpack(data) {
                Some(p) => Ok(
                    ProvingProcess {
                        account_type: AccountType::ProvingProcess,
                        user_wallet,
                        pack_set,
                        voucher_mint,
                        proved_vouchers: 0,
                        proved_voucher_editions: 0,
                        next_card_to_redeem: 0,
                        cards_redeemed: 0,
                    },
                ),
                None => Err(NFTPacksError::InvalidAccountData),
            }
        },
    }
}

/// Returns the stored proving record, or a freshly initialized one (zero
/// counters, `voucher_mint` bound) when the account holds none yet and is
/// funded with at least `minimum_balance`.
pub fn get_proving_process_data(
    account: &AccountInfo,
    user_wallet: &Address,
    pack_set: &Address,
    voucher_mint: &Address,
    minimum_balance: u64,
) -> (r: Result<ProvingProcess, NFTPacksError>)
    ensures
        r == spec_proving_process_data(account.data@, account.lamports, *user_wallet, *pack_set, *voucher_mint, minimum_balance),
{
    match ProvingProcess::unpack(account.data.as_slice()) {
        Ok(p) => Ok(p),
        Err(_) => {
            assert_rent_exempt(account, minimum_balance)?;
            let mut p = ProvingProcess::unpack_unchecked(account.data.as_slice())?;
            p.init(InitProvingProcessParams { user_wallet: *user_wallet, pack_set: *pack_set, voucher_mint: *voucher_mint });
            Ok(p)
        },
    }
}

/// Checks of the presented voucher token once the voucher is known: its
/// edition record, the edition's master, and the token account's mint and
/// holder; then the proving record advances.
pub open spec fn spec_prove_token(
    metadata_program: Address,
    a: ProveOwnershipAccounts,
    voucher: PackVoucher,
    p: ProvingProcess,
) -> Result<ProveOutcome, NFTPacksError> {
    match derivation_error(
        derived_address_of(metadata_program@, edition_seeds(metadata_program@, a.edition_mint.key@)),
        a.edition_data.key@,
    ) {
        Some(e) => Err(e),
        None => if !edition_valid(a.edition_data.data@) {
            Err(NFTPacksError::InvalidAccountData)
        } else if a.edition_data.data@.subrange(1, 33) != voucher.master@ {
            Err(NFTPacksError::WrongEdition)
        } else if !token_account_valid(a.user_token.data@) {
            Err(NFTPacksError::InvalidAccountData)
        } else if token_holding_of(a.user_token.data@).mint@ != a.edition_mint.key@ {
            Err(NFTPacksError::WrongEditionMint)
        } else if !token_holding_of(a.user_token.data@).spec_held_by(a.user_wallet.key@) {
            Err(NFTPacksError::WrongVoucherOwner)
        } else {
            match spec_advance(p, voucher.number_to_open) {
                Ok(next) => Ok(
                    ProveOutcome { proving_process: next, burn_voucher_token: voucher.action_on_prove == ActionOnProve::Burn },
                ),
                Err(e) => Err(e),
            }
        },
    }
}

/// Checks once the proving record is loaded: the voucher must be the one at
/// index `proved_vouchers + 1`, and neither the pack nor that voucher may be
/// fully proved.
pub open spec fn spec_prove_voucher(
    program_id: Address,
    metadata_program: Address,
    a: ProveOwnershipAccounts,
    pack: PackSet,
    p: ProvingProcess,
) -> Result<ProveOutcome, NFTPacksError> {
    if p.proved_vouchers == u32::MAX {
        Err(NFTPacksError::Overflow)
    } else {
        match derivation_error(
            derived_address_of(program_id@, voucher_seeds(a.pack_set.key@, (p.proved_vouchers + 1) as u32)),
            a.voucher.key@,
        ) {
            Some(e) => Err(e),
            None => match PackVoucher::spec_unpack_checked(a.voucher.data@) {
                Err(e) => Err(e),
                Ok(voucher) => if p.proved_vouchers == pack.pack_vouchers {
                    Err(NFTPacksError::ProvingPackProcessCompleted)
                } else if p.proved_voucher_editions == voucher.number_to_open {
                    Err(NFTPacksError::ProvingVoucherProcessCompleted)
                } else {
                    spec_prove_token(metadata_program, a, voucher, p)
                },
            },
        }
    }
}

/// The whole proof call: account owners, an activated pack, the proving
/// record at its derived address (loaded or lazily created), then the voucher
/// and token checks.
pub open spec fn spec_prove_ownership(
    program_id: Address,
    metadata_program: Address,
    a: ProveOwnershipAccounts,
    minimum_balance: u64,
) -> Result<ProveOutcome, NFTPacksError> {
    if a.pack_set.owner@ != program_id@ || a.edition_data.owner@ != metadata_program@ || a.voucher.owner@
        != program_id@ {
        Err(NFTPacksError::IncorrectOwner)
    } else {
        match PackSet::spec_unpack_checked(a.pack_set.data@) {
            Err(e) => Err(e),
            Ok(pack) => if pack.pack_state != PackSetState::Activated {
                Err(NFTPacksError::PackSetNotActivated)
            } else {
                match derivation_error(
                    derived_address_of(program_id@, proving_seeds(a.pack_set.key@, a.user_wallet.key@)),
                    a.proving_process.key@,
                ) {
                    Some(e) => Err(e),
                    None => match spec_proving_process_data(
                        a.proving_process.data@,
                        a.proving_process.lamports,
                        a.user_wallet.key,
                        a.pack_set.key,
                        a.edition_mint.key,
                        minimum_balance,
                    ) {
                        Err(e) => Err(e),
                        Ok(p) => spec_prove_voucher(program_id, metadata_program, a, pack, p),
                    },
                }
            },
        }
    }
}

fn prove_token(
    metadata_program: &Address,
    a: &ProveOwnershipAccounts,
    voucher: &PackVoucher,
    p: ProvingProcess,
) -> (r: Result<ProveOutcome, NFTPacksError>)
    ensures
        r == spec_prove_token(*metadata_program, *a, *voucher, p),
{
    assert_edition_address(metadata_program, &a.edition_data.key, &a.edition_mint.key)?;
    let parent = edition_parent(a.edition_data.data.as_slice())?;
    if !parent.same_as(&voucher.master) {
        return Err(NFTPacksError::WrongEdition);
    }
    let token = TokenHolding::unpack(a.user_token.data.as_slice())?;
    if !token.mint.same_as(&a.edition_mint.key) {
        return Err(NFTPacksError::WrongEditionMint);
    }
    token.assert_held_by(&a.user_wallet.key)?;
    let mut next = p;
    advance_proof(&mut next, voucher.number_to_open)?;
    Ok(ProveOutcome { proving_process: next, burn_voucher_token: voucher.action_on_prove == ActionOnProve::Burn })
}

fn prove_voucher(
    program_id: &Address,
    metadata_program: &Address,
    a: &ProveOwnershipAccounts,
    pack: &PackSet,
    p: ProvingProcess,
) -> (r: Result<ProveOutcome, NFTPacksError>)
    ensures
        r == spec_prove_voucher(*program_id, *metadata_program, *a, *pack, p),
{
    let index = error_increment_u32(p.proved_vouchers)?;
    assert_pack_voucher_address(program_id, &a.voucher.key, &a.pack_set.key, index)?;
    let voucher = PackVoucher::unpack(a.voucher.data.as_slice())?;
    if p.proved_vouchers == pack.pack_vouchers {
        return Err(NFTPacksError::ProvingPackProcessCompleted);
    }
    if p.proved_voucher_editions == voucher.number_to_open {
        return Err(NFTPacksError::ProvingVoucherProcessCompleted);
    }
    prove_token(metadata_program, a, &voucher, p)
}

/// Processes one proof of voucher ownership. `minimum_balance` is the
/// rent-exemption minimum of a proving record. On success the returned record
/// is to be stored at the proving address, and the user's token burned when
/// the voucher asks for it.
pub fn prove_ownership(
    program_id: &Address,
    metadata_program: &Address,
    accounts: &ProveOwnershipAccounts,
    minimum_balance: u64,
) -> (r: Result<ProveOutcome, NFTPacksError>)
    ensures
        r == spec_prove_ownership(*program_id, *metadata_program, *accounts, minimum_balance),
{
    assert_owned_by(&accounts.pack_set, program_id)?;
    assert_owned_by(&accounts.edition_data, metadata_program)?;
    assert_owned_by(&accounts.voucher, program_id)?;
    let pack = PackSet::unpack(accounts.pack_set.data.as_slice())?;
    if pack.pack_state != PackSetState::Activated {
        return Err(NFTPacksError::PackSetNotActivated);
    }
    assert_proving_process_address(
        program_id,
        &accounts.proving_process.key,
        &accounts.pack_set.key,
        &accounts.user_wallet.key,
    )?;
    let p = get_proving_process_data(
        &accounts.proving_process,
        &accounts.user_wallet.key,
        &accounts.pack_set.key,
        &accounts.edition_mint.key,
        minimum_balance,
    )?;
    prove_voucher(program_id, metadata_program, accounts, &pack, p)
}

} // verus!

//! Addresses, derivation of program addresses from seeds, and the validation
//! primitives every instruction runs over the accounts it is handed.
use crate::codec::u32_le;
use crate::error::NFTPacksError;
use vstd::prelude::*;

verus! {

/// A 32-byte account address.
#[derive(Clone, Copy, Debug, PartialEq, Eq)]
pub struct Address {
    pub bytes: [u8; 32],
}

impl View for Address {
    type V = Seq<u8>;

    open spec fn view(&self) -> Seq<u8> {
        self.bytes@
    }
}

impl Address {
    /// Address made of the given bytes.
    pub fn new(bytes: [u8; 32]) -> (r: Address)
        ensures
            r.bytes == bytes,
    {
        Address { bytes }
    }

    /// Whether two addresses hold the same bytes.
    pub fn same_as(&self, other: &Address) -> (r: bool)
        ensures
            r == (self@ == other@),
    {
        let mut i: usize = 0;
        while i < 32
            invariant
                0 <= i <= 32,
                self@.len() == 32,
                other@.len() == 32,
                forall|j: int| 0 <= j < i ==> self@[j] == other@[j],
            decreases 32 - i,
        {
            if self.bytes[i] != other.bytes[i] {
                return false;
            }
            i = i + 1;
        }
        assert(self@ =~= other@);
        true
    }

    /// The address as a byte vector, for use as a seed.
    pub fn to_vec(&self) -> (r: Vec<u8>)
        ensures
            r@ == self@,
    {
        let mut v: Vec<u8> = Vec::new();
        let mut i: usize = 0;
        while i < 32
            invariant
                0 <= i <= 32,
                self@.len() == 32,
                v@ == self@.subrange(0, i as int),
            decreases 32 - i,
        {
            v.push(self.bytes[i]);
            i = i + 1;
        }
        assert(v@ =~= self@);
        v
    }
}

/// An account as the host hands it to an instruction.
#[derive(Clone, Debug)]
pub struct AccountInfo {
    /// Address of the account.
    pub key: Address,
    /// Program that owns the account.
    pub owner: Address,
    /// Whether the transaction carries this account's signature.
    pub is_signer: bool,
    /// Balance of the account.
    pub lamports: u64,
    /// Stored bytes.
    pub data: Vec<u8>,
}

/// The address, with its bump seed, that the runtime derives from `seeds` for
/// `program_id`, or `None` when no bump seed yields one.
pub uninterp spec fn derived_address_of(program_id: Seq<u8>, seeds: Seq<Seq<u8>>) -> Option<(Seq<u8>, u8)>;

/// View of a list of seeds.
pub open spec fn seeds_view(seeds: Seq<Vec<u8>>) -> Seq<Seq<u8>> {
    seeds.map_values(|s: Vec<u8>| s@)
}

/// Relies on solana_program's `Pubkey::try_find_program_address`: it searches
/// bump seeds from 255 down for the first off-curve hash of seeds, bump and
/// program id, and returns `None` when none is found; the result depends on the
/// arguments alone.
#[verifier::external_body]
fn try_find_program_address(seeds: &Vec<Vec<u8>>, program_id: &Address) -> (r: Option<(Address, u8)>)
    ensures
        match r {
            Some(found) => derived_address_of(program_id@, seeds_view(seeds@)) == Some(
                (found.0@, found.1),
            ),
            None => derived_address_of(program_id@, seeds_view(seeds@)) is None,
        },
{
    let parts: Vec<&[u8]> = seeds.iter().map(|s| s.as_slice()).collect();
    let program = solana_program::pubkey::Pubkey::new_from_array(program_id.bytes);
    solana_program::pubkey::Pubkey::try_find_program_address(&parts, &program).map(
        |(key, bump)| (Address { bytes: key.to_bytes() }, bump),
    )
}

/// The bytes of the label "card".
pub open spec fn card_label() -> Seq<u8> {
    seq![0x63u8, 0x61u8, 0x72u8, 0x64u8]
}

/// The bytes of the label "voucher".
pub open spec fn voucher_label() -> Seq<u8> {
    seq![0x76u8, 0x6fu8, 0x75u8, 0x63u8, 0x68u8, 0x65u8, 0x72u8]
}

/// The bytes of the label "proving".
pub open spec fn proving_label() -> Seq<u8> {
    seq![0x70u8, 0x72u8, 0x6fu8, 0x76u8, 0x69u8, 0x6eu8, 0x67u8]
}

/// The bytes of the label "metadata".
pub open spec fn metadata_label() -> Seq<u8> {
    seq![0x6du8, 0x65u8, 0x74u8, 0x61u8, 0x64u8, 0x61u8, 0x74u8, 0x61u8]
}

/// The bytes of the label "edition".
pub open spec fn edition_label() -> Seq<u8> {
    seq![0x65u8, 0x64u8, 0x69u8, 0x74u8, 0x69u8, 0x6fu8, 0x6eu8]
}

/// Seeds of the edition record of a mint under the token-metadata program:
/// ("metadata", metadata program, mint, "edition").
pub open spec fn edition_seeds(metadata_program: Seq<u8>, mint: Seq<u8>) -> Seq<Seq<u8>> {
    seq![metadata_label(), metadata_program, mint, edition_label()]
}

/// Seeds of the card at `index` of a pack: (pack, "card", index).
pub open spec fn card_seeds(pack_set: Seq<u8>, index: u32) -> Seq<Seq<u8>> {
    seq![pack_set, card_label(), u32_le(index)]
}

/// Seeds of the voucher at `index` of a pack: (pack, "voucher", index).
pub open spec fn voucher_seeds(pack_set: Seq<u8>, index: u32) -> Seq<Seq<u8>> {
    seq![pack_set, voucher_label(), u32_le(index)]
}

/// Seeds of a user's proving record for a pack: (pack, "proving", user).
pub open spec fn proving_seeds(pack_set: Seq<u8>, user: Seq<u8>) -> Seq<Seq<u8>> {
    seq![pack_set, proving_label(), user]
}

fn u32_le_bytes(v: u32) -> (r: Vec<u8>)
    ensures
        r@ == u32_le(v),
{
    let r = vec![(v & 0xff) as u8, ((v >> 8u32) & 0xff) as u8, ((v >> 16u32) & 0xff) as u8, ((v >> 24u32) & 0xff) as u8];
    assert(r@ =~= u32_le(v));
    r
}

fn card_seed_list(pack_set: &Address, index: u32) -> (r: Vec<Vec<u8>>)
    ensures
        seeds_view(r@) == card_seeds(pack_set@, index),
{
    let label: Vec<u8> = vec![0x63u8, 0x61u8, 0x72u8, 0x64u8];
    assert(label@ =~= card_label());
    let r = vec![pack_set.to_vec(), label, u32_le_bytes(index)];
    assert(seeds_view(r@) =~= card_seeds(pack_set@, index));
    r
}

fn voucher_seed_list(pack_set: &Address, index: u32) -> (r: Vec<Vec<u8>>)
    ensures
        seeds_view(r@) == voucher_seeds(pack_set@, index),
{
    let label: Vec<u8> = vec![0x76u8, 0x6fu8, 0x75u8, 0x63u8, 0x68u8, 0x65u8, 0x72u8];
    assert(label@ =~= voucher_label());
    let r = vec![pack_set.to_vec(), label, u32_le_bytes(index)];
    assert(seeds_view(r@) =~= voucher_seeds(pack_set@, index));
    r
}

fn proving_seed_list(pack_set: &Address, user: &Address) -> (r: Vec<Vec<u8>>)
    ensures
        seeds_view(r@) == proving_seeds(pack_set@, user@),
{
    let label: Vec<u8> = vec![0x70u8, 0x72u8, 0x6fu8, 0x76u8, 0x69u8, 0x6eu8, 0x67u8];
    assert(label@ =~= proving_label());
    let r = vec![pack_set.to_vec(), label, user.to_vec()];
    assert(seeds_view(r@) =~= proving_seeds(pack_set@, user@));
    r
}

/// What a derivation returns: the address and bump, or `InvalidSeeds`.
pub open spec fn derivation_result(found: Option<(Seq<u8>, u8)>, r: Result<(Address, u8), NFTPacksError>) -> bool {
    match found {
        Some(f) => r is Ok && r->Ok_0.0@ == f.0 && r->Ok_0.1 == f.1,
        None => r == Err::<(Address, u8), NFTPacksError>(NFTPacksError::InvalidSeeds),
    }
}

fn find_address(seeds: &Vec<Vec<u8>>, program_id: &Address) -> (r: Result<(Address, u8), NFTPacksError>)
    ensures
        derivation_result(derived_address_of(program_id@, seeds_view(seeds@)), r),
{
    match try_find_program_address(seeds, program_id) {
        Some(found) => Ok(found),
        None => Err(NFTPacksError::InvalidSeeds),
    }
}

/// Address and bump of the card at `index` of `pack_set`.
pub fn find_pack_card_program_address(program_id: &Address, pack_set: &Address, index: u32) -> (r: Result<(Address, u8), NFTPacksError>)
    ensures
        derivation_result(derived_address_of(program_id@, card_seeds(pack_set@, index)), r),
{
    find_address(&card_seed_list(pack_set, index), program_id)
}

/// Address and bump of the voucher at `index` of `pack_set`.
pub fn find_pack_voucher_program_address(program_id: &Address, pack_set: &Address, index: u32) -> (r: Result<(Address, u8), NFTPacksError>)
    ensures
        derivation_result(derived_address_of(program_id@, voucher_seeds(pack_set@, index)), r),
{
    find_address(&voucher_seed_list(pack_set, index), program_id)
}

/// Address and bump of the proving record of `user` for `pack_set`.
pub fn find_proving_process_program_address(program_id: &Address, pack_set: &Address, user: &Address) -> (r: Result<(Address, u8), NFTPacksError>)
    ensures
        derivation_result(derived_address_of(program_id@, proving_seeds(pack_set@, user@)), r),
{
    find_address(&proving_seed_list(pack_set, user), program_id)
}

fn edition_seed_list(metadata_program: &Address, mint: &Address) -> (r: Vec<Vec<u8>>)
    ensures
        seeds_view(r@) == edition_seeds(metadata_program@, mint@),
{
    let prefix: Vec<u8> = vec![0x6du8, 0x65u8, 0x74u8, 0x61u8, 0x64u8, 0x61u8, 0x74u8, 0x61u8];
    assert(prefix@ =~= metadata_label());
    let suffix: Vec<u8> = vec![0x65u8, 0x64u8, 0x69u8, 0x74u8, 0x69u8, 0x6fu8, 0x6eu8];
    assert(suffix@ =~= edition_label());
    let r = vec![prefix, metadata_program.to_vec(), mint.to_vec(), suffix];
    assert(seeds_view(r@) =~= edition_seeds(metadata_program@, mint@));
    r
}

/// The error of checking that `key` is the address derived from some seeds,
/// or `None` when it is.
pub open spec fn derivation_error(found: Option<(Seq<u8>, u8)>, key: Seq<u8>) -> Option<NFTPacksError> {
    match found {
        Some(f) => if f.0 == key {
            None
        } else {
            Some(NFTPacksError::WrongAccountKey)
        },
        None => Some(NFTPacksError::InvalidSeeds),
    }
}

/// Outcome of checking that `key` is the address derived from some seeds.
pub open spec fn derivation_check(found: Option<(Seq<u8>, u8)>, key: Seq<u8>, r: Result<u8, NFTPacksError>) -> bool {
    match found {
        Some(f) => if f.0 == key {
            r == Ok::<u8, NFTPacksError>(f.1)
        } else {
            r == Err::<u8, NFTPacksError>(NFTPacksError::WrongAccountKey)
        },
        None => r == Err::<u8, NFTPacksError>(NFTPacksError::InvalidSeeds),
    }
}

fn check_derived(found: Result<(Address, u8), NFTPacksError>, key: &Address) -> (r: Result<u8, NFTPacksError>)
    ensures
        found is Ok ==> (found->Ok_0.0@ == key@ ==> r == Ok::<u8, NFTPacksError>(found->Ok_0.1)),
        found is Ok ==> (found->Ok_0.0@ != key@ ==> r == Err::<u8, NFTPacksError>(NFTPacksError::WrongAccountKey)),
        found is Err ==> r == Err::<u8, NFTPacksError>(found->Err_0),
{
    match found {
        Ok((derived, bump)) => if derived.same_as(key) {
            Ok(bump)
        } else {
            Err(NFTPacksError::WrongAccountKey)
        },
        Err(e) => Err(e),
    }
}

/// Checks that `key` is the address of the card at `index` of `pack_set`.
pub fn assert_pack_card_address(program_id: &Address, key: &Address, pack_set: &Address, index: u32) -> (r: Result<u8, NFTPacksError>)
    ensures
        derivation_check(derived_address_of(program_id@, card_seeds(pack_set@, index)), key@, r),
{
    check_derived(find_pack_card_program_address(program_id, pack_set, index), key)
}

/// Checks that `key` is the address of the voucher at `index` of `pack_set`.
pub fn assert_pack_voucher_address(program_id: &Address, key: &Address, pack_set: &Address, index: u32) -> (r: Result<u8, NFTPacksError>)
    ensures
        derivation_check(derived_address_of(program_id@, voucher_seeds(pack_set@, index)), key@, r),
{
    check_derived(find_pack_voucher_program_address(program_id, pack_set, index), key)
}

/// Checks that `key` is the address of the proving record of `user` for `pack_set`.
pub fn assert_proving_process_address(program_id: &Address, key: &Address, pack_set: &Address, user: &Address) -> (r: Result<u8, NFTPacksError>)
    ensures
        derivation_check(derived_address_of(program_id@, proving_seeds(pack_set@, user@)), key@, r),
{
    check_derived(find_proving_process_program_address(program_id, pack_set, user), key)
}

/// Checks that `key` is the address of the edition record of `mint` under
/// the token-metadata program.
pub fn assert_edition_address(metadata_program: &Address, key: &Address, mint: &Address) -> (r: Result<u8, NFTPacksError>)
    ensures
        derivation_check(derived_address_of(metadata_program@, edition_seeds(metadata_program@, mint@)), key@, r),
{
    check_derived(find_address(&edition_seed_list(metadata_program, mint), metadata_program), key)
}

/// Fails with `WrongAccountKey` unless the account has the expected address.
pub fn assert_account_key(account: &AccountInfo, expected: &Address) -> (r: Result<(), NFTPacksError>)
    ensures
        account.key@ == expected@ ==> r is Ok,
        account.key@ != expected@ ==> r == Err::<(), NFTPacksError>(NFTPacksError::WrongAccountKey),
{
    if account.key.same_as(expected) {
        Ok(())
    } else {
        Err(NFTPacksError::WrongAccountKey)
    }
}

/// Fails with `IncorrectOwner` unless the account is owned by `owner`.
pub fn assert_owned_by(account: &AccountInfo, owner: &Address) -> (r: Result<(), NFTPacksError>)
    ensures
        account.owner@ == owner@ ==> r is Ok,
        account.owner@ != owner@ ==> r == Err::<(), NFTPacksError>(NFTPacksError::IncorrectOwner),
{
    if account.owner.same_as(owner) {
        Ok(())
    } else {
        Err(NFTPacksError::IncorrectOwner)
    }
}

/// Fails with `MissingSigner` unless the account signed the call.
pub fn assert_signer(account: &AccountInfo) -> (r: Result<(), NFTPacksError>)
    ensures
        account.is_signer ==> r is Ok,
        !account.is_signer ==> r == Err::<(), NFTPacksError>(NFTPacksError::MissingSigner),
{
    if account.is_signer {
        Ok(())
    } else {
        Err(NFTPacksError::MissingSigner)
    }
}

/// Fails with `NotRentExempt` unless the account holds at least
/// `minimum_balance`, the rent-exemption minimum for its size.
pub fn assert_rent_exempt(account: &AccountInfo, minimum_balance: u64) -> (r: Result<(), NFTPacksError>)
    ensures
        account.lamports >= minimum_balance ==> r is Ok,
        account.lamports < minimum_balance ==> r == Err::<(), NFTPacksError>(NFTPacksError::NotRentExempt),
{
    if account.lamports >= minimum_balance {
        Ok(())
    } else {
        Err(NFTPacksError::NotRentExempt)
    }
}

} // verus!

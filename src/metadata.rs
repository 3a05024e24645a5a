//! What the pack logic reads of token-metadata records: the master of an
//! edition, the supply of a master edition, and the mint of a metadata record.
use crate::address::Address;
use crate::codec::u64_from;
use crate::error::NFTPacksError;
use vstd::prelude::*;

verus! {

/// Stored length of an edition record: 1 + 32 + 8 + 200.
pub const EDITION_LEN: usize = 241;

/// Stored length of a master edition record: 1 + 9 + 8 + 264.
pub const MASTER_EDITION_LEN: usize = 282;

/// Whether `s` holds an edition record: the right length and the key of an
/// edition (1) or of an uninitialized record (0).
pub open spec fn edition_valid(s: Seq<u8>) -> bool {
    s.len() == EDITION_LEN && (s[0] == 0 || s[0] == 1)
}

/// Whether `s` holds a master edition record: the right length, the key of a
/// master edition (6) or of an uninitialized record (0), and a valid presence
/// flag for its maximum supply.
pub open spec fn master_edition_valid(s: Seq<u8>) -> bool {
    s.len() == MASTER_EDITION_LEN && (s[0] == 0 || s[0] == 6) && (s[9] == 0 || s[9] == 1)
}

/// The mint recorded in the metadata record `s`, or `None` when `s` does not
/// decode as a metadata record.
pub uninterp spec fn metadata_mint_of(s: Seq<u8>) -> Option<Seq<u8>>;

/// Relies on spl_token_metadata's `try_from_slice_checked` for `Edition`: it
/// accepts exactly 241 bytes whose first byte is the EditionV1 or
/// Uninitialized key, then reads key, parent (32 bytes) and edition number
/// from the front; it indexes the first byte, so empty data is excluded.
#[verifier::external_body]
fn unpack_edition_parent(data: &[u8]) -> (r: Option<Address>)
    requires
        data@.len() > 0,
    ensures
        r is Some <==> edition_valid(data@),
        r is Some ==> r->Some_0@ == data@.subrange(1, 33),
{
    spl_token_metadata::utils::try_from_slice_checked::<spl_token_metadata::state::Edition>(
        data,
        spl_token_metadata::state::Key::EditionV1,
        spl_token_metadata::state::MAX_EDITION_LEN,
    ).ok().map(|e| Address { bytes: e.parent.to_bytes() })
}

/// Relies on metaplex_token_metadata's `try_from_slice_checked` for
/// `MasterEditionV2`: it accepts exactly 282 bytes whose first byte is the
/// MasterEditionV2 or Uninitialized key, then reads key, supply (u64) and an
/// optional maximum supply (flag 0 or 1, then u64); it indexes the first
/// byte, so empty data is excluded.
#[verifier::external_body]
fn unpack_master_edition_supply(data: &[u8]) -> (r: Option<u64>)
    requires
        data@.len() > 0,
    ensures
        r is Some <==> master_edition_valid(data@),
        r is Some ==> r->Some_0 == u64_from(data@.subrange(1, 9)),
{
    metaplex_token_metadata::utils::try_from_slice_checked::<metaplex_token_metadata::state::MasterEditionV2>(
        data,
        metaplex_token_metadata::state::Key::MasterEditionV2,
        metaplex_token_metadata::state::MAX_MASTER_EDITION_LEN,
    ).ok().map(|m| m.supply)
}

/// Relies on metaplex_token_metadata's `try_from_slice_checked` for
/// `Metadata`: the decoding depends on the bytes alone, and the mint is the
/// third field, after the key byte and the 32-byte update authority; it
/// indexes the first byte, so empty data is excluded.
#[verifier::external_body]
fn unpack_metadata_mint(data: &[u8]) -> (r: Option<Address>)
    requires
        data@.len() > 0,
    ensures
        match r {
            Some(m) => metadata_mint_of(data@) == Some(m@),
            None => metadata_mint_of(data@) is None,
        },
        r is Some ==> data@.len() >= 65 && r->Some_0@ == data@.subrange(33, 65),
{
    metaplex_token_metadata::utils::try_from_slice_checked::<metaplex_token_metadata::state::Metadata>(
        data,
        metaplex_token_metadata::state::Key::MetadataV1,
        metaplex_token_metadata::state::MAX_METADATA_LEN,
    ).ok().map(|m| Address { bytes: m.mint.to_bytes() })
}

/// The master edition an edition record points at; `InvalidAccountData` when
/// the bytes hold no edition record.
pub fn edition_parent(data: &[u8]) -> (r: Result<Address, NFTPacksError>)
    ensures
        edition_valid(data@) ==> r is Ok && r->Ok_0@ == data@.subrange(1, 33),
        !edition_valid(data@) ==> r == Err::<Address, NFTPacksError>(NFTPacksError::InvalidAccountData),
{
    if data.len() == 0 {
        return Err(NFTPacksError::InvalidAccountData);
    }
    match unpack_edition_parent(data) {
        Some(parent) => Ok(parent),
        None => Err(NFTPacksError::InvalidAccountData),
    }
}

/// Editions minted so far from a master edition; `InvalidAccountData` when
/// the bytes hold no master edition record.
pub fn master_edition_supply(data: &[u8]) -> (r: Result<u64, NFTPacksError>)
    ensures
        master_edition_valid(data@) ==> r == Ok::<u64, NFTPacksError>(u64_from(data@.subrange(1, 9))),
        !master_edition_valid(data@) ==> r == Err::<u64, NFTPacksError>(NFTPacksError::InvalidAccountData),
{
    if data.len() == 0 {
        return Err(NFTPacksError::InvalidAccountData);
    }
    match unpack_master_edition_supply(data) {
        Some(supply) => Ok(supply),
        None => Err(NFTPacksError::InvalidAccountData),
    }
}

/// The mint a metadata record describes; `InvalidAccountData` when the bytes
/// hold no metadata record.
pub fn metadata_mint(data: &[u8]) -> (r: Result<Address, NFTPacksError>)
    ensures
        data@.len() > 0 && metadata_mint_of(data@) is Some ==> r is Ok && r->Ok_0@ == metadata_mint_of(data@)->Some_0
            && r->Ok_0@ == data@.subrange(33, 65),
        data@.len() == 0 || metadata_mint_of(data@) is None ==> r == Err::<Address, NFTPacksError>(
            NFTPacksError::InvalidAccountData,
        ),
{
    if data.len() == 0 {
        return Err(NFTPacksError::InvalidAccountData);
    }
    match unpack_metadata_mint(data) {
        Some(mint) => Ok(mint),
        None => Err(NFTPacksError::InvalidAccountData),
    }
}

} // verus!

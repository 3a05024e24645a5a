//! Pack card: one prize entry of a pack.
use crate::address::Address;
use crate::codec::{
    bytes32_from, lemma_bytes32_round_trip, lemma_opt_u32_round_trip, lemma_u32_round_trip, lemma_u64_round_trip,
    opt_u32_from, opt_u32_le, put_bytes32, put_opt_u32, put_u32, put_u64, put_u8, put_zeros, read_bytes32, read_opt_u32,
    read_u32, read_u64, u32_from, u32_le, u64_from, u64_le, zeros,
};
use crate::enums::{AccountType, DistributionType};
use crate::error::NFTPacksError;
use crate::math::error_decrement_u32;
use vstd::prelude::*;

verus! {

/// Stored length of a card record, the room of its largest form:
/// 1 + 32 + 32 + 32 + 32 + (1 + 4) + 1 + 8 + 4.
pub const PACK_CARD_LEN: usize = 147;

/// Pack card
#[derive(Clone, Copy, Debug, PartialEq, Eq)]
pub struct PackCard {
    /// Account type - PackCard
    pub account_type: AccountType,
    /// Pack set
    pub pack_set: Address,
    /// Master edition account
    pub master: Address,
    /// Metadata account
    pub metadata: Address,
    /// Program token account which holds MasterEdition token
    pub token_account: Address,
    /// How many instances of this card exists in all packs
    pub max_supply: Option<u32>,
    /// Fixed number / probability-based
    pub distribution_type: DistributionType,
    /// Weight of the card: average number of cards in pack multiplied by 10^9 and truncated
    pub number_in_pack: u64,
    /// How many editions of this card are left to draw
    pub current_supply: u32,
}

/// Initialize a PackCard params
pub struct InitPackCardParams {
    /// Pack set
    pub pack_set: Address,
    /// Master edition account
    pub master: Address,
    /// Metadata account
    pub metadata: Address,
    /// Program token account which holds MasterEdition token
    pub token_account: Address,
    /// How many instances of this card exists in all packs
    pub max_supply: Option<u32>,
    /// Fixed number / probability-based
    pub distribution_type: DistributionType,
    /// Average number of cards in pack multiplied by 10^9 and truncated
    pub number_in_pack: u64,
}

impl PackCard {
    /// Encoded fields of the record, in declaration order.
    pub open spec fn spec_fields(self) -> Seq<u8> {
        seq![self.account_type.spec_tag()] + self.pack_set@ + self.master@ + self.metadata@ + self.token_account@
            + opt_u32_le(self.max_supply) + seq![self.distribution_type.spec_tag()] + u64_le(self.number_in_pack)
            + u32_le(self.current_supply)
    }

    /// Stored bytes of the record: its fields, then zeros up to the stored length.
    pub open spec fn spec_pack(self) -> Seq<u8> {
        self.spec_fields() + zeros((PACK_CARD_LEN - self.spec_fields().len()) as nat)
    }

    /// Where the fields after `max_supply` start in `s`: after its value when
    /// its flag is 1, right after the flag otherwise.
    pub open spec fn spec_tail_start(s: Seq<u8>) -> int {
        if s[129] == 1 {
            134
        } else {
            130
        }
    }

    /// The record stored in `s`, if `s` holds one.
    pub open spec fn spec_unpack(s: Seq<u8>) -> Option<PackCard> {
        if s.len() != PACK_CARD_LEN {
            None
        } else {
            match (
                AccountType::spec_from_tag(s[0]),
                opt_u32_from(s.subrange(129, 134)),
                DistributionType::spec_from_tag(s[PackCard::spec_tail_start(s)]),
            ) {
                (Some(t), Some(m), Some(d)) => Some(
                    PackCard {
                        account_type: t,
                        pack_set: Address { bytes: bytes32_from(s.subrange(1, 33)) },
                        master: Address { bytes: bytes32_from(s.subrange(33, 65)) },
                        metadata: Address { bytes: bytes32_from(s.subrange(65, 97)) },
                        token_account: Address { bytes: bytes32_from(s.subrange(97, 129)) },
                        max_supply: m,
                        distribution_type: d,
                        number_in_pack: u64_from(
                            s.subrange(PackCard::spec_tail_start(s) + 1, PackCard::spec_tail_start(s) + 9),
                        ),
                        current_supply: u32_from(
                            s.subrange(PackCard::spec_tail_start(s) + 9, PackCard::spec_tail_start(s) + 13),
                        ),
                    },
                ),
                _ => None,
            }
        }
    }

    /// The initialized record stored in `s`: `InvalidAccountData` when `s`
    /// holds no record, `UninitializedAccount` when it holds one of another kind.
    pub open spec fn spec_unpack_checked(s: Seq<u8>) -> Result<PackCard, NFTPacksError> {
        match PackCard::spec_unpack(s) {
            Some(v) => if v.account_type == AccountType::PackCard {
                Ok(v)
            } else {
                Err(NFTPacksError::UninitializedAccount)
            },
            None => Err(NFTPacksError::InvalidAccountData),
        }
    }

    /// Decoding the stored bytes of a card gives the card back.
    pub proof fn lemma_round_trip(self)
        ensures
            PackCard::spec_unpack(self.spec_pack()) == Some(self),
    {
        let s = self.spec_pack();
        lemma_bytes32_round_trip(self.pack_set.bytes);
        lemma_bytes32_round_trip(self.master.bytes);
        lemma_bytes32_round_trip(self.metadata.bytes);
        lemma_bytes32_round_trip(self.token_account.bytes);
        lemma_u64_round_trip(self.number_in_pack);
        lemma_u32_round_trip(self.current_supply);
        assert(s.subrange(1, 33) =~= self.pack_set@);
        assert(s.subrange(33, 65) =~= self.master@);
        assert(s.subrange(65, 97) =~= self.metadata@);
        assert(s.subrange(97, 129) =~= self.token_account@);
        let o = opt_u32_le(self.max_supply);
        let k: int = 129 + o.len() as int;
        assert(s.len() == PACK_CARD_LEN);
        assert(s.subrange(129, 134).subrange(0, o.len() as int) =~= o);
        lemma_opt_u32_round_trip(self.max_supply, s.subrange(129, 134));
        assert(PackCard::spec_tail_start(s) == k);
        assert(s[k] == self.distribution_type.spec_tag());
        assert(s.subrange(k + 1, k + 9) =~= u64_le(self.number_in_pack));
        assert(s.subrange(k + 9, k + 13) =~= u32_le(self.current_supply));
        match self.account_type {
            AccountType::Uninitialized => {},
            AccountType::PackSet => {},
            AccountType::PackCard => {},
            AccountType::PackVoucher => {},
            AccountType::ProvingProcess => {},
        }
        match self.distribution_type {
            DistributionType::FixedNumber => {},
            DistributionType::ProbabilityBased => {},
        }
    }

    /// Initialize a PackCard
    pub fn init(&mut self, params: InitPackCardParams)
        ensures
            *final(self) == (PackCard {
                account_type: AccountType::PackCard,
                pack_set: params.pack_set,
                master: params.master,
                metadata: params.metadata,
                token_account: params.token_account,
                max_supply: params.max_supply,
                distribution_type: params.distribution_type,
                number_in_pack: params.number_in_pack,
                current_supply: 0,
            }),
    {
        self.account_type = AccountType::PackCard;
        self.pack_set = params.pack_set;
        self.master = params.master;
        self.metadata = params.metadata;
        self.token_account = params.token_account;
        self.max_supply = params.max_supply;
        self.distribution_type = params.distribution_type;
        self.number_in_pack = params.number_in_pack;
        self.current_supply = 0;
    }

    /// Whether the record has been initialized as a card.
    pub fn is_initialized(&self) -> (r: bool)
        ensures
            r == (self.account_type == AccountType::PackCard),
    {
        self.account_type == AccountType::PackCard
    }

    /// Takes one edition from the card's remaining supply; `Underflow` when
    /// none is left.
    pub fn decrement_supply(&mut self) -> (r: Result<(), NFTPacksError>)
        ensures
            old(self).current_supply > 0 ==> r is Ok && *final(self) == (PackCard {
                current_supply: (old(self).current_supply - 1) as u32,
                ..*old(self)
            }),
            old(self).current_supply == 0 ==> r == Err::<(), NFTPacksError>(NFTPacksError::Underflow) && *final(self)
                == *old(self),
    {
        self.current_supply = error_decrement_u32(self.current_supply)?;
        Ok(())
    }

    /// Stored bytes of the record.
    pub fn pack(&self) -> (r: Vec<u8>)
        ensures
            r@ == self.spec_pack(),
            r@.len() == PACK_CARD_LEN,
    {
        let mut out: Vec<u8> = Vec::new();
        put_u8(&mut out, self.account_type.tag());
        put_bytes32(&mut out, &self.pack_set.bytes);
        put_bytes32(&mut out, &self.master.bytes);
        put_bytes32(&mut out, &self.metadata.bytes);
        put_bytes32(&mut out, &self.token_account.bytes);
        put_opt_u32(&mut out, self.max_supply);
        put_u8(&mut out, self.distribution_type.tag());
        put_u64(&mut out, self.number_in_pack);
        put_u32(&mut out, self.current_supply);
        assert(out@ =~= self.spec_fields());
        let filled: usize = out.len();
        put_zeros(&mut out, PACK_CARD_LEN - filled);
        assert(out@ =~= self.spec_pack());
        out
    }

    /// Decodes a record without checking its kind; `InvalidAccountData` when
    /// the bytes hold no record.
    pub fn unpack_unchecked(data: &[u8]) -> (r: Result<PackCard, NFTPacksError>)
        ensures
            match PackCard::spec_unpack(data@) {
                Some(c) => r == Ok::<PackCard, NFTPacksError>(c),
                None => r == Err::<PackCard, NFTPacksError>(NFTPacksError::InvalidAccountData),
            },
    {
        if data.len() != PACK_CARD_LEN {
            return Err(NFTPacksError::InvalidAccountData);
        }
        let k: usize = if data[129] == 1 {
            134
        } else {
            130
        };
        match (AccountType::from_tag(data[0]), read_opt_u32(data, 129), DistributionType::from_tag(data[k])) {
            (Some(t), Some(m), Some(d)) => Ok(
                PackCard {
                    account_type: t,
                    pack_set: Address { bytes: read_bytes32(data, 1) },
                    master: Address { bytes: read_bytes32(data, 33) },
                    metadata: Address { bytes: read_bytes32(data, 65) },
                    token_account: Address { bytes: read_bytes32(data, 97) },
                    max_supply: m,
                    distribution_type: d,
                    number_in_pack: read_u64(data, k + 1),
                    current_supply: read_u32(data, k + 9),
                },
            ),
            _ => Err(NFTPacksError::InvalidAccountData),
        }
    }

    /// Decodes an initialized card; `UninitializedAccount` when the bytes hold
    /// a record of another kind.
    pub fn unpack(data: &[u8]) -> (r: Result<PackCard, NFTPacksError>)
        ensures
            r == PackCard::spec_unpack_checked(data@),
    {
        let c = PackCard::unpack_unchecked(data)?;
        if c.is_initialized() {
            Ok(c)
        } else {
            Err(NFTPacksError::UninitializedAccount)
        }
    }
}

} // verus!

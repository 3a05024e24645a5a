//! Pack set: the configuration of one pack.
use crate::address::Address;
use crate::codec::{
    bool_byte, bool_from, bytes32_from, lemma_bytes32_round_trip, lemma_opt_u64_round_trip, lemma_u32_round_trip,
    lemma_u64_round_trip, opt_u64_from, opt_u64_le, put_bool, put_bytes32, put_opt_u64, put_u32, put_u64, put_u8, put_zeros,
    read_bool, read_bytes32, read_opt_u64, read_u32, read_u64, u32_from, u32_le, u64_from, u64_le, zeros,
};
use crate::enums::{AccountType, PackDistributionType, PackSetState};
use crate::error::NFTPacksError;
use crate::math::error_decrement_u32;
use vstd::prelude::*;

verus! {

/// Stored length of a pack record, the room of its largest form:
/// 1 + 32 + 32 + 32 + 1 + 1 + 4 + 4 + 8 + 8 + 4 + 4 + 8 + (1 + 8) + 1.
pub const PACK_SET_LEN: usize = 149;

/// Pack set
#[derive(Clone, Copy, Debug, PartialEq, Eq)]
pub struct PackSet {
    /// Account type - PackSet
    pub account_type: AccountType,
    /// Configuration authority
    pub authority: Address,
    /// Minting authority
    pub minting_authority: Address,
    /// Display name
    pub name: [u8; 32],
    /// Lifecycle state
    pub pack_state: PackSetState,
    /// Distribution policy
    pub distribution_type: PackDistributionType,
    /// Registered cards
    pub pack_cards: u32,
    /// Registered vouchers
    pub pack_vouchers: u32,
    /// Sum of the weights of the cards
    pub total_weight: u64,
    /// Sum of the edition supplies of the cards
    pub total_editions: u64,
    /// Remaining redeemable supply
    pub total_packs: u32,
    /// How many cards one user may redeem
    pub allowed_amount_to_redeem: u32,
    /// Start of the redemption window
    pub redeem_start_date: u64,
    /// End of the redemption window, if any
    pub redeem_end_date: Option<u64>,
    /// If true authority can make changes at deactivated phase
    pub mutable: bool,
}

impl PackSet {
    /// Encoded fields of the record, in declaration order.
    pub open spec fn spec_fields(self) -> Seq<u8> {
        seq![self.account_type.spec_tag()] + self.authority@ + self.minting_authority@ + self.name@
            + seq![self.pack_state.spec_tag()] + seq![self.distribution_type.spec_tag()] + u32_le(self.pack_cards)
            + u32_le(self.pack_vouchers) + u64_le(self.total_weight) + u64_le(self.total_editions) + u32_le(
            self.total_packs,
        ) + u32_le(self.allowed_amount_to_redeem) + u64_le(self.redeem_start_date) + opt_u64_le(
            self.redeem_end_date,
        ) + bool_byte(self.mutable)
    }

    /// Stored bytes of the record: its fields, then zeros up to the stored length.
    pub open spec fn spec_pack(self) -> Seq<u8> {
        self.spec_fields() + zeros((PACK_SET_LEN - self.spec_fields().len()) as nat)
    }

    /// Where the field after `redeem_end_date` lies in `s`: after its value
    /// when its flag is 1, right after the flag otherwise.
    pub open spec fn spec_tail_start(s: Seq<u8>) -> int {
        if s[139] == 1 {
            148
        } else {
            140
        }
    }

    /// The record stored in `s`, if `s` holds one.
    pub open spec fn spec_unpack(s: Seq<u8>) -> Option<PackSet> {
        if s.len() != PACK_SET_LEN {
            None
        } else {
            match (
                AccountType::spec_from_tag(s[0]),
                PackSetState::spec_from_tag(s[97]),
                PackDistributionType::spec_from_tag(s[98]),
                opt_u64_from(s.subrange(139, 148)),
                bool_from(s[PackSet::spec_tail_start(s)]),
            ) {
                (Some(t), Some(st), Some(d), Some(e), Some(m)) => Some(
                    PackSet {
                        account_type: t,
                        authority: Address { bytes: bytes32_from(s.subrange(1, 33)) },
                        minting_authority: Address { bytes: bytes32_from(s.subrange(33, 65)) },
                        name: bytes32_from(s.subrange(65, 97)),
                        pack_state: st,
                        distribution_type: d,
                        pack_cards: u32_from(s.subrange(99, 103)),
                        pack_vouchers: u32_from(s.subrange(103, 107)),
                        total_weight: u64_from(s.subrange(107, 115)),
                        total_editions: u64_from(s.subrange(115, 123)),
                        total_packs: u32_from(s.subrange(123, 127)),
                        allowed_amount_to_redeem: u32_from(s.subrange(127, 131)),
                        redeem_start_date: u64_from(s.subrange(131, 139)),
                        redeem_end_date: e,
                        mutable: m,
                    },
                ),
                _ => None,
            }
        }
    }

    /// The initialized record stored in `s`: `InvalidAccountData` when `s`
    /// holds no record, `UninitializedAccount` when it holds one of another kind.
    pub open spec fn spec_unpack_checked(s: Seq<u8>) -> Result<PackSet, NFTPacksError> {
        match PackSet::spec_unpack(s) {
            Some(v) => if v.account_type == AccountType::PackSet {
                Ok(v)
            } else {
                Err(NFTPacksError::UninitializedAccount)
            },
            None => Err(NFTPacksError::InvalidAccountData),
        }
    }

    /// Decoding the stored bytes of a pack gives the pack back.
    pub proof fn lemma_round_trip(self)
        ensures
            PackSet::spec_unpack(self.spec_pack()) == Some(self),
    {
        let s = self.spec_pack();
        lemma_bytes32_round_trip(self.authority.bytes);
        lemma_bytes32_round_trip(self.minting_authority.bytes);
        lemma_bytes32_round_trip(self.name);
        lemma_u32_round_trip(self.pack_cards);
        lemma_u32_round_trip(self.pack_vouchers);
        lemma_u64_round_trip(self.total_weight);
        lemma_u64_round_trip(self.total_editions);
        lemma_u32_round_trip(self.total_packs);
        lemma_u32_round_trip(self.allowed_amount_to_redeem);
        lemma_u64_round_trip(self.redeem_start_date);
        assert(s.subrange(1, 33) =~= self.authority@);
        assert(s.subrange(33, 65) =~= self.minting_authority@);
        assert(s.subrange(65, 97) =~= self.name@);
        assert(s[97] == self.pack_state.spec_tag());
        assert(s[98] == self.distribution_type.spec_tag());
        assert(s.subrange(99, 103) =~= u32_le(self.pack_cards));
        assert(s.subrange(103, 107) =~= u32_le(self.pack_vouchers));
        assert(s.subrange(107, 115) =~= u64_le(self.total_weight));
        assert(s.subrange(115, 123) =~= u64_le(self.total_editions));
        assert(s.subrange(123, 127) =~= u32_le(self.total_packs));
        assert(s.subrange(127, 131) =~= u32_le(self.allowed_amount_to_redeem));
        assert(s.subrange(131, 139) =~= u64_le(self.redeem_start_date));
        let o = opt_u64_le(self.redeem_end_date);
        let k: int = 139 + o.len() as int;
        assert(s.len() == PACK_SET_LEN);
        assert(s.subrange(139, 148).subrange(0, o.len() as int) =~= o);
        lemma_opt_u64_round_trip(self.redeem_end_date, s.subrange(139, 148));
        assert(PackSet::spec_tail_start(s) == k);
        assert(s[k] == bool_byte(self.mutable)[0]);
        match self.account_type {
            AccountType::Uninitialized => {},
            AccountType::PackSet => {},
            AccountType::PackCard => {},
            AccountType::PackVoucher => {},
            AccountType::ProvingProcess => {},
        }
        match self.pack_state {
            PackSetState::NotActivated => {},
            PackSetState::Activated => {},
            PackSetState::Deactivated => {},
        }
        match self.distribution_type {
            PackDistributionType::Fixed => {},
            PackDistributionType::MaxSupply => {},
            PackDistributionType::Unlimited => {},
        }
    }

    /// Whether the record has been initialized as a pack.
    pub fn is_initialized(&self) -> (r: bool)
        ensures
            r == (self.account_type == AccountType::PackSet),
    {
        self.account_type == AccountType::PackSet
    }

    /// Fails with `PackSetNotActivated` unless the pack is activated.
    pub fn assert_activated(&self) -> (r: Result<(), NFTPacksError>)
        ensures
            self.pack_state == PackSetState::Activated ==> r is Ok,
            self.pack_state != PackSetState::Activated ==> r == Err::<(), NFTPacksError>(
                NFTPacksError::PackSetNotActivated,
            ),
    {
        if self.pack_state == PackSetState::Activated {
            Ok(())
        } else {
            Err(NFTPacksError::PackSetNotActivated)
        }
    }

    /// Takes one pack from the remaining redeemable supply; `Underflow` when
    /// none is left.
    pub fn decrement_supply(&mut self) -> (r: Result<(), NFTPacksError>)
        ensures
            old(self).total_packs > 0 ==> r is Ok && *final(self) == (PackSet {
                total_packs: (old(self).total_packs - 1) as u32,
                ..*old(self)
            }),
            old(self).total_packs == 0 ==> r == Err::<(), NFTPacksError>(NFTPacksError::Underflow) && *final(self)
                == *old(self),
    {
        self.total_packs = error_decrement_u32(self.total_packs)?;
        Ok(())
    }

    /// Stored bytes of the record.
    pub fn pack(&self) -> (r: Vec<u8>)
        ensures
            r@ == self.spec_pack(),
            r@.len() == PACK_SET_LEN,
    {
        let mut out: Vec<u8> = Vec::new();
        put_u8(&mut out, self.account_type.tag());
        put_bytes32(&mut out, &self.authority.bytes);
        put_bytes32(&mut out, &self.minting_authority.bytes);
        put_bytes32(&mut out, &self.name);
        put_u8(&mut out, self.pack_state.tag());
        put_u8(&mut out, self.distribution_type.tag());
        put_u32(&mut out, self.pack_cards);
        put_u32(&mut out, self.pack_vouchers);
        put_u64(&mut out, self.total_weight);
        put_u64(&mut out, self.total_editions);
        put_u32(&mut out, self.total_packs);
        put_u32(&mut out, self.allowed_amount_to_redeem);
        put_u64(&mut out, self.redeem_start_date);
        put_opt_u64(&mut out, self.redeem_end_date);
        put_bool(&mut out, self.mutable);
        assert(out@ =~= self.spec_fields());
        let filled: usize = out.len();
        put_zeros(&mut out, PACK_SET_LEN - filled);
        assert(out@ =~= self.spec_pack());
        out
    }

    /// Decodes a record without checking its kind; `InvalidAccountData` when
    /// the bytes hold no record.
    pub fn unpack_unchecked(data: &[u8]) -> (r: Result<PackSet, NFTPacksError>)
        ensures
            match PackSet::spec_unpack(data@) {
                Some(p) => r == Ok::<PackSet, NFTPacksError>(p),
                None => r == Err::<PackSet, NFTPacksError>(NFTPacksError::InvalidAccountData),
            },
    {
        if data.len() != PACK_SET_LEN {
            return Err(NFTPacksError::InvalidAccountData);
        }
        match (
            AccountType::from_tag(data[0]),
            PackSetState::from_tag(data[97]),
            PackDistributionType::from_tag(data[98]),
            read_opt_u64(data, 139),
            read_bool(
                data,
                if data[139] == 1 {
                    148
                } else {
                    140
                },
            ),
        ) {
            (Some(t), Some(st), Some(d), Some(e), Some(m)) => Ok(
                PackSet {
                    account_type: t,
                    authority: Address { bytes: read_bytes32(data, 1) },
                    minting_authority: Address { bytes: read_bytes32(data, 33) },
                    name: read_bytes32(data, 65),
                    pack_state: st,
                    distribution_type: d,
                    pack_cards: read_u32(data, 99),
                    pack_vouchers: read_u32(data, 103),
                    total_weight: read_u64(data, 107),
                    total_editions: read_u64(data, 115),
                    total_packs: read_u32(data, 123),
                    allowed_amount_to_redeem: read_u32(data, 127),
                    redeem_start_date: read_u64(data, 131),
                    redeem_end_date: e,
                    mutable: m,
                },
            ),
            _ => Err(NFTPacksError::InvalidAccountData),
        }
    }

    /// Decodes an initialized pack; `UninitializedAccount` when the bytes hold
    /// a record of another kind.
    pub fn unpack(data: &[u8]) -> (r: Result<PackSet, NFTPacksError>)
        ensures
            r == PackSet::spec_unpack_checked(data@),
    {
        let p = PackSet::unpack_unchecked(data)?;
        if p.is_initialized() {
            Ok(p)
        } else {
            Err(NFTPacksError::UninitializedAccount)
        }
    }
}

} // verus!

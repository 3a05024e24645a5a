//! Pack voucher: one proof-of-ownership requirement of a pack.
use crate::address::Address;
use crate::codec::{
    bytes32_from, lemma_bytes32_round_trip, lemma_opt_u32_round_trip, lemma_u32_round_trip, opt_u32_from,
    opt_u32_le, put_bytes32, put_opt_u32, put_u32, put_u8, put_zeros, read_bytes32, read_opt_u32, read_u32, u32_from, u32_le, zeros,
};
use crate::enums::{AccountType, ActionOnProve};
use crate::error::NFTPacksError;
use vstd::prelude::*;

verus! {

/// Stored length of a voucher record, the room of its largest form:
/// 1 + 32 + 32 + 32 + 32 + (1 + 4) + 4 + 1 + 4.
pub const PACK_VOUCHER_LEN: usize = 143;

/// Pack voucher
#[derive(Clone, Copy, Debug, PartialEq, Eq)]
pub struct PackVoucher {
    /// Account type - PackVoucher
    pub account_type: AccountType,
    /// Pack set
    pub pack_set: Address,
    /// Master edition whose editions prove this voucher
    pub master: Address,
    /// Metadata account
    pub metadata: Address,
    /// Program token account which holds MasterEdition token
    pub token_account: Address,
    /// How many instances of this voucher exists in all packs
    pub max_supply: Option<u32>,
    /// How many editions are required to prove this voucher
    pub number_to_open: u32,
    /// Burn / Redeem
    pub action_on_prove: ActionOnProve,
    /// Remaining supply
    pub current_supply: u32,
}

impl PackVoucher {
    /// Encoded fields of the record, in declaration order.
    pub open spec fn spec_fields(self) -> Seq<u8> {
        seq![self.account_type.spec_tag()] + self.pack_set@ + self.master@ + self.metadata@ + self.token_account@
            + opt_u32_le(self.max_supply) + u32_le(self.number_to_open) + seq![self.action_on_prove.spec_tag()]
            + u32_le(self.current_supply)
    }

    /// Stored bytes of the record: its fields, then zeros up to the stored length.
    pub open spec fn spec_pack(self) -> Seq<u8> {
        self.spec_fields() + zeros((PACK_VOUCHER_LEN - self.spec_fields().len()) as nat)
    }

    /// Where the fields after `max_supply` start in `s`: after its value when
    /// its flag is 1, right after the flag otherwise.
    pub open spec fn spec_tail_start(s: Seq<u8>) -> int {
        if s[129] == 1 {
            134
        } else {
            130
        }
    }

    /// The record stored in `s`, if `s` holds one.
    pub open spec fn spec_unpack(s: Seq<u8>) -> Option<PackVoucher> {
        if s.len() != PACK_VOUCHER_LEN {
            None
        } else {
            match (
                AccountType::spec_from_tag(s[0]),
                opt_u32_from(s.subrange(129, 134)),
                ActionOnProve::spec_from_tag(s[PackVoucher::spec_tail_start(s) + 4]),
            ) {
                (Some(t), Some(m), Some(a)) => Some(
                    PackVoucher {
                        account_type: t,
                        pack_set: Address { bytes: bytes32_from(s.subrange(1, 33)) },
                        master: Address { bytes: bytes32_from(s.subrange(33, 65)) },
                        metadata: Address { bytes: bytes32_from(s.subrange(65, 97)) },
                        token_account: Address { bytes: bytes32_from(s.subrange(97, 129)) },
                        max_supply: m,
                        number_to_open: u32_from(
                            s.subrange(PackVoucher::spec_tail_start(s), PackVoucher::spec_tail_start(s) + 4),
                        ),
                        action_on_prove: a,
                        current_supply: u32_from(
                            s.subrange(PackVoucher::spec_tail_start(s) + 5, PackVoucher::spec_tail_start(s) + 9),
                        ),
                    },
                ),
                _ => None,
            }
        }
    }

    /// The initialized record stored in `s`: `InvalidAccountData` when `s`
    /// holds no record, `UninitializedAccount` when it holds one of another kind.
    pub open spec fn spec_unpack_checked(s: Seq<u8>) -> Result<PackVoucher, NFTPacksError> {
        match PackVoucher::spec_unpack(s) {
            Some(v) => if v.account_type == AccountType::PackVoucher {
                Ok(v)
            } else {
                Err(NFTPacksError::UninitializedAccount)
            },
            None => Err(NFTPacksError::InvalidAccountData),
        }
    }

    /// Decoding the stored bytes of a voucher gives the voucher back.
    pub proof fn lemma_round_trip(self)
        ensures
            PackVoucher::spec_unpack(self.spec_pack()) == Some(self),
    {
        let s = self.spec_pack();
        lemma_bytes32_round_trip(self.pack_set.bytes);
        lemma_bytes32_round_trip(self.master.bytes);
        lemma_bytes32_round_trip(self.metadata.bytes);
        lemma_bytes32_round_trip(self.token_account.bytes);
        lemma_u32_round_trip(self.number_to_open);
        lemma_u32_round_trip(self.current_supply);
        assert(s.subrange(1, 33) =~= self.pack_set@);
        assert(s.subrange(33, 65) =~= self.master@);
        assert(s.subrange(65, 97) =~= self.metadata@);
        assert(s.subrange(97, 129) =~= self.token_account@);
        let o = opt_u32_le(self.max_supply);
        let k: int = 129 + o.len() as int;
        assert(s.len() == PACK_VOUCHER_LEN);
        assert(s.subrange(129, 134).subrange(0, o.len() as int) =~= o);
        lemma_opt_u32_round_trip(self.max_supply, s.subrange(129, 134));
        assert(PackVoucher::spec_tail_start(s) == k);
        assert(s.subrange(k, k + 4) =~= u32_le(self.number_to_open));
        assert(s[k + 4] == self.action_on_prove.spec_tag());
        assert(s.subrange(k + 5, k + 9) =~= u32_le(self.current_supply));
        match self.account_type {
            AccountType::Uninitialized => {},
            AccountType::PackSet => {},
            AccountType::PackCard => {},
            AccountType::PackVoucher => {},
            AccountType::ProvingProcess => {},
        }
        match self.action_on_prove {
            ActionOnProve::Burn => {},
            ActionOnProve::Redeem => {},
        }
    }

    /// Whether the record has been initialized as a voucher.
    pub fn is_initialized(&self) -> (r: bool)
        ensures
            r == (self.account_type == AccountType::PackVoucher),
    {
        self.account_type == AccountType::PackVoucher
    }

    /// Stored bytes of the record.
    pub fn pack(&self) -> (r: Vec<u8>)
        ensures
            r@ == self.spec_pack(),
            r@.len() == PACK_VOUCHER_LEN,
    {
        let mut out: Vec<u8> = Vec::new();
        put_u8(&mut out, self.account_type.tag());
        put_bytes32(&mut out, &self.pack_set.bytes);
        put_bytes32(&mut out, &self.master.bytes);
        put_bytes32(&mut out, &self.metadata.bytes);
        put_bytes32(&mut out, &self.token_account.bytes);
        put_opt_u32(&mut out, self.max_supply);
        put_u32(&mut out, self.number_to_open);
        put_u8(&mut out, self.action_on_prove.tag());
        put_u32(&mut out, self.current_supply);
        assert(out@ =~= self.spec_fields());
        let filled: usize = out.len();
        put_zeros(&mut out, PACK_VOUCHER_LEN - filled);
        assert(out@ =~= self.spec_pack());
        out
    }

    /// Decodes a record without checking its kind; `InvalidAccountData` when
    /// the bytes hold no record.
    pub fn unpack_unchecked(data: &[u8]) -> (r: Result<PackVoucher, NFTPacksError>)
        ensures
            match PackVoucher::spec_unpack(data@) {
                Some(v) => r == Ok::<PackVoucher, NFTPacksError>(v),
                None => r == Err::<PackVoucher, NFTPacksError>(NFTPacksError::InvalidAccountData),
            },
    {
        if data.len() != PACK_VOUCHER_LEN {
            return Err(NFTPacksError::InvalidAccountData);
        }
        let k: usize = if data[129] == 1 {
            134
        } else {
            130
        };
        match (AccountType::from_tag(data[0]), read_opt_u32(data, 129), ActionOnProve::from_tag(data[k + 4])) {
            (Some(t), Some(m), Some(a)) => Ok(
                PackVoucher {
                    account_type: t,
                    pack_set: Address { bytes: read_bytes32(data, 1) },
                    master: Address { bytes: read_bytes32(data, 33) },
                    metadata: Address { bytes: read_bytes32(data, 65) },
                    token_account: Address { bytes: read_bytes32(data, 97) },
                    max_supply: m,
                    number_to_open: read_u32(data, k),
                    action_on_prove: a,
                    current_supply: read_u32(data, k + 5),
                },
            ),
            _ => Err(NFTPacksError::InvalidAccountData),
        }
    }

    /// Decodes an initialized voucher; `UninitializedAccount` when the bytes
    /// hold a record of another kind.
    pub fn unpack(data: &[u8]) -> (r: Result<PackVoucher, NFTPacksError>)
        ensures
            r == PackVoucher::spec_unpack_checked(data@),
    {
        let v = PackVoucher::unpack_unchecked(data)?;
        if v.is_initialized() {
            Ok(v)
        } else {
            Err(NFTPacksError::UninitializedAccount)
        }
    }
}

} // verus!

//! The per-user record of proof and redemption progress on one pack.
use crate::address::Address;
use crate::codec::{
    bytes32_from, lemma_bytes32_round_trip, lemma_u32_round_trip, put_bytes32, put_u32, put_u8, read_bytes32,
    read_u32, u32_from, u32_le,
};
use crate::enums::AccountType;
use crate::error::NFTPacksError;
use vstd::prelude::*;

verus! {

/// Stored length of a proving record.
pub const PROVING_PROCESS_LEN: usize = 113;

/// Progress of one user on one pack.
#[derive(Clone, Copy, Debug, PartialEq, Eq)]
pub struct ProvingProcess {
    /// Record kind - ProvingProcess
    pub account_type: AccountType,
    /// User whose progress this is
    pub user_wallet: Address,
    /// Pack set
    pub pack_set: Address,
    /// Voucher token mint, bound on the first proof
    pub voucher_mint: Address,
    /// Vouchers fully proved
    pub proved_vouchers: u32,
    /// Editions proved toward the voucher in progress
    pub proved_voucher_editions: u32,
    /// Index of the next card eligible for a draw; zero when none is
    pub next_card_to_redeem: u32,
    /// Successful draws so far
    pub cards_redeemed: u32,
}

/// Parameters of a fresh proving record.
pub struct InitProvingProcessParams {
    /// User wallet
    pub user_wallet: Address,
    /// Pack set
    pub pack_set: Address,
    /// Mint of the voucher token presented on the first proof
    pub voucher_mint: Address,
}

impl ProvingProcess {
    /// Stored bytes of the record, fields in declaration order.
    pub open spec fn spec_pack(self) -> Seq<u8> {
        seq![self.account_type.spec_tag()] + self.user_wallet@ + self.pack_set@ + self.voucher_mint@ + u32_le(
            self.proved_vouchers,
        ) + u32_le(self.proved_voucher_editions) + u32_le(self.next_card_to_redeem) + u32_le(
            self.cards_redeemed,
        )
    }

    /// The record stored in `s`, if `s` holds one.
    pub open spec fn spec_unpack(s: Seq<u8>) -> Option<ProvingProcess> {
        if s.len() != PROVING_PROCESS_LEN {
            None
        } else {
            match AccountType::spec_from_tag(s[0]) {
                Some(t) => Some(
                    ProvingProcess {
                        account_type: t,
                        user_wallet: Address { bytes: bytes32_from(s.subrange(1, 33)) },
                        pack_set: Address { bytes: bytes32_from(s.subrange(33, 65)) },
                        voucher_mint: Address { bytes: bytes32_from(s.subrange(65, 97)) },
                        proved_vouchers: u32_from(s.subrange(97, 101)),
                        proved_voucher_editions: u32_from(s.subrange(101, 105)),
                        next_card_to_redeem: u32_from(s.subrange(105, 109)),
                        cards_redeemed: u32_from(s.subrange(109, 113)),
                    },
                ),
                None => None,
            }
        }
    }

    /// The initialized record stored in `s`: `InvalidAccountData` when `s`
    /// holds no record, `UninitializedAccount` when it holds one of another kind.
    pub open spec fn spec_unpack_checked(s: Seq<u8>) -> Result<ProvingProcess, NFTPacksError> {
        match ProvingProcess::spec_unpack(s) {
            Some(v) => if v.account_type == AccountType::ProvingProcess {
                Ok(v)
            } else {
                Err(NFTPacksError::UninitializedAccount)
            },
            None => Err(NFTPacksError::InvalidAccountData),
        }
    }

    /// Decoding the stored bytes of a record gives the record back.
    pub proof fn lemma_round_trip(self)
        ensures
            ProvingProcess::spec_unpack(self.spec_pack()) == Some(self),
    {
        let s = self.spec_pack();
        lemma_bytes32_round_trip(self.user_wallet.bytes);
        lemma_bytes32_round_trip(self.pack_set.bytes);
        lemma_bytes32_round_trip(self.voucher_mint.bytes);
        lemma_u32_round_trip(self.proved_vouchers);
        lemma_u32_round_trip(self.proved_voucher_editions);
        lemma_u32_round_trip(self.next_card_to_redeem);
        lemma_u32_round_trip(self.cards_redeemed);
        assert(s.subrange(1, 33) =~= self.user_wallet@);
        assert(s.subrange(33, 65) =~= self.pack_set@);
        assert(s.subrange(65, 97) =~= self.voucher_mint@);
        assert(s.subrange(97, 101) =~= u32_le(self.proved_vouchers));
        assert(s.subrange(101, 105) =~= u32_le(self.proved_voucher_editions));
        assert(s.subrange(105, 109) =~= u32_le(self.next_card_to_redeem));
        assert(s.subrange(109, 113) =~= u32_le(self.cards_redeemed));
        match self.account_type {
            AccountType::Uninitialized => {},
            AccountType::PackSet => {},
            AccountType::PackCard => {},
            AccountType::PackVoucher => {},
            AccountType::ProvingProcess => {},
        }
    }

    /// Whether the record has been initialized as a proving record.
    pub fn is_initialized(&self) -> (r: bool)
        ensures
            r == (self.account_type == AccountType::ProvingProcess),
    {
        self.account_type == AccountType::ProvingProcess
    }

    /// Starts a proving record: zero counters, voucher mint bound.
    pub fn init(&mut self, params: InitProvingProcessParams)
        ensures
            final(self).account_type == AccountType::ProvingProcess,
            final(self).user_wallet == params.user_wallet,
            final(self).pack_set == params.pack_set,
            final(self).voucher_mint == params.voucher_mint,
            final(self).proved_vouchers == 0,
            final(self).proved_voucher_editions == 0,
            final(self).next_card_to_redeem == 0,
            final(self).cards_redeemed == 0,
    {
        self.account_type = AccountType::ProvingProcess;
        self.user_wallet = params.user_wallet;
        self.pack_set = params.pack_set;
        self.voucher_mint = params.voucher_mint;
        self.proved_vouchers = 0;
        self.proved_voucher_editions = 0;
        self.next_card_to_redeem = 0;
        self.cards_redeemed = 0;
    }

    /// Stored bytes of the record.
    pub fn pack(&self) -> (r: Vec<u8>)
        ensures
            r@ == self.spec_pack(),
            r@.len() == PROVING_PROCESS_LEN,
    {
        let mut out: Vec<u8> = Vec::new();
        put_u8(&mut out, self.account_type.tag());
        put_bytes32(&mut out, &self.user_wallet.bytes);
        put_bytes32(&mut out, &self.pack_set.bytes);
        put_bytes32(&mut out, &self.voucher_mint.bytes);
        put_u32(&mut out, self.proved_vouchers);
        put_u32(&mut out, self.proved_voucher_editions);
        put_u32(&mut out, self.next_card_to_redeem);
        put_u32(&mut out, self.cards_redeemed);
        assert(out@ =~= self.spec_pack());
        out
    }

    /// Decodes a record without checking its kind; `InvalidAccountData` when
    /// the bytes hold no record.
    pub fn unpack_unchecked(data: &[u8]) -> (r: Result<ProvingProcess, NFTPacksError>)
        ensures
            match ProvingProcess::spec_unpack(data@) {
                Some(p) => r == Ok::<ProvingProcess, NFTPacksError>(p),
                None => r == Err::<ProvingProcess, NFTPacksError>(NFTPacksError::InvalidAccountData),
            },
    {
        if data.len() != PROVING_PROCESS_LEN {
            return Err(NFTPacksError::InvalidAccountData);
        }
        match AccountType::from_tag(data[0]) {
            Some(t) => Ok(
                ProvingProcess {
                    account_type: t,
                    user_wallet: Address { bytes: read_bytes32(data, 1) },
                    pack_set: Address { bytes: read_bytes32(data, 33) },
                    voucher_mint: Address { bytes: read_bytes32(data, 65) },
                    proved_vouchers: read_u32(data, 97),
                    proved_voucher_editions: read_u32(data, 101),
                    next_card_to_redeem: read_u32(data, 105),
                    cards_redeemed: read_u32(data, 109),
                },
            ),
            None => Err(NFTPacksError::InvalidAccountData),
        }
    }

    /// Decodes an initialized proving record; `UninitializedAccount` when the
    /// bytes hold a record of another kind.
    pub fn unpack(data: &[u8]) -> (r: Result<ProvingProcess, NFTPacksError>)
        ensures
            r == ProvingProcess::spec_unpack_checked(data@),
    {
        let p = ProvingProcess::unpack_unchecked(data)?;
        if p.is_initialized() {
            Ok(p)
        } else {
            Err(NFTPacksError::UninitializedAccount)
        }
    }
}

} // verus!

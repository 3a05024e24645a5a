//! What the pack logic reads of a token account, and who may act for it.
use crate::address::Address;
use crate::codec::{bytes32_from, u64_from};
use crate::error::NFTPacksError;
use vstd::prelude::*;

verus! {

/// Stored length of a token account.
pub const TOKEN_ACCOUNT_LEN: usize = 165;

/// The fields of a token account that the pack logic reads.
#[derive(Clone, Copy, Debug, PartialEq, Eq)]
pub struct TokenHolding {
    /// Mint of the token
    pub mint: Address,
    /// Owner of the account
    pub owner: Address,
    /// Tokens held
    pub amount: u64,
    /// Delegate, if any
    pub delegate: Option<Address>,
    /// Tokens the delegate may move
    pub delegated_amount: u64,
}

/// A four-byte option tag: `[0, 0, 0, 0]` or `[1, 0, 0, 0]`.
pub open spec fn coption_tag_valid(s: Seq<u8>) -> bool {
    s == seq![0u8, 0u8, 0u8, 0u8] || s == seq![1u8, 0u8, 0u8, 0u8]
}

/// Whether `s` holds an initialized token account: the right length, valid
/// option tags for delegate, native reserve and close authority, and a state
/// byte of initialized (1) or frozen (2).
pub open spec fn token_account_valid(s: Seq<u8>) -> bool {
    &&& s.len() == TOKEN_ACCOUNT_LEN
    &&& coption_tag_valid(s.subrange(72, 76))
    &&& (s[108] == 1 || s[108] == 2)
    &&& coption_tag_valid(s.subrange(109, 113))
    &&& coption_tag_valid(s.subrange(129, 133))
}

/// The fields read from a valid token account: mint at 0, owner at 32, amount
/// at 64, delegate tag at 72 and key at 76, delegated amount at 121.
pub open spec fn token_holding_of(s: Seq<u8>) -> TokenHolding {
    TokenHolding {
        mint: Address { bytes: bytes32_from(s.subrange(0, 32)) },
        owner: Address { bytes: bytes32_from(s.subrange(32, 64)) },
        amount: u64_from(s.subrange(64, 72)),
        delegate: if s[72] == 1 {
            Some(Address { bytes: bytes32_from(s.subrange(76, 108)) })
        } else {
            None
        },
        delegated_amount: u64_from(s.subrange(121, 129)),
    }
}

/// Relies on spl_token's `Account` unpacking through `Pack::unpack`: it accepts
/// exactly 165 bytes (mint 32, owner 32, amount 8, delegate 4 + 32, state 1,
/// native reserve 4 + 8, delegated amount 8, close authority 4 + 32), with
/// option tags `[0,0,0,0]` or `[1,0,0,0]`, a state byte of 0 to 2, and fails
/// on an uninitialized (state 0) account.
#[verifier::external_body]
fn unpack_token_account(data: &[u8]) -> (r: Option<TokenHolding>)
    ensures
        r is Some <==> token_account_valid(data@),
        r is Some ==> r->Some_0 == token_holding_of(data@),
{
    match <spl_token::state::Account as solana_program::program_pack::Pack>::unpack(data) {
        Ok(account) => Some(TokenHolding {
            mint: Address { bytes: account.mint.to_bytes() },
            owner: Address { bytes: account.owner.to_bytes() },
            amount: account.amount,
            delegate: Option::<solana_program::pubkey::Pubkey>::from(account.delegate).map(
                |k| Address { bytes: k.to_bytes() },
            ),
            delegated_amount: account.delegated_amount,
        }),
        Err(_) => None,
    }
}

impl TokenHolding {
    /// Decodes an initialized token account; `InvalidAccountData` otherwise.
    pub fn unpack(data: &[u8]) -> (r: Result<TokenHolding, NFTPacksError>)
        ensures
            token_account_valid(data@) ==> r == Ok::<TokenHolding, NFTPacksError>(token_holding_of(data@)),
            !token_account_valid(data@) ==> r == Err::<TokenHolding, NFTPacksError>(
                NFTPacksError::InvalidAccountData,
            ),
    {
        match unpack_token_account(data) {
            Some(t) => Ok(t),
            None => Err(NFTPacksError::InvalidAccountData),
        }
    }

    /// Whether `user` may act for this account: as its owner, or as its
    /// delegate with a positive allowance.
    pub open spec fn spec_held_by(self, user: Seq<u8>) -> bool {
        ||| self.owner@ == user
        ||| (self.delegate is Some && self.delegated_amount > 0 && self.delegate->Some_0@ == user)
    }

    /// Fails with `WrongVoucherOwner` unless `user` may act for this account.
    pub fn assert_held_by(&self, user: &Address) -> (r: Result<(), NFTPacksError>)
        ensures
            self.spec_held_by(user@) ==> r is Ok,
            !self.spec_held_by(user@) ==> r == Err::<(), NFTPacksError>(NFTPacksError::WrongVoucherOwner),
    {
        if self.owner.same_as(user) {
            return Ok(());
        }
        match &self.delegate {
            Some(delegate) => if self.delegated_amount > 0 && delegate.same_as(user) {
                Ok(())
            } else {
                Err(NFTPacksError::WrongVoucherOwner)
            },
            None => Err(NFTPacksError::WrongVoucherOwner),
        }
    }
}

} // verus!

//! Probabilistic NFT pack redemption: checked arithmetic, address derivation and
//! account validation, fixed-layout state records, the ownership-proof state
//! machine and the claim engine.
pub mod address;
pub mod claim;
pub mod codec;
pub mod enums;
pub mod error;
pub mod instruction;
pub mod laws;
pub mod math;
pub mod metadata;
pub mod pack_card;
pub mod pack_set;
pub mod pack_voucher;
pub mod proving;
pub mod proving_process;
pub mod token;

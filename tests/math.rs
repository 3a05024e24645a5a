use metaplex_nft_packs::error::NFTPacksError;
use metaplex_nft_packs::math::{
    error_add_u32, error_add_u64, error_decrement_u32, error_div_u128, error_increment_u32, error_increment_u64,
    error_mul_u128, error_sub_u32, error_sub_u64,
};

#[test]
fn checked_operations() {
    assert_eq!(error_add_u32(2, 3), Ok(5));
    assert_eq!(error_add_u32(u32::MAX, 1), Err(NFTPacksError::Overflow));
    assert_eq!(error_sub_u32(3, 2), Ok(1));
    assert_eq!(error_sub_u32(2, 3), Err(NFTPacksError::Underflow));
    assert_eq!(error_increment_u32(7), Ok(8));
    assert_eq!(error_increment_u32(u32::MAX), Err(NFTPacksError::Overflow));
    assert_eq!(error_decrement_u32(1), Ok(0));
    assert_eq!(error_decrement_u32(0), Err(NFTPacksError::Underflow));
    assert_eq!(error_add_u64(u64::MAX - 1, 1), Ok(u64::MAX));
    assert_eq!(error_add_u64(u64::MAX, 1), Err(NFTPacksError::Overflow));
    assert_eq!(error_sub_u64(0, 1), Err(NFTPacksError::Underflow));
    assert_eq!(error_increment_u64(u64::MAX), Err(NFTPacksError::Overflow));
    assert_eq!(error_mul_u128(1000, 65535), Ok(65_535_000));
    assert_eq!(error_mul_u128(u128::MAX, 2), Err(NFTPacksError::Overflow));
    assert_eq!(error_div_u128(65_535_000, 1000), Ok(65535));
    assert_eq!(error_div_u128(7, 2), Ok(3));
    assert_eq!(error_div_u128(1, 0), Err(NFTPacksError::Overflow));
}

#[test]
fn error_codes_are_positions() {
    assert_eq!(NFTPacksError::WrongTotalPacksAmount.code(), 0);
    assert_eq!(NFTPacksError::Overflow.code(), 11);
    assert_eq!(NFTPacksError::WrongNumberToOpen.code(), 21);
    assert_eq!(NFTPacksError::InvalidSeeds.code(), 31);
    assert_eq!(NFTPacksError::ImmutablePackSet.message(), "Pack set is immutable");
}

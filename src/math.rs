//! Checked arithmetic: every operation fails with `Overflow` or `Underflow`
//! instead of wrapping or truncating.
use crate::error::NFTPacksError;
use vstd::prelude::*;

verus! {

/// `a + b`, or `Overflow` when the sum does not fit in a `u32`.
pub fn error_add_u32(a: u32, b: u32) -> (r: Result<u32, NFTPacksError>)
    ensures
        a + b <= u32::MAX ==> r == Ok::<u32, NFTPacksError>((a + b) as u32),
        a + b > u32::MAX ==> r == Err::<u32, NFTPacksError>(NFTPacksError::Overflow),
{
    match a.checked_add(b) {
        Some(v) => Ok(v),
        None => Err(NFTPacksError::Overflow),
    }
}

/// `a - b`, or `Underflow` when `b > a`.
pub fn error_sub_u32(a: u32, b: u32) -> (r: Result<u32, NFTPacksError>)
    ensures
        b <= a ==> r == Ok::<u32, NFTPacksError>((a - b) as u32),
        b > a ==> r == Err::<u32, NFTPacksError>(NFTPacksError::Underflow),
{
    match a.checked_sub(b) {
        Some(v) => Ok(v),
        None => Err(NFTPacksError::Underflow),
    }
}

/// `a + 1`, or `Overflow` at `u32::MAX`.
pub fn error_increment_u32(a: u32) -> (r: Result<u32, NFTPacksError>)
    ensures
        a < u32::MAX ==> r == Ok::<u32, NFTPacksError>((a + 1) as u32),
        a == u32::MAX ==> r == Err::<u32, NFTPacksError>(NFTPacksError::Overflow),
{
    error_add_u32(a, 1)
}

/// `a - 1`, or `Underflow` at zero.
pub fn error_decrement_u32(a: u32) -> (r: Result<u32, NFTPacksError>)
    ensures
        a > 0 ==> r == Ok::<u32, NFTPacksError>((a - 1) as u32),
        a == 0 ==> r == Err::<u32, NFTPacksError>(NFTPacksError::Underflow),
{
    error_sub_u32(a, 1)
}

/// `a + b`, or `Overflow` when the sum does not fit in a `u64`.
pub fn error_add_u64(a: u64, b: u64) -> (r: Result<u64, NFTPacksError>)
    ensures
        a + b <= u64::MAX ==> r == Ok::<u64, NFTPacksError>((a + b) as u64),
        a + b > u64::MAX ==> r == Err::<u64, NFTPacksError>(NFTPacksError::Overflow),
{
    match a.checked_add(b) {
        Some(v) => Ok(v),
        None => Err(NFTPacksError::Overflow),
    }
}

/// `a - b`, or `Underflow` when `b > a`.
pub fn error_sub_u64(a: u64, b: u64) -> (r: Result<u64, NFTPacksError>)
    ensures
        b <= a ==> r == Ok::<u64, NFTPacksError>((a - b) as u64),
        b > a ==> r == Err::<u64, NFTPacksError>(NFTPacksError::Underflow),
{
    match a.checked_sub(b) {
        Some(v) => Ok(v),
        None => Err(NFTPacksError::Underflow),
    }
}

/// `a + 1`, or `Overflow` at `u64::MAX`.
pub fn error_increment_u64(a: u64) -> (r: Result<u64, NFTPacksError>)
    ensures
        a < u64::MAX ==> r == Ok::<u64, NFTPacksError>((a + 1) as u64),
        a == u64::MAX ==> r == Err::<u64, NFTPacksError>(NFTPacksError::Overflow),
{
    error_add_u64(a, 1)
}

/// `a * b`, or `Overflow` when the product does not fit in a `u128`.
pub fn error_mul_u128(a: u128, b: u128) -> (r: Result<u128, NFTPacksError>)
    ensures
        a * b <= u128::MAX ==> r == Ok::<u128, NFTPacksError>((a * b) as u128),
        a * b > u128::MAX ==> r == Err::<u128, NFTPacksError>(NFTPacksError::Overflow),
{
    match a.checked_mul(b) {
        Some(v) => Ok(v),
        None => Err(NFTPacksError::Overflow),
    }
}

/// `a / b` rounded down, or `Overflow` when `b` is zero.
pub fn error_div_u128(a: u128, b: u128) -> (r: Result<u128, NFTPacksError>)
    ensures
        b != 0 ==> r == Ok::<u128, NFTPacksError>((a / b) as u128),
        b == 0 ==> r == Err::<u128, NFTPacksError>(NFTPacksError::Overflow),
{
    match a.checked_div(b) {
        Some(v) => Ok(v),
        None => Err(NFTPacksError::Overflow),
    }
}

} // verus!

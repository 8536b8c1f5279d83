use vstd::prelude::*;

use crate::account::AccountView;
use crate::address::Address;
use crate::error::AppError;

verus! {

/// The rent service, "SysvarRent111111111111111111111111111111111" in base58.
pub open spec fn rent_service() -> Seq<u8> {
    seq![
        6, 167, 213, 23, 25, 44, 92, 81, 33, 140, 201, 76, 61, 74, 241, 127,
        88, 218, 238, 8, 155, 161, 253, 68, 227, 219, 217, 138, 0, 0, 0, 0,
    ]
}

/// The system service, "11111111111111111111111111111111" in base58.
pub open spec fn system_service() -> Seq<u8> {
    Seq::new(32, |i: int| 0u8)
}

/// The token service, "TokenkegQfeZyiNwAJbNbGKPFXCWuBvf9Ss623VQ5DA" in base58.
pub open spec fn token_service() -> Seq<u8> {
    seq![
        6, 221, 246, 225, 215, 101, 161, 147, 217, 203, 225, 70, 206, 235, 121, 172,
        28, 180, 133, 237, 95, 91, 55, 145, 58, 140, 245, 133, 126, 255, 0, 169,
    ]
}

/// Relies on `solana_program::sysvar::rent::id`, declared as
/// "SysvarRent111111111111111111111111111111111".
#[verifier::external_body]
pub(crate) fn rent_service_id() -> (r: Address)
    ensures
        r@ == rent_service(),
{
    Address { bytes: solana_program::sysvar::rent::id().to_bytes() }
}

/// Relies on `solana_program::system_program::id`, declared as
/// "11111111111111111111111111111111".
#[verifier::external_body]
pub(crate) fn system_service_id() -> (r: Address)
    ensures
        r@ == system_service(),
{
    Address { bytes: solana_program::system_program::id().to_bytes() }
}

/// Relies on `spl_token::id`, declared as "TokenkegQfeZyiNwAJbNbGKPFXCWuBvf9Ss623VQ5DA".
#[verifier::external_body]
pub(crate) fn token_service_id() -> (r: Address)
    ensures
        r@ == token_service(),
{
    Address { bytes: spl_token::id().to_bytes() }
}

/// The outcome of an identity check that fails with `e`.
pub open spec fn identity_check(actual: Seq<u8>, expected: Seq<u8>, e: AppError) -> Result<(), AppError> {
    if actual == expected {
        Ok(())
    } else {
        Err(e)
    }
}

/// Generic identity check.
pub fn assert_eq_pubkey(account_info: &AccountView, account: &Address) -> (r: Result<(), AppError>)
    ensures
        r == identity_check(account_info.key@, account@, AppError::IdentityMismatch),
{
    if account_info.key.same(account) {
        Ok(())
    } else {
        Err(AppError::IdentityMismatch)
    }
}

/// Identity check of the rent service.
pub fn assert_eq_pubkey_0(account_info: &AccountView, account: &Address) -> (r: Result<(), AppError>)
    ensures
        r == identity_check(account_info.key@, account@, AppError::RentServiceMismatch),
{
    if account_info.key.same(account) {
        Ok(())
    } else {
        Err(AppError::RentServiceMismatch)
    }
}

/// Identity check of the system service.
pub fn assert_eq_pubkey_1(account_info: &AccountView, account: &Address) -> (r: Result<(), AppError>)
    ensures
        r == identity_check(account_info.key@, account@, AppError::SystemServiceMismatch),
{
    if account_info.key.same(account) {
        Ok(())
    } else {
        Err(AppError::SystemServiceMismatch)
    }
}

/// Identity check of any further well-known service.
pub fn assert_eq_pubkey_2(account_info: &AccountView, account: &Address) -> (r: Result<(), AppError>)
    ensures
        r == identity_check(account_info.key@, account@, AppError::ServiceMismatch),
{
    if account_info.key.same(account) {
        Ok(())
    } else {
        Err(AppError::ServiceMismatch)
    }
}

/// Checks that `account` is owned by `owner`.
pub fn assert_owned_by(account: &AccountView, owner: &Address) -> (r: Result<(), AppError>)
    ensures
        r == identity_check(account.owner@, owner@, AppError::InvalidOwner),
{
    if account.owner.same(owner) {
        Ok(())
    } else {
        Err(AppError::InvalidOwner)
    }
}

/// Checks that `account_info` co-signed the request.
pub fn assert_signer(account_info: &AccountView) -> (r: Result<(), AppError>)
    ensures
        r == (if account_info.is_signer {
            Ok(())
        } else {
            Err(AppError::MissingSignature)
        }),
{
    if account_info.is_signer {
        Ok(())
    } else {
        Err(AppError::MissingSignature)
    }
}

/// Checks that `account_info` is the rent service.
pub fn assert_rent_service(account_info: &AccountView) -> (r: Result<(), AppError>)
    ensures
        r == identity_check(account_info.key@, rent_service(), AppError::RentServiceMismatch),
{
    assert_eq_pubkey_0(account_info, &rent_service_id())
}

/// Checks that `account_info` is the system service.
pub fn assert_system_service(account_info: &AccountView) -> (r: Result<(), AppError>)
    ensures
        r == identity_check(account_info.key@, system_service(), AppError::SystemServiceMismatch),
{
    assert_eq_pubkey_1(account_info, &system_service_id())
}

/// Checks that `account_info` is the token service.
pub fn assert_token_service(account_info: &AccountView) -> (r: Result<(), AppError>)
    ensures
        r == identity_check(account_info.key@, token_service(), AppError::IdentityMismatch),
{
    assert_eq_pubkey(account_info, &token_service_id())
}

} // verus!

use vstd::prelude::*;

verus! {

/// Every way a request can be refused.
#[derive(Clone, Copy, Debug, PartialEq, Eq, Structural)]
pub enum AppError {
    /// The request was not authorised by the identity that must sign it.
    MissingSignature,
    /// A record is not owned by this program.
    InvalidOwner,
    /// A storage slot is not the one derived from its tag and key material.
    InvalidDerivedKey,
    /// A record's bytes have the wrong length or shape.
    InvalidAccountData,
    /// A generic identity check failed.
    IdentityMismatch,
    /// The account passed as the rent service is not the rent service.
    RentServiceMismatch,
    /// The account passed as the system service is not the system service.
    SystemServiceMismatch,
    /// A further well-known service identity did not match.
    ServiceMismatch,
    /// Fewer storage-slot references than the operation needs.
    NotEnoughAccountKeys,
    /// The request payload could not be decoded.
    InvalidInstructionData,
    /// An amount or counter would not fit in 64 bits.
    ArithmeticOverflow,
    /// A record no longer fits in its fixed-size slot.
    AccountDataTooSmall,
    /// Tickets cannot be bought: the round has not started or is closed.
    SaleNotOpen,
    /// Rewards cannot be claimed: the round is still open.
    SaleNotClosed,
    /// The reward of this ticket record was already claimed.
    Claimed,
    /// The signer is not the round's administrator.
    InvalidAuthority,
    /// The round is closed and can be neither closed again nor reconfigured.
    RoundClosed,
}

/// The numeric code of each error; no two errors share one.
pub open spec fn code_of(e: AppError) -> u32 {
    match e {
        AppError::MissingSignature => 0,
        AppError::InvalidOwner => 1,
        AppError::InvalidDerivedKey => 2,
        AppError::InvalidAccountData => 3,
        AppError::IdentityMismatch => 4,
        AppError::RentServiceMismatch => 5,
        AppError::SystemServiceMismatch => 6,
        AppError::ServiceMismatch => 7,
        AppError::NotEnoughAccountKeys => 8,
        AppError::InvalidInstructionData => 9,
        AppError::ArithmeticOverflow => 10,
        AppError::AccountDataTooSmall => 11,
        AppError::SaleNotOpen => 12,
        AppError::SaleNotClosed => 13,
        AppError::Claimed => 14,
        AppError::InvalidAuthority => 15,
        AppError::RoundClosed => 16,
    }
}

impl AppError {
    /// A stable numeric code for each error.
    pub fn code(&self) -> (r: u32)
        ensures
            r == code_of(*self),
            forall|other: AppError| #[trigger] code_of(other) == r ==> other == *self,
    {
        match self {
            AppError::MissingSignature => 0,
            AppError::InvalidOwner => 1,
            AppError::InvalidDerivedKey => 2,
            AppError::InvalidAccountData => 3,
            AppError::IdentityMismatch => 4,
            AppError::RentServiceMismatch => 5,
            AppError::SystemServiceMismatch => 6,
            AppError::ServiceMismatch => 7,
            AppError::NotEnoughAccountKeys => 8,
            AppError::InvalidInstructionData => 9,
            AppError::ArithmeticOverflow => 10,
            AppError::AccountDataTooSmall => 11,
            AppError::SaleNotOpen => 12,
            AppError::SaleNotClosed => 13,
            AppError::Claimed => 14,
            AppError::InvalidAuthority => 15,
            AppError::RoundClosed => 16,
        }
    }

    /// The free-text reason carried by the domain errors.
    pub fn reason(&self) -> (r: &'static str)
        ensures
            *self == AppError::SaleNotOpen ==> r@ == "sale not open"@,
            *self == AppError::SaleNotClosed ==> r@ == "sale not closed"@,
            *self == AppError::Claimed ==> r@ == "claimed"@,
            *self == AppError::InvalidAuthority ==> r@ == "invalid authority"@,
            *self == AppError::RoundClosed ==> r@ == "round closed"@,
    {
        match self {
            AppError::SaleNotOpen => "sale not open",
            AppError::SaleNotClosed => "sale not closed",
            AppError::Claimed => "claimed",
            AppError::InvalidAuthority => "invalid authority",
            AppError::RoundClosed => "round closed",
            AppError::MissingSignature => "missing signature",
            AppError::InvalidOwner => "invalid owner",
            AppError::InvalidDerivedKey => "invalid derived key",
            AppError::InvalidAccountData => "invalid account data",
            AppError::IdentityMismatch => "identity mismatch",
            AppError::RentServiceMismatch => "rent service mismatch",
            AppError::SystemServiceMismatch => "system service mismatch",
            AppError::ServiceMismatch => "service mismatch",
            AppError::NotEnoughAccountKeys => "not enough account keys",
            AppError::InvalidInstructionData => "invalid instruction data",
            AppError::ArithmeticOverflow => "arithmetic overflow",
            AppError::AccountDataTooSmall => "account data too small",
        }
    }
}

} // verus!

//! Error codes of the ticketing contract.
use vstd::prelude::*;

verus! {

/// Why a ticketing operation was refused.
#[derive(Clone, Copy, Debug, PartialEq, Eq, Structural, PartialOrd, Ord)]
pub enum Error {
    AlreadyInitialized,
    NotInitialized,
    EventNotFound,
    EventAlreadyExists,
    TicketNotFound,
    NotOrganizer,
    NotOwner,
    AlreadyUsed,
    Revoked,
    NotForResale,
    ResalePriceExceedsCap,
    InvalidPrice,
    InvalidRoyalty,
    EscrowNotEnabled,
    EventNotEnded,
    PurchaseTooSoon,
    NotAdmin,
    EventAlreadyStarted,
    InvalidEventTime,
    TransfersFrozen,
    ResaleClosed,
    InvalidLottery,
    GiftClaimNotFound,
    GiftClaimExpired,
    InvalidSecret,
    InvalidExpiry,
    EmptyBatch,
    BatchTooLarge,
    InvalidPaymentToken,
    NoPendingPaymentToken,
    TimelockNotElapsed,
    TicketsAlreadyIssued,
    ResalePriceBelowFloor,
    TransferLimitExceeded,
}

/// The numeric code under which the contract reports each error.
pub open spec fn error_code(e: Error) -> u32 {
    match e {
        Error::AlreadyInitialized => 1,
        Error::NotInitialized => 2,
        Error::EventNotFound => 3,
        Error::EventAlreadyExists => 4,
        Error::TicketNotFound => 5,
        Error::NotOrganizer => 6,
        Error::NotOwner => 7,
        Error::AlreadyUsed => 8,
        Error::Revoked => 9,
        Error::NotForResale => 10,
        Error::ResalePriceExceedsCap => 11,
        Error::InvalidPrice => 12,
        Error::InvalidRoyalty => 13,
        Error::EscrowNotEnabled => 14,
        Error::EventNotEnded => 15,
        Error::PurchaseTooSoon => 16,
        Error::NotAdmin => 17,
        Error::EventAlreadyStarted => 18,
        Error::InvalidEventTime => 19,
        Error::TransfersFrozen => 20,
        Error::ResaleClosed => 21,
        Error::InvalidLottery => 22,
        Error::GiftClaimNotFound => 23,
        Error::GiftClaimExpired => 24,
        Error::InvalidSecret => 25,
        Error::InvalidExpiry => 26,
        Error::EmptyBatch => 27,
        Error::BatchTooLarge => 28,
        Error::InvalidPaymentToken => 29,
        Error::NoPendingPaymentToken => 30,
        Error::TimelockNotElapsed => 31,
        Error::TicketsAlreadyIssued => 32,
        Error::ResalePriceBelowFloor => 33,
        Error::TransferLimitExceeded => 34,
    }
}

impl Error {
    /// The contract error code of this error.
    pub fn code(&self) -> (c: u32)
        ensures
            c == error_code(*self),
    {
        match self {
            Error::AlreadyInitialized => 1,
            Error::NotInitialized => 2,
            Error::EventNotFound => 3,
            Error::EventAlreadyExists => 4,
            Error::TicketNotFound => 5,
            Error::NotOrganizer => 6,
            Error::NotOwner => 7,
            Error::AlreadyUsed => 8,
            Error::Revoked => 9,
            Error::NotForResale => 10,
            Error::ResalePriceExceedsCap => 11,
            Error::InvalidPrice => 12,
            Error::InvalidRoyalty => 13,
            Error::EscrowNotEnabled => 14,
            Error::EventNotEnded => 15,
            Error::PurchaseTooSoon => 16,
            Error::NotAdmin => 17,
            Error::EventAlreadyStarted => 18,
            Error::InvalidEventTime => 19,
            Error::TransfersFrozen => 20,
            Error::ResaleClosed => 21,
            Error::InvalidLottery => 22,
            Error::GiftClaimNotFound => 23,
            Error::GiftClaimExpired => 24,
            Error::InvalidSecret => 25,
            Error::InvalidExpiry => 26,
            Error::EmptyBatch => 27,
            Error::BatchTooLarge => 28,
            Error::InvalidPaymentToken => 29,
            Error::NoPendingPaymentToken => 30,
            Error::TimelockNotElapsed => 31,
            Error::TicketsAlreadyIssued => 32,
            Error::ResalePriceBelowFloor => 33,
            Error::TransferLimitExceeded => 34,
        }
    }
}

} // verus!

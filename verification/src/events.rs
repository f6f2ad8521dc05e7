//! Records of what the contract publishes when an operation succeeds.
use vstd::prelude::*;
use crate::types::AccountId;

verus! {

/// Published when a ticket is minted.
#[derive(Clone, Copy, Debug, PartialEq, Eq, Structural)]
pub struct TicketIssued {
    pub ticket_id: u64,
    pub event_id: u64,
}

/// Published once, when the contract is initialized.
#[derive(Clone, Copy, Debug, PartialEq, Eq, Structural)]
pub struct ContractInitialized {
    pub admin: AccountId,
    pub payment_token: AccountId,
}

/// Published when the admin changes the purchase throttle.
#[derive(Clone, Copy, Debug, PartialEq, Eq, Structural)]
pub struct PurchaseThrottleUpdated {
    pub admin: AccountId,
    pub min_ledger_spacing: u32,
}

/// Published when the admin proposes a payment token change.
#[derive(Clone, Copy, Debug, PartialEq, Eq, Structural)]
pub struct PaymentTokenProposed {
    pub admin: AccountId,
    pub new_token: AccountId,
    pub apply_after_ledger: u32,
}

/// Published when a proposed payment token change is applied.
#[derive(Clone, Copy, Debug, PartialEq, Eq, Structural)]
pub struct PaymentTokenChanged {
    pub admin: AccountId,
    pub old_token: AccountId,
    pub new_token: AccountId,
}

/// Published when a ticket is checked in at the point of entry.
#[derive(Clone, Copy, Debug, PartialEq, Eq, Structural)]
pub struct TicketCheckedIn {
    pub ticket_id: u64,
    pub organizer: AccountId,
}

} // verus!

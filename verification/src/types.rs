//! Storage records of the ticketing contract.
use vstd::prelude::*;

verus! {

/// An account or contract on the ledger (a ticket holder, an organizer, the
/// admin, a token contract), identified by a stable numeric handle.
pub type AccountId = u64;

/// Where a ticket is in its life.
#[derive(Clone, Copy, Debug, PartialEq, Eq, Structural)]
pub enum TicketStatus {
    Valid,
    Used,
    Revoked,
    Resale,
}

/// An event that an organizer sells tickets for.
#[derive(Clone, Debug, PartialEq, Eq)]
pub struct Event {
    pub organizer: AccountId,
    pub name: String,
    /// Category such as "concert", "flight", "sports", "conference"; free
    /// text so that new industries need no migration.
    pub category: String,
    /// Basis-point cap on a resale price relative to the original price
    /// (12_000 is 120%); the anti-scalping limit.
    pub max_resale_multiplier_bps: u32,
    /// Basis points of every resale price paid to the organizer.
    pub royalty_bps: u32,
    pub tickets_issued: u64,
    pub starts_at: u64,
    pub transfer_freeze_seconds: u64,
    pub resale_cutoff_seconds: u64,
    /// When true, primary sale proceeds are held by the contract until the
    /// ledger sequence reaches `escrow_release_ledger`.
    pub escrow_enabled: bool,
    pub escrow_release_ledger: u32,
    /// Primary sale proceeds currently held in escrow for this event.
    pub escrow_balance: i128,
    /// The token this event settles in; `None` means the contract-wide one.
    pub payment_token: Option<AccountId>,
    /// Optional floor on a resale price, in thousandths of the original
    /// price (1_100 is 110%).
    pub min_resale_multiplier_bps: Option<u32>,
    /// Optional limit on the direct transfers of each ticket.
    pub max_transfers_per_ticket: Option<u32>,
}

/// A ticket for an event.
#[derive(Clone, Debug, PartialEq, Eq)]
pub struct Ticket {
    pub event_id: u64,
    pub owner: AccountId,
    pub tier: String,
    pub seat: String,
    pub status: TicketStatus,
    pub original_price: i128,
    pub resale_price: i128,
    /// Direct transfers this ticket has gone through.
    pub transfers: u32,
}

/// A pending gift of a ticket, claimable with the secret whose SHA-256 is
/// `secret_hash` before `expires_at`.
#[derive(Clone, Copy, Debug, PartialEq, Eq)]
pub struct GiftClaim {
    pub from: AccountId,
    pub secret_hash: [u8; 32],
    pub expires_at: u64,
}

/// A payment token change that has been proposed but not yet applied.
#[derive(Clone, Copy, Debug, PartialEq, Eq, Structural)]
pub struct PendingPaymentToken {
    pub token: AccountId,
    pub apply_after_ledger: u32,
}

/// A token transfer that an operation settles with.
#[derive(Clone, Copy, Debug, PartialEq, Eq, Structural)]
pub struct Payment {
    pub token: AccountId,
    pub from: AccountId,
    pub to: AccountId,
    pub amount: i128,
}

/// Why a token contract refused a transfer.
#[derive(Clone, Copy, Debug, PartialEq, Eq, Structural)]
pub enum TokenFailure {
    TransferFailed,
}

} // verus!

//! Ticketing rules for events sold on a Soroban ledger: events, tickets,
//! primary sales, capped resale with organizer royalties, gift claims,
//! escrowed proceeds and an admin-controlled payment token, as a verified
//! state machine.  Accounts and token contracts are identified by `u64`
//! handles; the ledger clock is passed in by the caller.
pub mod constants;
pub mod error;
pub mod host;
pub mod types;
pub mod events;
pub mod pricing;
pub mod state;
pub mod lottery;
pub mod token_doubles;
pub mod laws;
pub mod budget;

//! Two misbehaving token contracts, for exercising how the ticketing rules
//! cope with the tokens they settle in: one whose transfers always fail,
//! and one that tries to call back into the ticketing contract while it is
//! being paid.
use vstd::prelude::*;
use crate::types::{AccountId, TokenFailure};

verus! {

/// A token contract whose `transfer` always fails, standing in for a real
/// token misbehaving (frozen account, paused contract, missing trustline).
/// It implements only the two entry points a purchase uses.
#[derive(Clone, Copy, Debug, PartialEq, Eq, Structural)]
pub struct FailingToken;

impl FailingToken {
    /// The token's decimals: seven, as a Stellar asset has.
    pub fn decimals(&self) -> (d: u32)
        ensures
            d == 7,
    {
        7
    }

    /// Refuses every transfer.
    pub fn transfer(&self, from: AccountId, to: AccountId, amount: i128) -> (r: Result<
        (),
        TokenFailure,
    >)
        ensures
            r == Err::<(), TokenFailure>(TokenFailure::TransferFailed),
    {
        Err(TokenFailure::TransferFailed)
    }
}

/// The call a malicious token makes back into the ticketing contract while
/// it is asked to transfer: a primary purchase of event 1, tier "GA", seat
/// "reentrant", paid with the amount being transferred.
#[derive(Clone, Debug, PartialEq, Eq)]
pub struct ReentrantPurchase {
    pub contract: AccountId,
    pub buyer: AccountId,
    pub event_id: u64,
    pub tier: String,
    pub seat: String,
    pub price: i128,
}

/// A token contract that, asked to transfer, attempts to re-enter the
/// ticketing contract it was given as target instead of moving funds.
#[derive(Clone, Copy, Debug, PartialEq, Eq, Structural)]
pub struct MaliciousReentrantToken {
    pub target: Option<AccountId>,
}

impl MaliciousReentrantToken {
    /// A malicious token without a target yet.
    pub fn new() -> (t: Self)
        ensures
            t.target.is_none(),
    {
        MaliciousReentrantToken { target: None }
    }

    /// The token's decimals: seven, as a Stellar asset has.
    pub fn decimals(&self) -> (d: u32)
        ensures
            d == 7,
    {
        7
    }

    /// The contract the token will call back into.
    pub fn set_target(&mut self, target: AccountId)
        ensures
            final(self).target == Some(target),
    {
        self.target = Some(target);
    }

    /// Moves no funds; when it has a target, returns the purchase it
    /// attempts in the target on `from`'s behalf.
    pub fn transfer(&self, from: AccountId, to: AccountId, amount: i128) -> (r: Option<
        ReentrantPurchase,
    >)
        ensures
            match self.target {
                None => r.is_none(),
                Some(target) => r matches Some(call) && call.contract == target && call.buyer
                    == from && call.event_id == 1 && call.tier@ == "GA"@ && call.seat@
                    == "reentrant"@ && call.price == amount,
            },
    {
        match self.target {
            None => None,
            Some(target) => Some(
                ReentrantPurchase {
                    contract: target,
                    buyer: from,
                    event_id: 1,
                    tier: String::from_str("GA"),
                    seat: String::from_str("reentrant"),
                    price: amount,
                },
            ),
        }
    }
}

} // verus!

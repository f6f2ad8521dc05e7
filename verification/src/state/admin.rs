//! Initialization, the purchase throttle and the timelocked change of the
//! contract-wide payment token.
use vstd::prelude::*;
use crate::constants::PAYMENT_TOKEN_CHANGE_DELAY_LEDGERS;
use crate::error::Error;
use crate::events::{ContractInitialized, PaymentTokenChanged, PaymentTokenProposed, PurchaseThrottleUpdated};
use crate::types::{AccountId, PendingPaymentToken};
use super::{keeps_history, Ticketing, TicketingView};

verus! {

/// Why `initialize` is refused, if it is.  `token_decimals` is what the
/// token contract answered when asked for its decimals (`None`: the call
/// failed, so the address is no token contract).
pub open spec fn initialize_error(s: TicketingView, token_decimals: Option<u32>) -> Option<Error> {
    if s.admin.is_some() {
        Some(Error::AlreadyInitialized)
    } else if token_decimals.is_none() {
        Some(Error::InvalidPaymentToken)
    } else {
        None
    }
}

/// Why an admin-only operation by `caller` is refused, if it is.
pub open spec fn admin_error(s: TicketingView, caller: AccountId) -> Option<Error> {
    match s.admin {
        None => Some(Error::NotInitialized),
        Some(a) => if a != caller {
            Some(Error::NotAdmin)
        } else {
            None
        },
    }
}

/// Why `propose_payment_token` is refused, if it is.
pub open spec fn propose_payment_token_error(
    s: TicketingView,
    caller: AccountId,
    token_decimals: Option<u32>,
) -> Option<Error> {
    if admin_error(s, caller).is_some() {
        admin_error(s, caller)
    } else if token_decimals.is_none() {
        Some(Error::InvalidPaymentToken)
    } else {
        None
    }
}

/// The first ledger at which a change proposed at `ledger` may be applied.
pub open spec fn timelock_end(ledger: u32) -> u32 {
    if ledger + PAYMENT_TOKEN_CHANGE_DELAY_LEDGERS <= u32::MAX {
        (ledger + PAYMENT_TOKEN_CHANGE_DELAY_LEDGERS) as u32
    } else {
        u32::MAX
    }
}

/// Why `apply_payment_token` is refused, if it is.
pub open spec fn apply_payment_token_error(
    s: TicketingView,
    caller: AccountId,
    token_decimals: Option<u32>,
    ledger: u32,
) -> Option<Error> {
    if admin_error(s, caller).is_some() {
        admin_error(s, caller)
    } else {
        match s.pending_payment_token {
            None => Some(Error::NoPendingPaymentToken),
            Some(p) => if ledger < p.apply_after_ledger {
                Some(Error::TimelockNotElapsed)
            } else if token_decimals.is_none() {
                Some(Error::InvalidPaymentToken)
            } else {
                None
            },
        }
    }
}

impl Ticketing {
    /// Sets the admin and the contract-wide payment token, once.
    /// `token_decimals` is what `payment_token` answered when asked for its
    /// decimals, `None` when the call failed.
    pub fn initialize(
        &mut self,
        admin: AccountId,
        payment_token: AccountId,
        token_decimals: Option<u32>,
    ) -> (r: Result<ContractInitialized, Error>)
        requires
            old(self)@.wf(),
        ensures
            final(self)@.wf(),
            keeps_history(old(self)@, final(self)@),
            match initialize_error(old(self)@, token_decimals) {
                Some(e) => r == Err::<ContractInitialized, Error>(e) && final(self)@ == old(self)@,
                None => {
                    &&& r == Ok::<ContractInitialized, Error>(ContractInitialized { admin, payment_token })
                    &&& final(self)@ == TicketingView {
                        admin: Some(admin),
                        payment_token: Some(payment_token),
                        token_decimals: token_decimals.unwrap(),
                        ..old(self)@
                    }
                },
            },
    {
        if self.admin.is_some() {
            return Err(Error::AlreadyInitialized);
        }
        match token_decimals {
            None => Err(Error::InvalidPaymentToken),
            Some(d) => {
                self.admin = Some(admin);
                self.payment_token = Some(payment_token);
                self.token_decimals = d;
                Ok(ContractInitialized { admin, payment_token })
            },
        }
    }

    /// The decimals of the contract-wide payment token, cached for clients.
    pub fn token_decimals(&self) -> (r: Result<u32, Error>)
        ensures
            match r {
                Ok(d) => self@.payment_token.is_some() && d == self@.token_decimals,
                Err(e) => self@.payment_token.is_none() && e == Error::NotInitialized,
            },
    {
        match self.payment_token {
            Some(_) => Ok(self.token_decimals),
            None => Err(Error::NotInitialized),
        }
    }

    /// The payment token change waiting for its timelock, if any.
    pub fn pending_payment_token(&self) -> (r: Option<PendingPaymentToken>)
        ensures
            r == self@.pending_payment_token,
    {
        self.pending_payment_token
    }

    /// Sets how many ledgers must pass between two primary purchases of one
    /// buyer.  Admin only.
    pub fn set_purchase_throttle(&mut self, caller: AccountId, min_ledger_spacing: u32) -> (r:
        Result<PurchaseThrottleUpdated, Error>)
        requires
            old(self)@.wf(),
        ensures
            final(self)@.wf(),
            keeps_history(old(self)@, final(self)@),
            match admin_error(old(self)@, caller) {
                Some(e) => r == Err::<PurchaseThrottleUpdated, Error>(e) && final(self)@ == old(
                    self,
                )@,
                None => {
                    &&& r == Ok::<PurchaseThrottleUpdated, Error>(
                        PurchaseThrottleUpdated { admin: caller, min_ledger_spacing },
                    )
                    &&& final(self)@ == TicketingView {
                        min_purchase_spacing: min_ledger_spacing,
                        ..old(self)@
                    }
                },
            },
    {
        match self.admin {
            None => Err(Error::NotInitialized),
            Some(a) => {
                if a != caller {
                    return Err(Error::NotAdmin);
                }
                self.min_purchase_spacing = min_ledger_spacing;
                Ok(PurchaseThrottleUpdated { admin: caller, min_ledger_spacing })
            },
        }
    }

    /// Proposes `new_token` as the contract-wide payment token; it can be
    /// applied once the timelock has passed.  Admin only.  `token_decimals`
    /// is what `new_token` answered when asked for its decimals.
    pub fn propose_payment_token(
        &mut self,
        caller: AccountId,
        new_token: AccountId,
        token_decimals: Option<u32>,
        ledger: u32,
    ) -> (r: Result<PaymentTokenProposed, Error>)
        requires
            old(self)@.wf(),
        ensures
            final(self)@.wf(),
            keeps_history(old(self)@, final(self)@),
            match propose_payment_token_error(old(self)@, caller, token_decimals) {
                Some(e) => r == Err::<PaymentTokenProposed, Error>(e) && final(self)@ == old(
                    self,
                )@,
                None => {
                    &&& r == Ok::<PaymentTokenProposed, Error>(
                        PaymentTokenProposed {
                            admin: caller,
                            new_token,
                            apply_after_ledger: timelock_end(ledger),
                        },
                    )
                    &&& final(self)@ == TicketingView {
                        pending_payment_token: Some(
                            PendingPaymentToken {
                                token: new_token,
                                apply_after_ledger: timelock_end(ledger),
                            },
                        ),
                        ..old(self)@
                    }
                },
            },
    {
        match self.admin {
            None => Err(Error::NotInitialized),
            Some(a) => {
                if a != caller {
                    return Err(Error::NotAdmin);
                }
                if token_decimals.is_none() {
                    return Err(Error::InvalidPaymentToken);
                }
                let apply_after_ledger = ledger.saturating_add(PAYMENT_TOKEN_CHANGE_DELAY_LEDGERS);
                self.pending_payment_token = Some(
                    PendingPaymentToken { token: new_token, apply_after_ledger },
                );
                Ok(PaymentTokenProposed { admin: caller, new_token, apply_after_ledger })
            },
        }
    }

    /// Makes the pending payment token the contract-wide one, once its
    /// timelock has passed, and refreshes the cached decimals.  Admin only.
    /// `token_decimals` is what the pending token answered when asked for
    /// its decimals.
    pub fn apply_payment_token(
        &mut self,
        caller: AccountId,
        token_decimals: Option<u32>,
        ledger: u32,
    ) -> (r: Result<PaymentTokenChanged, Error>)
        requires
            old(self)@.wf(),
        ensures
            final(self)@.wf(),
            keeps_history(old(self)@, final(self)@),
            match apply_payment_token_error(old(self)@, caller, token_decimals, ledger) {
                Some(e) => r == Err::<PaymentTokenChanged, Error>(e) && final(self)@ == old(
                    self,
                )@,
                None => {
                    &&& r == Ok::<PaymentTokenChanged, Error>(
                        PaymentTokenChanged {
                            admin: caller,
                            old_token: old(self)@.payment_token.unwrap(),
                            new_token: old(self)@.pending_payment_token.unwrap().token,
                        },
                    )
                    &&& final(self)@ == TicketingView {
                        payment_token: Some(old(self)@.pending_payment_token.unwrap().token),
                        token_decimals: token_decimals.unwrap(),
                        pending_payment_token: None,
                        ..old(self)@
                    }
                },
            },
    {
        match self.admin {
            None => Err(Error::NotInitialized),
            Some(a) => {
                if a != caller {
                    return Err(Error::NotAdmin);
                }
                match self.pending_payment_token {
                    None => Err(Error::NoPendingPaymentToken),
                    Some(p) => {
                        if ledger < p.apply_after_ledger {
                            return Err(Error::TimelockNotElapsed);
                        }
                        match token_decimals {
                            None => Err(Error::InvalidPaymentToken),
                            Some(d) => {
                                let old_token = self.payment_token.unwrap();
                                self.payment_token = Some(p.token);
                                self.token_decimals = d;
                                self.pending_payment_token = None;
                                Ok(PaymentTokenChanged { admin: caller, old_token, new_token: p.token })
                            },
                        }
                    },
                }
            },
        }
    }
}

} // verus!

//! What an organizer does with an event: create it, escrow its primary
//! proceeds and release them, choose the token it settles in.
use vstd::prelude::*;
use crate::constants::BPS_DENOMINATOR;
use crate::error::Error;
use crate::types::{AccountId, Event, Payment};
use super::{keeps_history, Ticketing, TicketingView, issued_count};

verus! {

/// Why an organizer-only operation on event `event_id` by `caller` is
/// refused, if it is.
pub open spec fn event_organizer_error(s: TicketingView, caller: AccountId, event_id: u64) -> Option<
    Error,
> {
    if !s.events.contains_key(event_id) {
        Some(Error::EventNotFound)
    } else if s.events[event_id].organizer != caller {
        Some(Error::NotOrganizer)
    } else {
        None
    }
}

/// Why creating event `event_id` at ledger time `now` is refused, if it is.
pub open spec fn create_event_error(
    s: TicketingView,
    event_id: u64,
    royalty_bps: u32,
    starts_at: u64,
    now: u64,
) -> Option<Error> {
    if s.events.contains_key(event_id) {
        Some(Error::EventAlreadyExists)
    } else if royalty_bps > BPS_DENOMINATOR {
        Some(Error::InvalidRoyalty)
    } else if starts_at <= now {
        Some(Error::InvalidEventTime)
    } else {
        None
    }
}

/// Why `enable_escrow` is refused, if it is.
pub open spec fn enable_escrow_error(s: TicketingView, caller: AccountId, event_id: u64) -> Option<
    Error,
> {
    if event_organizer_error(s, caller, event_id).is_some() {
        event_organizer_error(s, caller, event_id)
    } else if s.events[event_id].tickets_issued > 0 {
        Some(Error::EventAlreadyStarted)
    } else {
        None
    }
}

/// Why `release_escrow` at ledger sequence `ledger` is refused, if it is.
pub open spec fn release_escrow_error(
    s: TicketingView,
    caller: AccountId,
    event_id: u64,
    ledger: u32,
) -> Option<Error> {
    if event_organizer_error(s, caller, event_id).is_some() {
        event_organizer_error(s, caller, event_id)
    } else if !s.events[event_id].escrow_enabled {
        Some(Error::EscrowNotEnabled)
    } else if ledger < s.events[event_id].escrow_release_ledger {
        Some(Error::EventNotEnded)
    } else if s.settlement_token(event_id).is_none() {
        Some(Error::NotInitialized)
    } else {
        None
    }
}

/// The transfers that pay out an escrow balance: one from the contract to
/// the organizer, none when nothing is held.
pub open spec fn escrow_payout(s: TicketingView, event_id: u64) -> Seq<Payment> {
    let ev = s.events[event_id];
    if ev.escrow_balance > 0 {
        seq![
            Payment {
                token: s.settlement_token(event_id).unwrap(),
                from: s.contract,
                to: ev.organizer,
                amount: ev.escrow_balance,
            },
        ]
    } else {
        seq![]
    }
}

/// Why `set_event_payment_token` is refused, if it is.  `token_decimals` is
/// what the proposed token answered when asked for its decimals.
pub open spec fn set_event_payment_token_error(
    s: TicketingView,
    caller: AccountId,
    event_id: u64,
    token: Option<AccountId>,
    token_decimals: Option<u32>,
) -> Option<Error> {
    if event_organizer_error(s, caller, event_id).is_some() {
        event_organizer_error(s, caller, event_id)
    } else if s.events[event_id].tickets_issued > 0 {
        Some(Error::TicketsAlreadyIssued)
    } else if token.is_some() && token_decimals.is_none() {
        Some(Error::InvalidPaymentToken)
    } else {
        None
    }
}

/// A stored event replaced by `ev`, everything else unchanged.
pub open spec fn with_event(s: TicketingView, event_id: u64, ev: Event) -> TicketingView {
    TicketingView { events: s.events.insert(event_id, ev), ..s }
}

/// Replacing an event by one that differs only in its escrow or settlement
/// fields keeps the invariant, provided the new escrow fields are
/// consistent.
pub(crate) proof fn lemma_wf_event_update(s: TicketingView, event_id: u64, ev: Event)
    requires
        s.wf(),
        s.events.contains_key(event_id),
        ev.organizer == s.events[event_id].organizer,
        ev.max_resale_multiplier_bps == s.events[event_id].max_resale_multiplier_bps,
        ev.min_resale_multiplier_bps == s.events[event_id].min_resale_multiplier_bps,
        ev.max_transfers_per_ticket == s.events[event_id].max_transfers_per_ticket,
        ev.royalty_bps == s.events[event_id].royalty_bps,
        ev.tickets_issued == s.events[event_id].tickets_issued,
        ev.escrow_balance >= 0,
        !ev.escrow_enabled ==> ev.escrow_balance == 0,
    ensures
        with_event(s, event_id, ev).wf(),
{
    let t = with_event(s, event_id, ev);
    assert forall|id: u64| #[trigger] t.tickets.contains_key(id) implies {
        &&& id < t.next_ticket_id
        &&& t.events.contains_key(t.tickets[id].event_id)
        &&& super::ticket_consistent(t.tickets[id], t.events[t.tickets[id].event_id])
    } by {
        assert(s.tickets.contains_key(id));
    }
    assert forall|e: u64| #[trigger] t.events.contains_key(e) implies super::event_consistent(
        t.events[e],
        issued_count(t.tickets, e),
        t.next_ticket_id,
    ) by {
        assert(s.events.contains_key(e));
    }
}

impl Ticketing {
    /// Creates event `event_id`, organized by `organizer`, with a resale cap
    /// of `max_resale_multiplier_bps` and an organizer royalty of
    /// `royalty_bps` on every resale.  Direct transfers freeze
    /// `transfer_freeze_seconds` and resale closes `resale_cutoff_seconds`
    /// before `starts_at`.
    pub fn create_event(
        &mut self,
        organizer: AccountId,
        event_id: u64,
        name: String,
        category: String,
        max_resale_multiplier_bps: u32,
        royalty_bps: u32,
        starts_at: u64,
        transfer_freeze_seconds: u64,
        resale_cutoff_seconds: u64,
        now: u64,
    ) -> (r: Result<(), Error>)
        requires
            old(self)@.wf(),
        ensures
            final(self)@.wf(),
            keeps_history(old(self)@, final(self)@),
            match create_event_error(old(self)@, event_id, royalty_bps, starts_at, now) {
                Some(e) => r == Err::<(), Error>(e) && final(self)@ == old(self)@,
                None => r is Ok && final(self)@ == with_event(
                    old(self)@,
                    event_id,
                    Event {
                        organizer,
                        name,
                        category,
                        max_resale_multiplier_bps,
                        royalty_bps,
                        tickets_issued: 0,
                        starts_at,
                        transfer_freeze_seconds,
                        resale_cutoff_seconds,
                        escrow_enabled: false,
                        escrow_release_ledger: 0,
                        escrow_balance: 0,
                        payment_token: None,
                        min_resale_multiplier_bps: None,
                        max_transfers_per_ticket: None,
                    },
                ),
            },
    {
        self.create_event_with_options(
            organizer,
            event_id,
            name,
            category,
            max_resale_multiplier_bps,
            royalty_bps,
            starts_at,
            transfer_freeze_seconds,
            resale_cutoff_seconds,
            None,
            None,
            now,
        )
    }

    /// Creates an event as `create_event` does, with an optional resale
    /// floor of `min_resale_multiplier_bps` and an optional limit on the
    /// direct transfers of each ticket.
    pub fn create_event_with_options(
        &mut self,
        organizer: AccountId,
        event_id: u64,
        name: String,
        category: String,
        max_resale_multiplier_bps: u32,
        royalty_bps: u32,
        starts_at: u64,
        transfer_freeze_seconds: u64,
        resale_cutoff_seconds: u64,
        min_resale_multiplier_bps: Option<u32>,
        max_transfers_per_ticket: Option<u32>,
        now: u64,
    ) -> (r: Result<(), Error>)
        requires
            old(self)@.wf(),
        ensures
            final(self)@.wf(),
            keeps_history(old(self)@, final(self)@),
            match create_event_error(old(self)@, event_id, royalty_bps, starts_at, now) {
                Some(e) => r == Err::<(), Error>(e) && final(self)@ == old(self)@,
                None => r is Ok && final(self)@ == with_event(
                    old(self)@,
                    event_id,
                    Event {
                        organizer,
                        name,
                        category,
                        max_resale_multiplier_bps,
                        royalty_bps,
                        tickets_issued: 0,
                        starts_at,
                        transfer_freeze_seconds,
                        resale_cutoff_seconds,
                        escrow_enabled: false,
                        escrow_release_ledger: 0,
                        escrow_balance: 0,
                        payment_token: None,
                        min_resale_multiplier_bps,
                        max_transfers_per_ticket,
                    },
                ),
            },
    {
        if self.events.contains_key(&event_id) {
            return Err(Error::EventAlreadyExists);
        }
        if royalty_bps > BPS_DENOMINATOR {
            return Err(Error::InvalidRoyalty);
        }
        if starts_at <= now {
            return Err(Error::InvalidEventTime);
        }
        let ev = Event {
            organizer,
            name,
            category,
            max_resale_multiplier_bps,
            royalty_bps,
            tickets_issued: 0,
            starts_at,
            transfer_freeze_seconds,
            resale_cutoff_seconds,
            escrow_enabled: false,
            escrow_release_ledger: 0,
            escrow_balance: 0,
            payment_token: None,
            min_resale_multiplier_bps,
            max_transfers_per_ticket,
        };
        let ghost s0 = self@;
        self.events.insert(event_id, ev);
        proof {
            let s1 = self@;
            assert(s1 == with_event(s0, event_id, ev));
            assert forall|id: u64| #[trigger] s1.tickets.contains_key(id) implies {
                &&& id < s1.next_ticket_id
                &&& s1.events.contains_key(s1.tickets[id].event_id)
                &&& super::ticket_consistent(s1.tickets[id], s1.events[s1.tickets[id].event_id])
            } by {
                assert(s0.tickets.contains_key(id));
            }
            assert(s1.tickets.dom().filter(|id: u64| s1.tickets[id].event_id == event_id)
                =~= Set::<u64>::empty());
            assert forall|e: u64| #[trigger] s1.events.contains_key(e) implies super::event_consistent(
                s1.events[e],
                issued_count(s1.tickets, e),
                s1.next_ticket_id,
            ) by {
                if e != event_id {
                    assert(s0.events.contains_key(e));
                }
            }
        }
        Ok(())
    }

    /// From now on, primary sale proceeds of event `event_id` are held by
    /// the contract until ledger `release_ledger`.  Only before the first
    /// ticket is issued.
    pub fn enable_escrow(&mut self, organizer: AccountId, event_id: u64, release_ledger: u32) -> (r:
        Result<(), Error>)
        requires
            old(self)@.wf(),
        ensures
            final(self)@.wf(),
            keeps_history(old(self)@, final(self)@),
            match enable_escrow_error(old(self)@, organizer, event_id) {
                Some(e) => r == Err::<(), Error>(e) && final(self)@ == old(self)@,
                None => r is Ok && final(self)@ == with_event(
                    old(self)@,
                    event_id,
                    Event {
                        escrow_enabled: true,
                        escrow_release_ledger: release_ledger,
                        ..old(self)@.events[event_id]
                    },
                ),
            },
    {
        match self.events.get(&event_id) {
            None => { return Err(Error::EventNotFound); },
            Some(ev) => {
                if ev.organizer != organizer {
                    return Err(Error::NotOrganizer);
                }
                if ev.tickets_issued > 0 {
                    return Err(Error::EventAlreadyStarted);
                }
            },
        }
        let ev = self.events.remove(&event_id).unwrap();
        let new_ev = Event { escrow_enabled: true, escrow_release_ledger: release_ledger, ..ev };
        self.events.insert(event_id, new_ev);
        proof {
            assert(self@.events =~= old(self)@.events.insert(event_id, new_ev));
            lemma_wf_event_update(old(self)@, event_id, new_ev);
        }
        Ok(())
    }

    /// Pays the escrowed primary proceeds of event `event_id` out to its
    /// organizer, once the ledger sequence has reached the release ledger.
    /// Returns the transfer to make.
    pub fn release_escrow(&mut self, organizer: AccountId, event_id: u64, ledger: u32) -> (r:
        Result<Vec<Payment>, Error>)
        requires
            old(self)@.wf(),
        ensures
            final(self)@.wf(),
            keeps_history(old(self)@, final(self)@),
            match release_escrow_error(old(self)@, organizer, event_id, ledger) {
                Some(e) => r == Err::<Vec<Payment>, Error>(e) && final(self)@ == old(self)@,
                None => {
                    &&& r matches Ok(p) && p@ == escrow_payout(old(self)@, event_id)
                    &&& final(self)@ == with_event(
                        old(self)@,
                        event_id,
                        Event { escrow_balance: 0, ..old(self)@.events[event_id] },
                    )
                },
            },
    {
        let token = match self.events.get(&event_id) {
            None => { return Err(Error::EventNotFound); },
            Some(ev) => {
                if ev.organizer != organizer {
                    return Err(Error::NotOrganizer);
                }
                if !ev.escrow_enabled {
                    return Err(Error::EscrowNotEnabled);
                }
                if ledger < ev.escrow_release_ledger {
                    return Err(Error::EventNotEnded);
                }
                match ev.payment_token {
                    Some(t) => t,
                    None => match self.payment_token {
                        Some(t) => t,
                        None => { return Err(Error::NotInitialized); },
                    },
                }
            },
        };
        let ev = self.events.remove(&event_id).unwrap();
        let mut payments: Vec<Payment> = Vec::new();
        if ev.escrow_balance > 0 {
            payments.push(
                Payment { token, from: self.contract, to: ev.organizer, amount: ev.escrow_balance },
            );
        }
        let new_ev = Event { escrow_balance: 0, ..ev };
        self.events.insert(event_id, new_ev);
        proof {
            assert(self@.events =~= old(self)@.events.insert(event_id, new_ev));
            lemma_wf_event_update(old(self)@, event_id, new_ev);
            assert(payments@ =~= escrow_payout(old(self)@, event_id));
        }
        Ok(payments)
    }

    /// Sets the token event `event_id` settles in (`None`: the contract-wide
    /// token).  Only before the first ticket is issued, so that sales stay
    /// in the token they were paid in.  `token_decimals` is what `token`
    /// answered when asked for its decimals.
    pub fn set_event_payment_token(
        &mut self,
        organizer: AccountId,
        event_id: u64,
        token: Option<AccountId>,
        token_decimals: Option<u32>,
    ) -> (r: Result<(), Error>)
        requires
            old(self)@.wf(),
        ensures
            final(self)@.wf(),
            keeps_history(old(self)@, final(self)@),
            match set_event_payment_token_error(
                old(self)@,
                organizer,
                event_id,
                token,
                token_decimals,
            ) {
                Some(e) => r == Err::<(), Error>(e) && final(self)@ == old(self)@,
                None => r is Ok && final(self)@ == with_event(
                    old(self)@,
                    event_id,
                    Event { payment_token: token, ..old(self)@.events[event_id] },
                ),
            },
    {
        match self.events.get(&event_id) {
            None => { return Err(Error::EventNotFound); },
            Some(ev) => {
                if ev.organizer != organizer {
                    return Err(Error::NotOrganizer);
                }
                if ev.tickets_issued > 0 {
                    return Err(Error::TicketsAlreadyIssued);
                }
                if token.is_some() && token_decimals.is_none() {
                    return Err(Error::InvalidPaymentToken);
                }
            },
        }
        let ev = self.events.remove(&event_id).unwrap();
        let new_ev = Event { payment_token: token, ..ev };
        self.events.insert(event_id, new_ev);
        proof {
            assert(self@.events =~= old(self)@.events.insert(event_id, new_ev));
            lemma_wf_event_update(old(self)@, event_id, new_ev);
        }
        Ok(())
    }

    /// The token event `event_id` settles in: its own, or else the
    /// contract-wide one.
    pub fn event_payment_token(&self, event_id: u64) -> (r: Result<AccountId, Error>)
        ensures
            match r {
                Ok(t) => self@.events.contains_key(event_id) && self@.settlement_token(event_id)
                    == Some(t),
                Err(e) => if !self@.events.contains_key(event_id) {
                    e == Error::EventNotFound
                } else {
                    self@.settlement_token(event_id).is_none() && e == Error::NotInitialized
                },
            },
    {
        match self.events.get(&event_id) {
            None => Err(Error::EventNotFound),
            Some(ev) => match ev.payment_token {
                Some(t) => Ok(t),
                None => match self.payment_token {
                    Some(t) => Ok(t),
                    None => Err(Error::NotInitialized),
                },
            },
        }
    }
}

} // verus!

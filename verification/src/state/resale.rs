//! The capped secondary market: listing, withdrawing and buying a resale.
use vstd::prelude::*;
use crate::error::Error;
use crate::pricing::{meets_resale_floor, resale_cap_allows, resale_floor_allows, royalty_of, split_resale_price, within_resale_cap};
use crate::types::{AccountId, Event, Payment, Ticket, TicketStatus};
use super::{keeps_history, Ticketing, TicketingView};
use super::tickets::{lemma_wf_ticket_update, ticket_owner_error, with_ticket, with_ticket_unclaimed};

verus! {

/// Whether the resale market of `ev` is closed at ledger time `now`: from
/// `resale_cutoff_seconds` before the start on.
pub open spec fn resale_closed(ev: Event, now: u64) -> bool {
    now + ev.resale_cutoff_seconds >= ev.starts_at
}

/// Why listing ticket `id` for resale at `price` by `seller` at time `now`
/// is refused, if it is.
pub open spec fn list_for_resale_error(
    s: TicketingView,
    seller: AccountId,
    id: u64,
    price: i128,
    now: u64,
) -> Option<Error> {
    if ticket_owner_error(s, seller, id).is_some() {
        ticket_owner_error(s, seller, id)
    } else if price <= 0 {
        Some(Error::InvalidPrice)
    } else if resale_closed(s.event_of(id), now) {
        Some(Error::ResaleClosed)
    } else if !within_resale_cap(
        s.tickets[id].original_price as int,
        price as int,
        s.event_of(id).max_resale_multiplier_bps as int,
    ) {
        Some(Error::ResalePriceExceedsCap)
    } else if s.event_of(id).min_resale_multiplier_bps matches Some(m) && !meets_resale_floor(
        s.tickets[id].original_price as int,
        price as int,
        m as int,
    ) {
        Some(Error::ResalePriceBelowFloor)
    } else {
        None
    }
}

/// A ticket listed for resale at `price`.
pub open spec fn listed(t: Ticket, price: i128) -> Ticket {
    Ticket { status: TicketStatus::Resale, resale_price: price, ..t }
}

/// A ticket taken off the resale market, valid again.
pub open spec fn unlisted(t: Ticket) -> Ticket {
    Ticket { status: TicketStatus::Valid, resale_price: 0, ..t }
}

/// Why withdrawing the resale listing of ticket `id` by `owner` is refused,
/// if it is.
pub open spec fn cancel_resale_error(s: TicketingView, owner: AccountId, id: u64) -> Option<Error> {
    if !s.tickets.contains_key(id) {
        Some(Error::TicketNotFound)
    } else if s.tickets[id].owner != owner {
        Some(Error::NotOwner)
    } else if s.tickets[id].status != TicketStatus::Resale {
        Some(Error::NotForResale)
    } else {
        None
    }
}

/// Why buying the listed ticket `id` at time `now` is refused, if it is.
pub open spec fn buy_resale_error(s: TicketingView, id: u64, now: u64) -> Option<Error> {
    if !s.tickets.contains_key(id) {
        Some(Error::TicketNotFound)
    } else if s.tickets[id].status != TicketStatus::Resale {
        Some(Error::NotForResale)
    } else if resale_closed(s.event_of(id), now) {
        Some(Error::ResaleClosed)
    } else if s.settlement_token(s.tickets[id].event_id).is_none() {
        Some(Error::NotInitialized)
    } else {
        None
    }
}

/// The transfers that settle a resale of ticket `id` to `buyer`: the
/// organizer's royalty and the seller's proceeds, each from the buyer and
/// each left out when it is zero.
pub open spec fn resale_payments(s: TicketingView, buyer: AccountId, id: u64) -> Seq<Payment> {
    let t = s.tickets[id];
    let ev = s.event_of(id);
    let token = s.settlement_token(t.event_id).unwrap();
    let royalty = royalty_of(t.resale_price as int, ev.royalty_bps as int);
    let proceeds = t.resale_price - royalty;
    (if royalty > 0 {
        seq![Payment { token, from: buyer, to: ev.organizer, amount: royalty as i128 }]
    } else {
        Seq::<Payment>::empty()
    }) + (if proceeds > 0 {
        seq![Payment { token, from: buyer, to: t.owner, amount: proceeds as i128 }]
    } else {
        Seq::<Payment>::empty()
    })
}

/// A resold ticket in the hands of `buyer`.
pub open spec fn resold(t: Ticket, buyer: AccountId) -> Ticket {
    Ticket { owner: buyer, status: TicketStatus::Valid, resale_price: 0, ..t }
}

impl Ticketing {
    /// `seller` offers ticket `ticket_id` for resale at `price`, at ledger
    /// time `now`.  The price must be positive, within the event's cap and
    /// above its floor, if it has one; the market closes before the event.
    /// A gift claim on the ticket lapses.
    pub fn list_for_resale(&mut self, seller: AccountId, ticket_id: u64, price: i128, now: u64) -> (r:
        Result<(), Error>)
        requires
            old(self)@.wf(),
        ensures
            final(self)@.wf(),
            keeps_history(old(self)@, final(self)@),
            match list_for_resale_error(old(self)@, seller, ticket_id, price, now) {
                Some(e) => r == Err::<(), Error>(e) && final(self)@ == old(self)@,
                None => r is Ok && final(self)@ == with_ticket_unclaimed(
                    old(self)@,
                    ticket_id,
                    listed(old(self)@.tickets[ticket_id], price),
                ),
            },
    {
        match self.tickets.get(&ticket_id) {
            None => { return Err(Error::TicketNotFound); },
            Some(t) => {
                if t.owner != seller {
                    return Err(Error::NotOwner);
                }
                if t.status == TicketStatus::Revoked {
                    return Err(Error::Revoked);
                }
                if t.status == TicketStatus::Used {
                    return Err(Error::AlreadyUsed);
                }
                if price <= 0 {
                    return Err(Error::InvalidPrice);
                }
                let ev = self.events.get(&t.event_id).unwrap();
                if now as u128 + ev.resale_cutoff_seconds as u128 >= ev.starts_at as u128 {
                    return Err(Error::ResaleClosed);
                }
                if !resale_cap_allows(t.original_price, price, ev.max_resale_multiplier_bps) {
                    return Err(Error::ResalePriceExceedsCap);
                }
                match ev.min_resale_multiplier_bps {
                    Some(m) => {
                        if !resale_floor_allows(t.original_price, price, m) {
                            return Err(Error::ResalePriceBelowFloor);
                        }
                    },
                    None => {},
                }
            },
        }
        let t = self.tickets.remove(&ticket_id).unwrap();
        let new_t = Ticket { status: TicketStatus::Resale, resale_price: price, ..t };
        proof {
            lemma_wf_ticket_update(old(self)@, ticket_id, new_t, false);
        }
        self.tickets.insert(ticket_id, new_t);
        self.gift_claims.remove(&ticket_id);
        proof {
            assert(self@.tickets =~= old(self)@.tickets.insert(ticket_id, new_t));
        }
        Ok(())
    }

    /// `owner` withdraws the resale listing of ticket `ticket_id`.
    pub fn cancel_resale(&mut self, owner: AccountId, ticket_id: u64) -> (r: Result<(), Error>)
        requires
            old(self)@.wf(),
        ensures
            final(self)@.wf(),
            keeps_history(old(self)@, final(self)@),
            match cancel_resale_error(old(self)@, owner, ticket_id) {
                Some(e) => r == Err::<(), Error>(e) && final(self)@ == old(self)@,
                None => r is Ok && final(self)@ == with_ticket(
                    old(self)@,
                    ticket_id,
                    unlisted(old(self)@.tickets[ticket_id]),
                ),
            },
    {
        match self.tickets.get(&ticket_id) {
            None => { return Err(Error::TicketNotFound); },
            Some(t) => {
                if t.owner != owner {
                    return Err(Error::NotOwner);
                }
                if t.status != TicketStatus::Resale {
                    return Err(Error::NotForResale);
                }
            },
        }
        let t = self.tickets.remove(&ticket_id).unwrap();
        let new_t = Ticket { status: TicketStatus::Valid, resale_price: 0, ..t };
        proof {
            lemma_wf_ticket_update(old(self)@, ticket_id, new_t, true);
        }
        self.tickets.insert(ticket_id, new_t);
        proof {
            assert(self@.tickets =~= old(self)@.tickets.insert(ticket_id, new_t));
        }
        Ok(())
    }

    /// `buyer` buys the listed ticket `ticket_id` at its resale price, at
    /// ledger time `now`.  Returns the transfers that settle it: the
    /// organizer's royalty and the seller's proceeds, in the event's token.
    pub fn buy_resale(&mut self, buyer: AccountId, ticket_id: u64, now: u64) -> (r: Result<
        Vec<Payment>,
        Error,
    >)
        requires
            old(self)@.wf(),
        ensures
            final(self)@.wf(),
            keeps_history(old(self)@, final(self)@),
            match buy_resale_error(old(self)@, ticket_id, now) {
                Some(e) => r == Err::<Vec<Payment>, Error>(e) && final(self)@ == old(self)@,
                None => {
                    &&& r matches Ok(p) && p@ == resale_payments(old(self)@, buyer, ticket_id)
                    &&& final(self)@ == with_ticket(
                        old(self)@,
                        ticket_id,
                        resold(old(self)@.tickets[ticket_id], buyer),
                    )
                },
            },
    {
        let (token, organizer, royalty_bps) = match self.tickets.get(&ticket_id) {
            None => { return Err(Error::TicketNotFound); },
            Some(t) => {
                if t.status != TicketStatus::Resale {
                    return Err(Error::NotForResale);
                }
                let ev = self.events.get(&t.event_id).unwrap();
                if now as u128 + ev.resale_cutoff_seconds as u128 >= ev.starts_at as u128 {
                    return Err(Error::ResaleClosed);
                }
                let token = match ev.payment_token {
                    Some(tk) => tk,
                    None => match self.payment_token {
                        Some(tk) => tk,
                        None => { return Err(Error::NotInitialized); },
                    },
                };
                (token, ev.organizer, ev.royalty_bps)
            },
        };
        let t = self.tickets.remove(&ticket_id).unwrap();
        let seller = t.owner;
        let (royalty, proceeds) = split_resale_price(t.resale_price, royalty_bps);
        let mut payments: Vec<Payment> = Vec::new();
        if royalty > 0 {
            payments.push(Payment { token, from: buyer, to: organizer, amount: royalty });
        }
        if proceeds > 0 {
            payments.push(Payment { token, from: buyer, to: seller, amount: proceeds });
        }
        let new_t = Ticket { owner: buyer, status: TicketStatus::Valid, resale_price: 0, ..t };
        proof {
            lemma_wf_ticket_update(old(self)@, ticket_id, new_t, true);
            assert(payments@ =~= resale_payments(old(self)@, buyer, ticket_id));
        }
        self.tickets.insert(ticket_id, new_t);
        proof {
            assert(self@.tickets =~= old(self)@.tickets.insert(ticket_id, new_t));
        }
        Ok(payments)
    }
}

} // verus!

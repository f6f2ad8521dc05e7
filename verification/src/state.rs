//! The contract's storage as one verified state machine: its abstract view,
//! the invariant that every operation keeps, and the read-only queries.
//! The operations themselves live in the submodules, one family each.
use vstd::prelude::*;
use std::collections::HashMap;
use crate::error::Error;
use crate::pricing::{within_resale_cap, meets_resale_floor};
use crate::types::{AccountId, Event, GiftClaim, PendingPaymentToken, Ticket, TicketStatus, TokenFailure};

pub mod admin;
pub mod organizer;
pub mod tickets;
pub mod resale;
pub mod gifts;
pub mod draws;
pub mod batches;

verus! {

/// The contract's storage, as the rules see it.
pub struct TicketingView {
    /// The contract's own account: primary sale proceeds held in escrow sit
    /// there.
    pub contract: AccountId,
    pub admin: Option<AccountId>,
    /// The contract-wide payment token.
    pub payment_token: Option<AccountId>,
    /// Decimals of the contract-wide payment token, cached for clients.
    pub token_decimals: u32,
    pub pending_payment_token: Option<PendingPaymentToken>,
    /// Ledgers that must pass between two primary purchases of one buyer.
    pub min_purchase_spacing: u32,
    pub next_ticket_id: u64,
    pub events: Map<u64, Event>,
    pub tickets: Map<u64, Ticket>,
    pub gift_claims: Map<u64, GiftClaim>,
    pub last_purchase_ledger: Map<AccountId, u32>,
}

/// How many tickets of `tickets` belong to the event `event_id`.
pub open spec fn issued_count(tickets: Map<u64, Ticket>, event_id: u64) -> nat {
    tickets.dom().filter(|id: u64| tickets[id].event_id == event_id).len()
}

/// What a ticket always satisfies with respect to its event.
pub open spec fn ticket_consistent(t: Ticket, ev: Event) -> bool {
    &&& t.original_price >= 0
    &&& t.status != TicketStatus::Resale ==> t.resale_price == 0
    &&& t.status == TicketStatus::Resale ==> {
        &&& t.resale_price > 0
        &&& within_resale_cap(
            t.original_price as int,
            t.resale_price as int,
            ev.max_resale_multiplier_bps as int,
        )
        &&& ev.min_resale_multiplier_bps matches Some(m) ==> meets_resale_floor(
            t.original_price as int,
            t.resale_price as int,
            m as int,
        )
    }
    &&& ev.max_transfers_per_ticket matches Some(m) ==> t.transfers <= m
}

/// What an event always satisfies, given the number of its tickets.
pub open spec fn event_consistent(ev: Event, count: nat, next_ticket_id: u64) -> bool {
    &&& ev.tickets_issued == count
    &&& ev.tickets_issued <= next_ticket_id
    &&& ev.royalty_bps <= 10_000
    &&& ev.escrow_balance >= 0
    &&& !ev.escrow_enabled ==> ev.escrow_balance == 0
}

/// The storage after settling an operation that took `before` to `after`:
/// `after` when the token carried out every payment, `before` when it refused
/// one.
pub open spec fn settled(
    before: TicketingView,
    after: TicketingView,
    outcome: Result<(), TokenFailure>,
) -> TicketingView {
    match outcome {
        Ok(()) => after,
        Err(_) => before,
    }
}

impl TicketingView {
    /// The storage of a freshly deployed contract at `contract`.
    pub open spec fn fresh(contract: AccountId) -> TicketingView {
        TicketingView {
            contract,
            admin: None,
            payment_token: None,
            token_decimals: 0,
            pending_payment_token: None,
            min_purchase_spacing: 0,
            next_ticket_id: 0,
            events: Map::empty(),
            tickets: Map::empty(),
            gift_claims: Map::empty(),
            last_purchase_ledger: Map::empty(),
        }
    }

    /// The invariant of the contract's storage.
    pub open spec fn wf(self) -> bool {
        &&& self.admin.is_some() == self.payment_token.is_some()
        &&& self.pending_payment_token.is_some() ==> self.admin.is_some()
        &&& self.tickets.dom().finite()
        &&& forall|id: u64| #[trigger]
            self.tickets.contains_key(id) ==> {
                &&& id < self.next_ticket_id
                &&& self.events.contains_key(self.tickets[id].event_id)
                &&& ticket_consistent(self.tickets[id], self.events[self.tickets[id].event_id])
            }
        &&& forall|e: u64| #[trigger]
            self.events.contains_key(e) ==> event_consistent(
                self.events[e],
                issued_count(self.tickets, e),
                self.next_ticket_id,
            )
        &&& forall|id: u64| #[trigger]
            self.gift_claims.contains_key(id) ==> {
                &&& self.tickets.contains_key(id)
                &&& self.tickets[id].status == TicketStatus::Valid
                &&& self.gift_claims[id].from == self.tickets[id].owner
            }
    }

    /// The token that event `event_id` settles in: its own, or else the
    /// contract-wide one.
    pub open spec fn settlement_token(self, event_id: u64) -> Option<AccountId> {
        match self.events[event_id].payment_token {
            Some(t) => Some(t),
            None => self.payment_token,
        }
    }

    /// The event that ticket `id` belongs to.
    pub open spec fn event_of(self, id: u64) -> Event {
        self.events[self.tickets[id].event_id]
    }
}

/// The terms an event was created with: who organizes it, what it is, when
/// it starts and the rules of its resale market.
pub open spec fn same_terms(a: Event, b: Event) -> bool {
    &&& a.organizer == b.organizer
    &&& a.name == b.name
    &&& a.category == b.category
    &&& a.max_resale_multiplier_bps == b.max_resale_multiplier_bps
    &&& a.royalty_bps == b.royalty_bps
    &&& a.starts_at == b.starts_at
    &&& a.transfer_freeze_seconds == b.transfer_freeze_seconds
    &&& a.resale_cutoff_seconds == b.resale_cutoff_seconds
    &&& a.min_resale_multiplier_bps == b.min_resale_multiplier_bps
    &&& a.max_transfers_per_ticket == b.max_transfers_per_ticket
}

/// What no operation undoes: events and tickets are never removed, ticket
/// ids are never reused, an event keeps its terms, its count of issued
/// tickets never drops and, once it has issued a ticket, its own payment
/// token override (or the absence of one) stays as it was; a ticket keeps
/// its event, tier and face value, and a used or revoked ticket stays so.
/// An event without an override settles in the contract-wide token, which
/// the admin may change behind the timelock at any time.
pub open spec fn keeps_history(old: TicketingView, new: TicketingView) -> bool {
    &&& new.contract == old.contract
    &&& old.next_ticket_id <= new.next_ticket_id
    &&& forall|e: u64| #[trigger]
        old.events.contains_key(e) ==> {
            &&& new.events.contains_key(e)
            &&& same_terms(old.events[e], new.events[e])
            &&& old.events[e].tickets_issued <= new.events[e].tickets_issued
            &&& old.events[e].tickets_issued > 0 ==> new.events[e].payment_token
                == old.events[e].payment_token
        }
    &&& forall|id: u64| #[trigger]
        old.tickets.contains_key(id) ==> {
            &&& new.tickets.contains_key(id)
            &&& new.tickets[id].event_id == old.tickets[id].event_id
            &&& new.tickets[id].tier == old.tickets[id].tier
            &&& new.tickets[id].original_price == old.tickets[id].original_price
            &&& (old.tickets[id].status == TicketStatus::Used || old.tickets[id].status
                == TicketStatus::Revoked) ==> new.tickets[id].status == old.tickets[id].status
        }
}

/// Keeping history is a preorder: any run of operations keeps it.
pub proof fn lemma_keeps_history_chains(a: TicketingView, b: TicketingView, c: TicketingView)
    ensures
        keeps_history(a, a),
        keeps_history(a, b) && keeps_history(b, c) ==> keeps_history(a, c),
{
}

/// Minting a ticket under a fresh id adds one to its event's count and
/// leaves the other counts alone.
pub proof fn lemma_count_after_mint(tickets: Map<u64, Ticket>, n: u64, t: Ticket, e: u64)
    requires
        tickets.dom().finite(),
        !tickets.contains_key(n),
    ensures
        issued_count(tickets.insert(n, t), e) == issued_count(tickets, e) + (if t.event_id == e {
            1int
        } else {
            0int
        }),
{
    let old_f = tickets.dom().filter(|id: u64| tickets[id].event_id == e);
    let nt = tickets.insert(n, t);
    let new_f = nt.dom().filter(|id: u64| nt[id].event_id == e);
    tickets.dom().lemma_len_filter(|id: u64| tickets[id].event_id == e);
    if t.event_id == e {
        assert(new_f =~= old_f.insert(n));
    } else {
        assert(new_f =~= old_f);
    }
}

/// Rewriting a ticket without moving it to another event keeps every count.
pub proof fn lemma_count_after_update(tickets: Map<u64, Ticket>, k: u64, t: Ticket, e: u64)
    requires
        tickets.contains_key(k),
        tickets[k].event_id == t.event_id,
    ensures
        issued_count(tickets.insert(k, t), e) == issued_count(tickets, e),
{
    let nt = tickets.insert(k, t);
    assert(nt.dom().filter(|id: u64| nt[id].event_id == e) =~= tickets.dom().filter(
        |id: u64| tickets[id].event_id == e,
    ));
}

/// The storage of one deployed ticketing contract.
#[derive(Clone)]
pub struct Ticketing {
    pub(crate) contract: AccountId,
    pub(crate) admin: Option<AccountId>,
    pub(crate) payment_token: Option<AccountId>,
    pub(crate) token_decimals: u32,
    pub(crate) pending_payment_token: Option<PendingPaymentToken>,
    pub(crate) min_purchase_spacing: u32,
    pub(crate) next_ticket_id: u64,
    pub(crate) events: HashMap<u64, Event>,
    pub(crate) tickets: HashMap<u64, Ticket>,
    pub(crate) gift_claims: HashMap<u64, GiftClaim>,
    pub(crate) last_purchase_ledger: HashMap<AccountId, u32>,
}

impl View for Ticketing {
    type V = TicketingView;

    closed spec fn view(&self) -> TicketingView {
        TicketingView {
            contract: self.contract,
            admin: self.admin,
            payment_token: self.payment_token,
            token_decimals: self.token_decimals,
            pending_payment_token: self.pending_payment_token,
            min_purchase_spacing: self.min_purchase_spacing,
            next_ticket_id: self.next_ticket_id,
            events: self.events@,
            tickets: self.tickets@,
            gift_claims: self.gift_claims@,
            last_purchase_ledger: self.last_purchase_ledger@,
        }
    }
}

impl Ticketing {
    /// The storage of a contract freshly deployed at `contract`, before
    /// `initialize`.
    pub fn new(contract: AccountId) -> (s: Self)
        ensures
            s@ == TicketingView::fresh(contract),
            s@.wf(),
    {
        let s = Ticketing {
            contract,
            admin: None,
            payment_token: None,
            token_decimals: 0,
            pending_payment_token: None,
            min_purchase_spacing: 0,
            next_ticket_id: 0,
            events: HashMap::new(),
            tickets: HashMap::new(),
            gift_claims: HashMap::new(),
            last_purchase_ledger: HashMap::new(),
        };
        assert(s@.tickets.dom() =~= Set::<u64>::empty());
        s
    }

    /// A copy of the storage, taken before an operation whose payments the
    /// token contract may still refuse.
    pub fn snapshot(&self) -> (c: Ticketing)
        ensures
            c@ == self@,
    {
        Ticketing {
            contract: self.contract,
            admin: self.admin,
            payment_token: self.payment_token,
            token_decimals: self.token_decimals,
            pending_payment_token: self.pending_payment_token,
            min_purchase_spacing: self.min_purchase_spacing,
            next_ticket_id: self.next_ticket_id,
            events: self.events.clone(),
            tickets: self.tickets.clone(),
            gift_claims: self.gift_claims.clone(),
            last_purchase_ledger: self.last_purchase_ledger.clone(),
        }
    }

    /// Ends an operation whose payments were handed to the token contract,
    /// with `outcome` what the token answered.  When every transfer went
    /// through, the storage stays as the operation left it; when the token
    /// refused one, the storage returns to `before`, the snapshot taken
    /// before the operation, so the refused operation leaves no trace.  The
    /// token's answer is passed on.
    pub fn settle(&mut self, before: Ticketing, outcome: Result<(), TokenFailure>) -> (r: Result<
        (),
        TokenFailure,
    >)
        ensures
            r == outcome,
            final(self)@ == settled(before@, old(self)@, outcome),
    {
        if outcome.is_err() {
            *self = before;
        }
        outcome
    }

    /// The event stored under `event_id`.
    pub fn get_event(&self, event_id: u64) -> (r: Result<&Event, Error>)
        ensures
            match r {
                Ok(ev) => self@.events.contains_key(event_id) && *ev == self@.events[event_id],
                Err(e) => !self@.events.contains_key(event_id) && e == Error::EventNotFound,
            },
    {
        match self.events.get(&event_id) {
            Some(ev) => Ok(ev),
            None => Err(Error::EventNotFound),
        }
    }

    /// The ticket stored under `ticket_id`.
    pub fn get_ticket(&self, ticket_id: u64) -> (r: Result<&Ticket, Error>)
        ensures
            match r {
                Ok(t) => self@.tickets.contains_key(ticket_id) && *t == self@.tickets[ticket_id],
                Err(e) => !self@.tickets.contains_key(ticket_id) && e == Error::TicketNotFound,
            },
    {
        match self.tickets.get(&ticket_id) {
            Some(t) => Ok(t),
            None => Err(Error::TicketNotFound),
        }
    }
}

} // verus!

//! Minting tickets, primary sales, check-in, revocation, direct transfers
//! and seat changes.
use vstd::prelude::*;
use crate::constants::MAX_BATCH_SIZE;
use crate::error::Error;
use crate::events::{TicketCheckedIn, TicketIssued};
use crate::types::{AccountId, Event, Payment, Ticket, TicketStatus};
use super::{keeps_history, Ticketing, TicketingView, event_consistent, issued_count, ticket_consistent};
use super::{lemma_count_after_mint, lemma_count_after_update};

verus! {

/// A freshly minted ticket.
pub open spec fn new_ticket(
    event_id: u64,
    owner: AccountId,
    tier: String,
    seat: String,
    price: i128,
) -> Ticket {
    Ticket {
        event_id,
        owner,
        tier,
        seat,
        status: TicketStatus::Valid,
        original_price: price,
        resale_price: 0,
        transfers: 0,
    }
}

/// The storage after minting `t` under the next ticket id: the ticket is
/// stored and its event counts one more issued ticket.
pub open spec fn mint(s: TicketingView, t: Ticket) -> TicketingView {
    TicketingView {
        next_ticket_id: (s.next_ticket_id + 1) as u64,
        tickets: s.tickets.insert(s.next_ticket_id, t),
        events: s.events.insert(
            t.event_id,
            Event {
                tickets_issued: (s.events[t.event_id].tickets_issued + 1) as u64,
                ..s.events[t.event_id]
            },
        ),
        ..s
    }
}

/// The storage with ticket `id` replaced by `t`; a pending gift claim on it
/// stays.
pub open spec fn with_ticket(s: TicketingView, id: u64, t: Ticket) -> TicketingView {
    TicketingView { tickets: s.tickets.insert(id, t), ..s }
}

/// The storage with ticket `id` replaced by `t` and any gift claim on it
/// withdrawn.
pub open spec fn with_ticket_unclaimed(s: TicketingView, id: u64, t: Ticket) -> TicketingView {
    TicketingView { tickets: s.tickets.insert(id, t), gift_claims: s.gift_claims.remove(id), ..s }
}

/// Why an operation on event `event_id` by its organizer `caller` that mints
/// a ticket at `price` is refused, if it is.
pub open spec fn issue_ticket_error(
    s: TicketingView,
    caller: AccountId,
    event_id: u64,
    price: i128,
) -> Option<Error> {
    if !s.events.contains_key(event_id) {
        Some(Error::EventNotFound)
    } else if s.events[event_id].organizer != caller {
        Some(Error::NotOrganizer)
    } else if price < 0 {
        Some(Error::InvalidPrice)
    } else {
        None
    }
}

/// Whether `buyer`, who last bought at some ledger, must still wait before
/// buying again at ledger `ledger`.
pub open spec fn purchase_too_soon(s: TicketingView, buyer: AccountId, ledger: u32) -> bool {
    s.last_purchase_ledger.contains_key(buyer) && (ledger as int) < s.last_purchase_ledger[buyer]
        + s.min_purchase_spacing
}

/// Why `purchase_primary` is refused, if it is.
pub open spec fn purchase_primary_error(
    s: TicketingView,
    buyer: AccountId,
    event_id: u64,
    price: i128,
    ledger: u32,
) -> Option<Error> {
    if !s.events.contains_key(event_id) {
        Some(Error::EventNotFound)
    } else if price < 0 {
        Some(Error::InvalidPrice)
    } else if purchase_too_soon(s, buyer, ledger) {
        Some(Error::PurchaseTooSoon)
    } else if s.settlement_token(event_id).is_none() {
        Some(Error::NotInitialized)
    } else {
        None
    }
}

/// Who receives the proceeds of a primary sale of event `event_id`: the
/// contract while escrow is on, the organizer otherwise.
pub open spec fn proceeds_recipient(s: TicketingView, event_id: u64) -> AccountId {
    if s.events[event_id].escrow_enabled {
        s.contract
    } else {
        s.events[event_id].organizer
    }
}

/// The transfers that pay for a primary purchase: the price from the buyer
/// to the proceeds recipient, none for a free ticket.
pub open spec fn primary_payment(
    s: TicketingView,
    buyer: AccountId,
    event_id: u64,
    price: i128,
) -> Seq<Payment> {
    if price > 0 {
        seq![
            Payment {
                token: s.settlement_token(event_id).unwrap(),
                from: buyer,
                to: proceeds_recipient(s, event_id),
                amount: price,
            },
        ]
    } else {
        seq![]
    }
}

/// The storage after a primary purchase: the ticket is minted, the buyer's
/// purchase ledger recorded, and escrowed proceeds grow by the price.
pub open spec fn purchased(
    s: TicketingView,
    buyer: AccountId,
    t: Ticket,
    ledger: u32,
) -> TicketingView {
    let m = mint(s, t);
    let ev = m.events[t.event_id];
    TicketingView {
        last_purchase_ledger: s.last_purchase_ledger.insert(buyer, ledger),
        events: if ev.escrow_enabled {
            m.events.insert(
                t.event_id,
                Event { escrow_balance: (ev.escrow_balance + t.original_price) as i128, ..ev },
            )
        } else {
            m.events
        },
        ..m
    }
}

/// Why an organizer-only operation on ticket `id` by `caller` is refused,
/// if it is.
pub open spec fn ticket_organizer_error(s: TicketingView, caller: AccountId, id: u64) -> Option<
    Error,
> {
    if !s.tickets.contains_key(id) {
        Some(Error::TicketNotFound)
    } else if s.event_of(id).organizer != caller {
        Some(Error::NotOrganizer)
    } else {
        None
    }
}

/// Why a ticket with status `st` cannot be acted on: it is revoked or used.
pub open spec fn spent_error(st: TicketStatus) -> Option<Error> {
    if st == TicketStatus::Revoked {
        Some(Error::Revoked)
    } else if st == TicketStatus::Used {
        Some(Error::AlreadyUsed)
    } else {
        None
    }
}

/// Why checking in or revoking ticket `id` by `caller` is refused, if it is.
pub open spec fn check_in_error(s: TicketingView, caller: AccountId, id: u64) -> Option<Error> {
    if ticket_organizer_error(s, caller, id).is_some() {
        ticket_organizer_error(s, caller, id)
    } else {
        spent_error(s.tickets[id].status)
    }
}

/// Why an owner-only operation on ticket `id` by `caller` is refused, if it
/// is.
pub open spec fn ticket_owner_error(s: TicketingView, caller: AccountId, id: u64) -> Option<Error> {
    if !s.tickets.contains_key(id) {
        Some(Error::TicketNotFound)
    } else if s.tickets[id].owner != caller {
        Some(Error::NotOwner)
    } else {
        spent_error(s.tickets[id].status)
    }
}

/// Whether direct transfers of tickets for `ev` are frozen at ledger time
/// `now`: from `transfer_freeze_seconds` before the start on.
pub open spec fn transfers_frozen(ev: Event, now: u64) -> bool {
    now + ev.transfer_freeze_seconds >= ev.starts_at
}

/// Why a direct transfer of ticket `id` by `from` at time `now` is refused,
/// if it is.
pub open spec fn transfer_error(s: TicketingView, from: AccountId, id: u64, now: u64) -> Option<
    Error,
> {
    if ticket_owner_error(s, from, id).is_some() {
        ticket_owner_error(s, from, id)
    } else if transfers_frozen(s.event_of(id), now) {
        Some(Error::TransfersFrozen)
    } else if s.event_of(id).max_transfers_per_ticket matches Some(m) && s.tickets[id].transfers
        >= m {
        Some(Error::TransferLimitExceeded)
    } else {
        None
    }
}

/// A ticket after a direct transfer to `to`: valid again, unlisted, and one
/// transfer further (the count stops at `u32::MAX`).
pub open spec fn transferred(t: Ticket, to: AccountId) -> Ticket {
    Ticket {
        owner: to,
        status: TicketStatus::Valid,
        resale_price: 0,
        transfers: if t.transfers < u32::MAX {
            (t.transfers + 1) as u32
        } else {
            u32::MAX
        },
        ..t
    }
}

/// A ticket taken out of circulation with status `st`, unlisted.
pub open spec fn retired(t: Ticket, st: TicketStatus) -> Ticket {
    Ticket { status: st, resale_price: 0, ..t }
}

/// Why `revoke_with_refund` is refused, if it is.
pub open spec fn revoke_with_refund_error(
    s: TicketingView,
    caller: AccountId,
    id: u64,
    refund: bool,
) -> Option<Error> {
    if check_in_error(s, caller, id).is_some() {
        check_in_error(s, caller, id)
    } else if refund && s.tickets[id].original_price > 0 && s.settlement_token(
        s.tickets[id].event_id,
    ).is_none() {
        Some(Error::NotInitialized)
    } else {
        None
    }
}

/// The refund that goes with a revocation: the original price from the
/// organizer back to the holder, none when no refund is asked or the ticket
/// was free.
pub open spec fn refund_payment(s: TicketingView, id: u64, refund: bool) -> Seq<Payment> {
    let t = s.tickets[id];
    if refund && t.original_price > 0 {
        seq![
            Payment {
                token: s.settlement_token(t.event_id).unwrap(),
                from: s.event_of(id).organizer,
                to: t.owner,
                amount: t.original_price,
            },
        ]
    } else {
        seq![]
    }
}

/// Why a batch of `len` tickets is refused for its size, if it is.
pub open spec fn batch_size_error(len: int) -> Option<Error> {
    if len == 0 {
        Some(Error::EmptyBatch)
    } else if len > MAX_BATCH_SIZE {
        Some(Error::BatchTooLarge)
    } else {
        None
    }
}

/// Minting a consistent ticket for an existing event keeps the invariant.
pub proof fn lemma_wf_mint(s: TicketingView, t: Ticket)
    requires
        s.wf(),
        s.events.contains_key(t.event_id),
        ticket_consistent(t, s.events[t.event_id]),
        s.next_ticket_id < u64::MAX,
    ensures
        mint(s, t).wf(),
{
    let m = mint(s, t);
    let n = s.next_ticket_id;
    assert(!s.tickets.contains_key(n));
    assert forall|id: u64| #[trigger] m.tickets.contains_key(id) implies {
        &&& id < m.next_ticket_id
        &&& m.events.contains_key(m.tickets[id].event_id)
        &&& ticket_consistent(m.tickets[id], m.events[m.tickets[id].event_id])
    } by {
        if id != n {
            assert(s.tickets.contains_key(id));
        }
    }
    assert forall|e: u64| #[trigger] m.events.contains_key(e) implies event_consistent(
        m.events[e],
        issued_count(m.tickets, e),
        m.next_ticket_id,
    ) by {
        lemma_count_after_mint(s.tickets, n, t, e);
        assert(s.events.contains_key(e));
    }
    assert forall|id: u64| #[trigger] m.gift_claims.contains_key(id) implies {
        &&& m.tickets.contains_key(id)
        &&& m.tickets[id].status == TicketStatus::Valid
        &&& m.gift_claims[id].from == m.tickets[id].owner
    } by {
        assert(s.gift_claims.contains_key(id));
        assert(s.tickets.contains_key(id));
    }
}

/// Replacing a ticket by a consistent one of the same event keeps the
/// invariant, whether its gift claim is withdrawn or, for a still valid
/// ticket of the same holder, kept.
pub proof fn lemma_wf_ticket_update(s: TicketingView, id: u64, t: Ticket, keep_claim: bool)
    requires
        s.wf(),
        s.tickets.contains_key(id),
        t.event_id == s.tickets[id].event_id,
        ticket_consistent(t, s.events[t.event_id]),
        keep_claim && s.gift_claims.contains_key(id) ==> t.status == TicketStatus::Valid
            && t.owner == s.tickets[id].owner,
    ensures
        keep_claim ==> with_ticket(s, id, t).wf(),
        !keep_claim ==> with_ticket_unclaimed(s, id, t).wf(),
{
    let u = if keep_claim {
        with_ticket(s, id, t)
    } else {
        with_ticket_unclaimed(s, id, t)
    };
    assert forall|k: u64| #[trigger] u.tickets.contains_key(k) implies {
        &&& k < u.next_ticket_id
        &&& u.events.contains_key(u.tickets[k].event_id)
        &&& ticket_consistent(u.tickets[k], u.events[u.tickets[k].event_id])
    } by {
        assert(s.tickets.contains_key(k));
    }
    assert forall|e: u64| #[trigger] u.events.contains_key(e) implies event_consistent(
        u.events[e],
        issued_count(u.tickets, e),
        u.next_ticket_id,
    ) by {
        lemma_count_after_update(s.tickets, id, t, e);
    }
    assert forall|k: u64| #[trigger] u.gift_claims.contains_key(k) implies {
        &&& u.tickets.contains_key(k)
        &&& u.tickets[k].status == TicketStatus::Valid
        &&& u.gift_claims[k].from == u.tickets[k].owner
    } by {
        assert(s.gift_claims.contains_key(k));
    }
    assert(u.tickets.dom() =~= s.tickets.dom());
}

impl Ticketing {
    /// Stores `t` under the next ticket id and counts it for its event.
    pub(crate) fn mint_ticket(&mut self, t: Ticket) -> (id: u64)
        requires
            old(self)@.wf(),
            old(self)@.events.contains_key(t.event_id),
            ticket_consistent(t, old(self)@.events[t.event_id]),
            old(self)@.next_ticket_id < u64::MAX,
        ensures
            final(self)@.wf(),
            keeps_history(old(self)@, final(self)@),
            final(self)@ == mint(old(self)@, t),
            id == old(self)@.next_ticket_id,
    {
        proof {
            lemma_wf_mint(self@, t);
        }
        let id = self.next_ticket_id;
        let event_id = t.event_id;
        let ev = self.events.remove(&event_id).unwrap();
        let new_ev = Event { tickets_issued: ev.tickets_issued + 1, ..ev };
        self.events.insert(event_id, new_ev);
        self.tickets.insert(id, t);
        self.next_ticket_id = id + 1;
        proof {
            assert(self@.events =~= mint(old(self)@, t).events);
            assert(self@.tickets =~= mint(old(self)@, t).tickets);
        }
        id
    }

    /// Mints a ticket for event `event_id` to `to`, at face value `price`.
    /// Only the event's organizer.  No payment moves: comps and off-chain
    /// sales.
    pub fn issue_ticket(
        &mut self,
        organizer: AccountId,
        event_id: u64,
        to: AccountId,
        tier: String,
        seat: String,
        price: i128,
    ) -> (r: Result<TicketIssued, Error>)
        requires
            old(self)@.wf(),
            old(self)@.next_ticket_id < u64::MAX,
        ensures
            final(self)@.wf(),
            keeps_history(old(self)@, final(self)@),
            match issue_ticket_error(old(self)@, organizer, event_id, price) {
                Some(e) => r == Err::<TicketIssued, Error>(e) && final(self)@ == old(self)@,
                None => {
                    &&& r == Ok::<TicketIssued, Error>(
                        TicketIssued { ticket_id: old(self)@.next_ticket_id, event_id },
                    )
                    &&& final(self)@ == mint(old(self)@, new_ticket(event_id, to, tier, seat, price))
                },
            },
    {
        match self.events.get(&event_id) {
            None => { return Err(Error::EventNotFound); },
            Some(ev) => {
                if ev.organizer != organizer {
                    return Err(Error::NotOrganizer);
                }
            },
        }
        if price < 0 {
            return Err(Error::InvalidPrice);
        }
        let t = Ticket {
            event_id,
            owner: to,
            tier,
            seat,
            status: TicketStatus::Valid,
            original_price: price,
            resale_price: 0,
            transfers: 0,
        };
        let ticket_id = self.mint_ticket(t);
        Ok(TicketIssued { ticket_id, event_id })
    }

    /// `buyer` buys a ticket of event `event_id` at `price`, at ledger
    /// sequence `ledger`.  Purchases of one buyer must be at least the
    /// throttle's spacing apart.  Returns the minted ticket and the transfer
    /// that pays for it: to the organizer, or to the contract while the
    /// event's proceeds are escrowed.
    pub fn purchase_primary(
        &mut self,
        buyer: AccountId,
        event_id: u64,
        tier: String,
        seat: String,
        price: i128,
        ledger: u32,
    ) -> (r: Result<(TicketIssued, Vec<Payment>), Error>)
        requires
            old(self)@.wf(),
            old(self)@.next_ticket_id < u64::MAX,
            old(self)@.events.contains_key(event_id) && old(self)@.events[event_id].escrow_enabled
                ==> old(self)@.events[event_id].escrow_balance + price <= i128::MAX,
        ensures
            final(self)@.wf(),
            keeps_history(old(self)@, final(self)@),
            match purchase_primary_error(old(self)@, buyer, event_id, price, ledger) {
                Some(e) => r == Err::<(TicketIssued, Vec<Payment>), Error>(e) && final(self)@ == old(
                    self,
                )@,
                None => {
                    &&& r matches Ok((issued, p)) && issued == TicketIssued {
                        ticket_id: old(self)@.next_ticket_id,
                        event_id,
                    } && p@ == primary_payment(old(self)@, buyer, event_id, price)
                    &&& final(self)@ == purchased(
                        old(self)@,
                        buyer,
                        new_ticket(event_id, buyer, tier, seat, price),
                        ledger,
                    )
                },
            },
    {
        let (token, recipient, escrow) = match self.events.get(&event_id) {
            None => { return Err(Error::EventNotFound); },
            Some(ev) => {
                if price < 0 {
                    return Err(Error::InvalidPrice);
                }
                match self.last_purchase_ledger.get(&buyer) {
                    Some(last) => {
                        if (ledger as u64) < (*last as u64) + (self.min_purchase_spacing as u64) {
                            return Err(Error::PurchaseTooSoon);
                        }
                    },
                    None => {},
                }
                let token = match ev.payment_token {
                    Some(t) => t,
                    None => match self.payment_token {
                        Some(t) => t,
                        None => { return Err(Error::NotInitialized); },
                    },
                };
                let recipient = if ev.escrow_enabled {
                    self.contract
                } else {
                    ev.organizer
                };
                (token, recipient, ev.escrow_enabled)
            },
        };
        let ghost s0 = self@;
        let t = Ticket {
            event_id,
            owner: buyer,
            tier,
            seat,
            status: TicketStatus::Valid,
            original_price: price,
            resale_price: 0,
            transfers: 0,
        };
        let ghost tg = t;
        let ticket_id = self.mint_ticket(t);
        self.last_purchase_ledger.insert(buyer, ledger);
        proof {
            assert(self@.wf());
        }
        if escrow {
            let ghost s1 = self@;
            let ev = self.events.remove(&event_id).unwrap();
            let new_ev = Event { escrow_balance: ev.escrow_balance + price, ..ev };
            self.events.insert(event_id, new_ev);
            proof {
                assert(self@.events =~= s1.events.insert(event_id, new_ev));
                super::organizer::lemma_wf_event_update(s1, event_id, new_ev);
                assert(self@ == super::organizer::with_event(s1, event_id, new_ev));
            }
        }
        let mut payments: Vec<Payment> = Vec::new();
        if price > 0 {
            payments.push(Payment { token, from: buyer, to: recipient, amount: price });
        }
        proof {
            assert(payments@ =~= primary_payment(s0, buyer, event_id, price));
            assert(self@.events =~= purchased(s0, buyer, tg, ledger).events);
        }
        Ok((TicketIssued { ticket_id, event_id }, payments))
    }
}


impl Ticketing {
    /// The ticket stored under `ticket_id`, for a gate or a client to check.
    pub fn verify_ticket(&self, ticket_id: u64) -> (r: Result<&Ticket, Error>)
        ensures
            match r {
                Ok(t) => self@.tickets.contains_key(ticket_id) && *t == self@.tickets[ticket_id],
                Err(e) => !self@.tickets.contains_key(ticket_id) && e == Error::TicketNotFound,
            },
    {
        self.get_ticket(ticket_id)
    }

    /// The tickets stored under `ticket_ids`, in order; refused for an
    /// empty or oversized batch and when one of them does not exist.
    pub fn verify_tickets(&self, ticket_ids: &Vec<u64>) -> (r: Result<Vec<&Ticket>, Error>)
        ensures
            match batch_size_error(ticket_ids@.len() as int) {
                Some(e) => r == Err::<Vec<&Ticket>, Error>(e),
                None => if exists|i: int|
                    0 <= i < ticket_ids@.len() && !#[trigger] self@.tickets.contains_key(
                        ticket_ids@[i],
                    ) {
                    r == Err::<Vec<&Ticket>, Error>(Error::TicketNotFound)
                } else {
                    r matches Ok(v) && v@.len() == ticket_ids@.len() && forall|i: int|
                        0 <= i < ticket_ids@.len() ==> *#[trigger] v@[i]
                            == self@.tickets[ticket_ids@[i]]
                },
            },
    {
        let n = ticket_ids.len();
        if n == 0 {
            return Err(Error::EmptyBatch);
        }
        if n > MAX_BATCH_SIZE as usize {
            return Err(Error::BatchTooLarge);
        }
        let mut out: Vec<&Ticket> = Vec::new();
        let mut i: usize = 0;
        while i < n
            invariant
                n == ticket_ids@.len(),
                i <= n,
                0 < n <= MAX_BATCH_SIZE,
                out@.len() == i,
                forall|j: int| 0 <= j < i ==> self@.tickets.contains_key(#[trigger] ticket_ids@[j]),
                forall|j: int| 0 <= j < i ==> *#[trigger] out@[j] == self@.tickets[ticket_ids@[j]],
            decreases n - i,
        {
            let id = ticket_ids[i];
            match self.tickets.get(&id) {
                None => {
                    assert(!self@.tickets.contains_key(ticket_ids@[i as int]));
                    return Err(Error::TicketNotFound);
                },
                Some(t) => {
                    let ghost prev = out@;
                    out.push(t);
                    assert(forall|j: int| 0 <= j < i ==> out@[j] == prev[j]);
                },
            }
            i = i + 1;
        }
        Ok(out)
    }

    /// Marks ticket `ticket_id` used at the point of entry.  Only the
    /// organizer of its event; a revoked or already used ticket is refused.
    /// A resale listing or gift claim on it lapses.
    pub fn check_in(&mut self, organizer: AccountId, ticket_id: u64) -> (r: Result<
        TicketCheckedIn,
        Error,
    >)
        requires
            old(self)@.wf(),
        ensures
            final(self)@.wf(),
            keeps_history(old(self)@, final(self)@),
            match check_in_error(old(self)@, organizer, ticket_id) {
                Some(e) => r == Err::<TicketCheckedIn, Error>(e) && final(self)@ == old(self)@,
                None => {
                    &&& r == Ok::<TicketCheckedIn, Error>(TicketCheckedIn { ticket_id, organizer })
                    &&& final(self)@ == with_ticket_unclaimed(
                        old(self)@,
                        ticket_id,
                        retired(old(self)@.tickets[ticket_id], TicketStatus::Used),
                    )
                },
            },
    {
        match self.retire(organizer, ticket_id, TicketStatus::Used) {
            Ok(()) => Ok(TicketCheckedIn { ticket_id, organizer }),
            Err(e) => Err(e),
        }
    }

    /// Revokes ticket `ticket_id`; it can no longer be used, transferred or
    /// resold.  Only the organizer of its event; a used ticket is refused.
    pub fn revoke_ticket(&mut self, organizer: AccountId, ticket_id: u64) -> (r: Result<(), Error>)
        requires
            old(self)@.wf(),
        ensures
            final(self)@.wf(),
            keeps_history(old(self)@, final(self)@),
            match check_in_error(old(self)@, organizer, ticket_id) {
                Some(e) => r == Err::<(), Error>(e) && final(self)@ == old(self)@,
                None => r is Ok && final(self)@ == with_ticket_unclaimed(
                    old(self)@,
                    ticket_id,
                    retired(old(self)@.tickets[ticket_id], TicketStatus::Revoked),
                ),
            },
    {
        self.retire(organizer, ticket_id, TicketStatus::Revoked)
    }

    /// Takes ticket `ticket_id` out of circulation with status `st`.
    fn retire(&mut self, organizer: AccountId, ticket_id: u64, st: TicketStatus) -> (r: Result<
        (),
        Error,
    >)
        requires
            old(self)@.wf(),
            st == TicketStatus::Used || st == TicketStatus::Revoked,
        ensures
            final(self)@.wf(),
            keeps_history(old(self)@, final(self)@),
            match check_in_error(old(self)@, organizer, ticket_id) {
                Some(e) => r == Err::<(), Error>(e) && final(self)@ == old(self)@,
                None => r is Ok && final(self)@ == with_ticket_unclaimed(
                    old(self)@,
                    ticket_id,
                    retired(old(self)@.tickets[ticket_id], st),
                ),
            },
    {
        match self.tickets.get(&ticket_id) {
            None => { return Err(Error::TicketNotFound); },
            Some(t) => {
                let ev = self.events.get(&t.event_id).unwrap();
                if ev.organizer != organizer {
                    return Err(Error::NotOrganizer);
                }
                if t.status == TicketStatus::Revoked {
                    return Err(Error::Revoked);
                }
                if t.status == TicketStatus::Used {
                    return Err(Error::AlreadyUsed);
                }
            },
        }
        let t = self.tickets.remove(&ticket_id).unwrap();
        let new_t = Ticket { status: st, resale_price: 0, ..t };
        proof {
            lemma_wf_ticket_update(old(self)@, ticket_id, new_t, false);
        }
        self.tickets.insert(ticket_id, new_t);
        self.gift_claims.remove(&ticket_id);
        proof {
            assert(self@.tickets =~= old(self)@.tickets.insert(ticket_id, new_t));
        }
        Ok(())
    }

    /// Revokes ticket `ticket_id` as `revoke_ticket` does and, when `refund`
    /// is set, returns the transfer that pays the holder the original price
    /// back from the organizer, in the event's token.
    pub fn revoke_with_refund(&mut self, organizer: AccountId, ticket_id: u64, refund: bool) -> (r:
        Result<Vec<Payment>, Error>)
        requires
            old(self)@.wf(),
        ensures
            final(self)@.wf(),
            keeps_history(old(self)@, final(self)@),
            match revoke_with_refund_error(old(self)@, organizer, ticket_id, refund) {
                Some(e) => r == Err::<Vec<Payment>, Error>(e) && final(self)@ == old(self)@,
                None => {
                    &&& r matches Ok(p) && p@ == refund_payment(old(self)@, ticket_id, refund)
                    &&& final(self)@ == with_ticket_unclaimed(
                        old(self)@,
                        ticket_id,
                        retired(old(self)@.tickets[ticket_id], TicketStatus::Revoked),
                    )
                },
            },
    {
        let (token, holder, price) = match self.tickets.get(&ticket_id) {
            None => { return Err(Error::TicketNotFound); },
            Some(t) => {
                let ev = self.events.get(&t.event_id).unwrap();
                if ev.organizer != organizer {
                    return Err(Error::NotOrganizer);
                }
                if t.status == TicketStatus::Revoked {
                    return Err(Error::Revoked);
                }
                if t.status == TicketStatus::Used {
                    return Err(Error::AlreadyUsed);
                }
                let token = match ev.payment_token {
                    Some(tk) => Some(tk),
                    None => self.payment_token,
                };
                if refund && t.original_price > 0 && token.is_none() {
                    return Err(Error::NotInitialized);
                }
                (token, t.owner, t.original_price)
            },
        };
        let ghost s0 = self@;
        let res = self.retire(organizer, ticket_id, TicketStatus::Revoked);
        assert(res is Ok);
        let mut payments: Vec<Payment> = Vec::new();
        if refund && price > 0 {
            payments.push(
                Payment { token: token.unwrap(), from: organizer, to: holder, amount: price },
            );
        }
        proof {
            assert(payments@ =~= refund_payment(s0, ticket_id, refund));
        }
        Ok(payments)
    }

    /// `from` hands ticket `ticket_id` to `to` at ledger time `now`.  Refused
    /// for a revoked or used ticket, once transfers are frozen before the
    /// event, and once the ticket has used up the event's transfer limit.
    /// A resale listing or gift claim on it lapses.
    pub fn transfer_ticket(&mut self, from: AccountId, ticket_id: u64, to: AccountId, now: u64) -> (r:
        Result<(), Error>)
        requires
            old(self)@.wf(),
        ensures
            final(self)@.wf(),
            keeps_history(old(self)@, final(self)@),
            match transfer_error(old(self)@, from, ticket_id, now) {
                Some(e) => r == Err::<(), Error>(e) && final(self)@ == old(self)@,
                None => r is Ok && final(self)@ == with_ticket_unclaimed(
                    old(self)@,
                    ticket_id,
                    transferred(old(self)@.tickets[ticket_id], to),
                ),
            },
    {
        match self.tickets.get(&ticket_id) {
            None => { return Err(Error::TicketNotFound); },
            Some(t) => {
                if t.owner != from {
                    return Err(Error::NotOwner);
                }
                if t.status == TicketStatus::Revoked {
                    return Err(Error::Revoked);
                }
                if t.status == TicketStatus::Used {
                    return Err(Error::AlreadyUsed);
                }
                let ev = self.events.get(&t.event_id).unwrap();
                if now as u128 + ev.transfer_freeze_seconds as u128 >= ev.starts_at as u128 {
                    return Err(Error::TransfersFrozen);
                }
                match ev.max_transfers_per_ticket {
                    Some(m) => {
                        if t.transfers >= m {
                            return Err(Error::TransferLimitExceeded);
                        }
                    },
                    None => {},
                }
            },
        }
        let t = self.tickets.remove(&ticket_id).unwrap();
        let transfers = if t.transfers < u32::MAX {
            t.transfers + 1
        } else {
            u32::MAX
        };
        let new_t = Ticket { owner: to, status: TicketStatus::Valid, resale_price: 0, transfers, ..t };
        proof {
            lemma_wf_ticket_update(old(self)@, ticket_id, new_t, false);
        }
        self.tickets.insert(ticket_id, new_t);
        self.gift_claims.remove(&ticket_id);
        proof {
            assert(self@.tickets =~= old(self)@.tickets.insert(ticket_id, new_t));
        }
        Ok(())
    }

    /// Moves ticket `ticket_id` to seat `seat`.  Only the organizer of its
    /// event.
    pub fn set_seat(&mut self, organizer: AccountId, ticket_id: u64, seat: String) -> (r: Result<
        (),
        Error,
    >)
        requires
            old(self)@.wf(),
        ensures
            final(self)@.wf(),
            keeps_history(old(self)@, final(self)@),
            match ticket_organizer_error(old(self)@, organizer, ticket_id) {
                Some(e) => r == Err::<(), Error>(e) && final(self)@ == old(self)@,
                None => r is Ok && final(self)@ == with_ticket(
                    old(self)@,
                    ticket_id,
                    Ticket { seat, ..old(self)@.tickets[ticket_id] },
                ),
            },
    {
        match self.tickets.get(&ticket_id) {
            None => { return Err(Error::TicketNotFound); },
            Some(t) => {
                let ev = self.events.get(&t.event_id).unwrap();
                if ev.organizer != organizer {
                    return Err(Error::NotOrganizer);
                }
            },
        }
        let t = self.tickets.remove(&ticket_id).unwrap();
        let new_t = Ticket { seat, ..t };
        proof {
            lemma_wf_ticket_update(old(self)@, ticket_id, new_t, true);
        }
        self.tickets.insert(ticket_id, new_t);
        proof {
            assert(self@.tickets =~= old(self)@.tickets.insert(ticket_id, new_t));
        }
        Ok(())
    }
}

} // verus!

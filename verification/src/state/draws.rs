//! Lottery allocation: the organizer mints tickets to winners drawn from a
//! list of entrants by random offsets that the caller draws from the
//! ledger's pseudo-random generator inside the contract invocation.
use vstd::prelude::*;
use crate::error::Error;
use crate::lottery::{distinct, draw_winners, lemma_winners_are_distinct_entrants, valid_draws, winners_of};
use crate::types::{AccountId, Event, Ticket, TicketStatus};
use super::{keeps_history, Ticketing, TicketingView};
use super::tickets::mint;

verus! {

/// Why a lottery of `winners` tickets at `price` among `entrants` is
/// refused, if it is.
pub open spec fn lottery_error(
    s: TicketingView,
    organizer: AccountId,
    event_id: u64,
    entrants: Seq<AccountId>,
    winners: u32,
    price: i128,
) -> Option<Error> {
    if !s.events.contains_key(event_id) {
        Some(Error::EventNotFound)
    } else if s.events[event_id].organizer != organizer {
        Some(Error::NotOrganizer)
    } else if price < 0 {
        Some(Error::InvalidPrice)
    } else if winners > entrants.len() || !distinct(entrants) {
        Some(Error::InvalidLottery)
    } else {
        None
    }
}

/// A ticket won in the lottery of event `event_id` by `owner`: of tier
/// `tier`, unassigned seat, face value `price`.
pub open spec fn lottery_ticket(
    t: Ticket,
    event_id: u64,
    owner: AccountId,
    tier: Seq<char>,
    price: i128,
) -> bool {
    &&& t.event_id == event_id
    &&& t.owner == owner
    &&& t.tier@ == tier
    &&& t.seat@ == "unassigned"@
    &&& t.status == TicketStatus::Valid
    &&& t.original_price == price
    &&& t.resale_price == 0
    &&& t.transfers == 0
}

/// `new` is `old` with one lottery ticket minted for each of `owners`, in
/// order, under the next ticket ids.
pub open spec fn lottery_minted(
    old: TicketingView,
    new: TicketingView,
    event_id: u64,
    owners: Seq<AccountId>,
    tier: Seq<char>,
    price: i128,
) -> bool {
    let n = old.next_ticket_id as int;
    let w = owners.len() as int;
    &&& new.next_ticket_id == n + w
    &&& new.events == old.events.insert(
        event_id,
        Event {
            tickets_issued: (old.events[event_id].tickets_issued + w) as u64,
            ..old.events[event_id]
        },
    )
    &&& forall|id: u64| #[trigger]
        new.tickets.contains_key(id) <==> (old.tickets.contains_key(id) || n <= id < n + w)
    &&& forall|id: u64| #[trigger] old.tickets.contains_key(id) ==> new.tickets[id] == old.tickets[id]
    &&& forall|k: int|
        0 <= k < w ==> lottery_ticket(
            #[trigger] new.tickets[(n + k) as u64],
            event_id,
            owners[k],
            tier,
            price,
        )
    &&& new == TicketingView {
        next_ticket_id: new.next_ticket_id,
        events: new.events,
        tickets: new.tickets,
        ..old
    }
}

/// Whether some account occurs twice in `v`.
fn has_duplicates(v: &Vec<AccountId>) -> (r: bool)
    ensures
        r == !distinct(v@),
{
    let n = v.len();
    let mut i: usize = 0;
    while i < n
        invariant
            n == v@.len(),
            i <= n,
            forall|a: int, b: int| 0 <= a < b < n && a < i ==> v@[a] != v@[b],
        decreases n - i,
    {
        let mut j: usize = i + 1;
        while j < n
            invariant
                n == v@.len(),
                i < n,
                i < j <= n,
                forall|a: int, b: int| 0 <= a < b < n && a < i ==> v@[a] != v@[b],
                forall|b: int| i < b < j ==> v@[i as int] != v@[b],
            decreases n - j,
        {
            if v[i] == v[j] {
                return true;
            }
            j = j + 1;
        }
        i = i + 1;
    }
    false
}

impl Ticketing {
    /// Mints `winners` lottery tickets of event `event_id` at `price` to
    /// entrants drawn with the offsets `draws` (see `draw_winners`).  Only
    /// the organizer; refused when there are fewer entrants than winners or
    /// an entrant occurs twice.  Returns the new ticket ids, in order.
    ///
    /// The caller draws the offsets from the ledger's generator while the
    /// contract runs: the `i`-th uniformly below `entrants.len() - i`
    /// (`Prng::gen_range`).  Whatever they are, the winners are `winners`
    /// distinct entrants.
    pub fn allocate_lottery_with_draws(
        &mut self,
        organizer: AccountId,
        event_id: u64,
        entrants: &Vec<AccountId>,
        winners: u32,
        draws: &Vec<u64>,
        tier: String,
        price: i128,
    ) -> (r: Result<Vec<u64>, Error>)
        requires
            old(self)@.wf(),
            old(self)@.next_ticket_id + winners <= u64::MAX,
            winners <= entrants@.len() ==> draws@.len() == winners && valid_draws(
                entrants@.len() as int,
                draws@,
            ),
        ensures
            final(self)@.wf(),
            keeps_history(old(self)@, final(self)@),
            match lottery_error(old(self)@, organizer, event_id, entrants@, winners, price) {
                Some(e) => r == Err::<Vec<u64>, Error>(e) && final(self)@ == old(self)@,
                None => {
                    &&& r matches Ok(ids) && ids@ == Seq::new(
                        winners as nat,
                        |k: int| (old(self)@.next_ticket_id + k) as u64,
                    )
                    &&& lottery_minted(
                        old(self)@,
                        final(self)@,
                        event_id,
                        winners_of(entrants@, draws@),
                        tier@,
                        price,
                    )
                },
            },
    {
        match self.events.get(&event_id) {
            None => { return Err(Error::EventNotFound); },
            Some(ev) => {
                if ev.organizer != organizer {
                    return Err(Error::NotOrganizer);
                }
            },
        }
        if price < 0 {
            return Err(Error::InvalidPrice);
        }
        if winners as usize > entrants.len() || has_duplicates(entrants) {
            return Err(Error::InvalidLottery);
        }
        let chosen = draw_winners(entrants, draws);
        proof {
            lemma_winners_are_distinct_entrants(entrants@, draws@);
        }
        let ghost s0 = self@;
        let ghost n = s0.next_ticket_id as int;
        let w = chosen.len();
        proof {
            let ev0 = s0.events[event_id];
            assert(Event { tickets_issued: (ev0.tickets_issued + 0) as u64, ..ev0 } == ev0);
            assert(s0.events.insert(event_id, ev0) =~= s0.events);
        }
        let mut ids: Vec<u64> = Vec::new();
        let mut k: usize = 0;
        while k < w
            invariant
                w == chosen@.len(),
                w == winners,
                k <= w,
                s0.wf(),
                s0.events.contains_key(event_id),
                n == s0.next_ticket_id,
                n + w <= u64::MAX,
                price >= 0,
                self@.wf(),
                lottery_minted(s0, self@, event_id, chosen@.take(k as int), tier@, price),
                ids@ == Seq::new(k as nat, |j: int| (n + j) as u64),
            decreases w - k,
        {
            let ghost before = self@;
            let t = Ticket {
                event_id,
                owner: chosen[k],
                tier: tier.clone(),
                seat: String::from_str("unassigned"),
                status: TicketStatus::Valid,
                original_price: price,
                resale_price: 0,
                transfers: 0,
            };
            let id = self.mint_ticket(t);
            ids.push(id);
            k = k + 1;
            proof {
                let owners = chosen@.take(k as int);
                assert(owners.take(k - 1) =~= chosen@.take(k - 1));
                assert(self@ == mint(before, t));
                assert(id == n + k - 1);
                assert forall|kk: int| 0 <= kk < k implies lottery_ticket(
                    #[trigger] self@.tickets[(n + kk) as u64],
                    event_id,
                    owners[kk],
                    tier@,
                    price,
                ) by {
                    if kk < k - 1 {
                        assert(before.tickets.contains_key((n + kk) as u64));
                    }
                }
                assert(self@.events =~= s0.events.insert(
                    event_id,
                    Event {
                        tickets_issued: (s0.events[event_id].tickets_issued + k) as u64,
                        ..s0.events[event_id]
                    },
                ));
                assert(ids@ =~= Seq::new(k as nat, |j: int| (n + j) as u64));
            }
        }
        proof {
            assert(chosen@.take(w as int) =~= chosen@);
        }
        Ok(ids)
    }
}

} // verus!

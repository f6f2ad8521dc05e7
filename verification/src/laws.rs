//! Properties of the ticketing rules that span operations, each proved from
//! the operations' own specifications.
use vstd::prelude::*;
use crate::constants::PAYMENT_TOKEN_CHANGE_DELAY_LEDGERS;
use crate::error::{Error, error_code};
use crate::pricing::{meets_resale_floor, royalty_of, within_resale_cap};
use crate::types::{AccountId, Event, Payment, PendingPaymentToken, Ticket, TicketStatus, TokenFailure};
use crate::state::{TicketingView, issued_count, settled};
use crate::state::admin::{apply_payment_token_error, propose_payment_token_error, timelock_end};
use crate::state::batches::{BatchOp, batch_outcome, batch_step};
use crate::state::gifts::claim_gift_error;
use crate::state::organizer::{escrow_payout, release_escrow_error, with_event};
use crate::state::resale::{buy_resale_error, cancel_resale_error, list_for_resale_error, listed, resale_payments, unlisted};
use crate::state::tickets::{issue_ticket_error, lemma_wf_mint, mint, new_ticket, primary_payment};
use crate::lottery::{shuffled, valid_draws, winners_of};
use crate::state::tickets::{check_in_error, purchase_primary_error, purchased, retired, ticket_owner_error, transfer_error, transferred, with_ticket, with_ticket_unclaimed};

verus! {

/// The sum of the amounts of `payments`.
pub open spec fn total_paid(payments: Seq<Payment>) -> int
    decreases payments.len(),
{
    if payments.len() == 0 {
        0
    } else {
        payments[0].amount + total_paid(payments.drop_first())
    }
}

/// Each error has a code of its own.
pub proof fn error_codes_are_distinct(a: Error, b: Error)
    ensures
        error_code(a) == error_code(b) ==> a == b,
{
}

/// The count an event reports as issued is the number of its tickets in
/// storage.
pub proof fn tickets_issued_counts_the_events_tickets(s: TicketingView, event_id: u64)
    requires
        s.wf(),
        s.events.contains_key(event_id),
    ensures
        s.events[event_id].tickets_issued == issued_count(s.tickets, event_id),
{
}

/// Issuing a ticket gives it an id no ticket had, counts it for its event
/// alone and leaves every other ticket as it was; the next ticket issued
/// gets yet another id.
pub proof fn issued_tickets_get_fresh_ids(
    s: TicketingView,
    organizer: AccountId,
    event_id: u64,
    to: AccountId,
    tier: String,
    seat: String,
    price: i128,
)
    requires
        s.wf(),
        s.next_ticket_id < u64::MAX,
        issue_ticket_error(s, organizer, event_id, price).is_none(),
    ensures
        ({
            let id = s.next_ticket_id;
            let after = mint(s, new_ticket(event_id, to, tier, seat, price));
            &&& !s.tickets.contains_key(id)
            &&& after.tickets.contains_key(id)
            &&& after.events[event_id].tickets_issued == s.events[event_id].tickets_issued + 1
            &&& forall|e: u64|
                e != event_id && #[trigger] s.events.contains_key(e) ==> after.events[e]
                    == s.events[e]
            &&& forall|k: u64| #[trigger]
                s.tickets.contains_key(k) ==> after.tickets[k] == s.tickets[k]
            &&& after.wf()
            &&& after.next_ticket_id != id
            &&& !after.tickets.contains_key(after.next_ticket_id)
        }),
{
    let t = new_ticket(event_id, to, tier, seat, price);
    let after = mint(s, t);
    assert(!s.tickets.contains_key(s.next_ticket_id));
    lemma_wf_mint(s, t);
    assert(!after.tickets.contains_key(after.next_ticket_id));
}

/// A primary purchase is all or nothing: settled with a refused payment it
/// leaves the storage as it was, with no ticket minted and the event's count
/// unchanged; settled with the payment carried out, the ticket is there and
/// counted.
pub proof fn purchases_commit_only_when_paid(
    s: TicketingView,
    buyer: AccountId,
    event_id: u64,
    tier: String,
    seat: String,
    price: i128,
    ledger: u32,
    outcome: Result<(), TokenFailure>,
)
    requires
        s.wf(),
        s.next_ticket_id < u64::MAX,
        purchase_primary_error(s, buyer, event_id, price, ledger).is_none(),
    ensures
        ({
            let after = settled(
                s,
                purchased(s, buyer, new_ticket(event_id, buyer, tier, seat, price), ledger),
                outcome,
            );
            &&& outcome is Err ==> {
                &&& after == s
                &&& !after.tickets.contains_key(s.next_ticket_id)
                &&& after.events[event_id] == s.events[event_id]
            }
            &&& outcome is Ok ==> {
                &&& after.tickets.contains_key(s.next_ticket_id)
                &&& after.tickets[s.next_ticket_id].owner == buyer
                &&& after.events[event_id].tickets_issued == s.events[event_id].tickets_issued + 1
            }
        }),
{
    assert(!s.tickets.contains_key(s.next_ticket_id));
}

/// No ticket is ever offered above its event's resale cap, nor below its
/// floor when the event has one.
pub proof fn listings_respect_cap_and_floor(s: TicketingView, id: u64)
    requires
        s.wf(),
        s.tickets.contains_key(id),
        s.tickets[id].status == TicketStatus::Resale,
    ensures
        s.tickets[id].resale_price > 0,
        within_resale_cap(
            s.tickets[id].original_price as int,
            s.tickets[id].resale_price as int,
            s.event_of(id).max_resale_multiplier_bps as int,
        ),
        s.event_of(id).min_resale_multiplier_bps matches Some(m) ==> meets_resale_floor(
            s.tickets[id].original_price as int,
            s.tickets[id].resale_price as int,
            m as int,
        ),
{
    assert(s.tickets.contains_key(id));
}

/// A ticket under a gift claim is valid, unlisted, and held by whoever left
/// the claim: a listing and a gift claim never coexist.
pub proof fn gift_claims_exclude_listings(s: TicketingView, id: u64)
    requires
        s.wf(),
        s.gift_claims.contains_key(id),
    ensures
        s.tickets.contains_key(id),
        s.tickets[id].status == TicketStatus::Valid,
        s.tickets[id].resale_price == 0,
        s.tickets[id].owner == s.gift_claims[id].from,
{
    assert(s.gift_claims.contains_key(id));
    assert(s.tickets.contains_key(id));
}

/// With a transfer limit, no ticket has been transferred more often than
/// the limit allows.
pub proof fn transfers_stay_within_the_limit(s: TicketingView, id: u64)
    requires
        s.wf(),
        s.tickets.contains_key(id),
    ensures
        s.event_of(id).max_transfers_per_ticket matches Some(m) ==> s.tickets[id].transfers <= m,
{
    assert(s.tickets.contains_key(id));
}

/// Check-in is final: a checked-in ticket cannot be checked in again, nor
/// revoked, transferred, listed for resale or gifted by its holder.
pub proof fn check_in_is_final(s: TicketingView, organizer: AccountId, id: u64, now: u64, price: i128)
    requires
        s.wf(),
        check_in_error(s, organizer, id).is_none(),
    ensures
        ({
            let s1 = with_ticket_unclaimed(s, id, retired(s.tickets[id], TicketStatus::Used));
            let holder = s.tickets[id].owner;
            &&& check_in_error(s1, organizer, id) == Some(Error::AlreadyUsed)
            &&& ticket_owner_error(s1, holder, id) == Some(Error::AlreadyUsed)
            &&& transfer_error(s1, holder, id, now) == Some(Error::AlreadyUsed)
            &&& list_for_resale_error(s1, holder, id, price, now) == Some(Error::AlreadyUsed)
        }),
{
}

/// Revocation is final: a revoked ticket cannot be checked in, revoked
/// again, transferred, listed for resale or gifted by its holder.
pub proof fn revocation_is_final(s: TicketingView, organizer: AccountId, id: u64, now: u64, price: i128)
    requires
        s.wf(),
        check_in_error(s, organizer, id).is_none(),
    ensures
        ({
            let s1 = with_ticket_unclaimed(s, id, retired(s.tickets[id], TicketStatus::Revoked));
            let holder = s.tickets[id].owner;
            &&& check_in_error(s1, organizer, id) == Some(Error::Revoked)
            &&& ticket_owner_error(s1, holder, id) == Some(Error::Revoked)
            &&& transfer_error(s1, holder, id, now) == Some(Error::Revoked)
            &&& list_for_resale_error(s1, holder, id, price, now) == Some(Error::Revoked)
        }),
{
}

/// A transfer hands the ticket over: the former holder can no longer act on
/// it, the new holder can.
pub proof fn transfer_hands_over_control(s: TicketingView, from: AccountId, id: u64, to: AccountId, now: u64)
    requires
        s.wf(),
        transfer_error(s, from, id, now).is_none(),
        from != to,
    ensures
        ({
            let s1 = with_ticket_unclaimed(s, id, transferred(s.tickets[id], to));
            &&& ticket_owner_error(s1, from, id) == Some(Error::NotOwner)
            &&& ticket_owner_error(s1, to, id).is_none()
            &&& s1.tickets[id].status == TicketStatus::Valid
        }),
{
}

/// Withdrawing a listing undoes it: listing a valid ticket and cancelling
/// the listing gives the ticket back as it was; only a gift claim that was
/// on it has lapsed.
pub proof fn cancel_undoes_listing(s: TicketingView, owner: AccountId, id: u64, price: i128, now: u64)
    requires
        s.wf(),
        list_for_resale_error(s, owner, id, price, now).is_none(),
        s.tickets[id].status == TicketStatus::Valid,
    ensures
        ({
            let s1 = with_ticket_unclaimed(s, id, listed(s.tickets[id], price));
            &&& cancel_resale_error(s1, owner, id).is_none()
            &&& with_ticket(s1, id, unlisted(s1.tickets[id])) == TicketingView {
                gift_claims: s.gift_claims.remove(id),
                ..s
            }
        }),
{
    assert(s.tickets.contains_key(id));
    let s1 = with_ticket_unclaimed(s, id, listed(s.tickets[id], price));
    assert(unlisted(s1.tickets[id]) == s.tickets[id]);
    assert(s1.tickets.insert(id, unlisted(s1.tickets[id])) =~= s.tickets);
}

/// A resale settles for exactly the resale price: the buyer pays it all,
/// split between the organizer's royalty and the seller's proceeds.
pub proof fn resale_settles_for_the_price(s: TicketingView, buyer: AccountId, id: u64, now: u64)
    requires
        s.wf(),
        buy_resale_error(s, id, now).is_none(),
    ensures
        total_paid(resale_payments(s, buyer, id)) == s.tickets[id].resale_price,
        forall|k: int|
            0 <= k < resale_payments(s, buyer, id).len() ==> (#[trigger] resale_payments(
                s,
                buyer,
                id,
            )[k]).from == buyer && resale_payments(s, buyer, id)[k].amount > 0,
        0 <= royalty_of(s.tickets[id].resale_price as int, s.event_of(id).royalty_bps as int)
            <= s.tickets[id].resale_price,
{
    assert(s.tickets.contains_key(id));
    let t = s.tickets[id];
    let ev = s.event_of(id);
    let p = t.resale_price as int;
    let b = ev.royalty_bps as int;
    assert(0 <= p * b <= p * 10_000) by (nonlinear_arith)
        requires
            p >= 0,
            0 <= b <= 10_000,
    ;
    assert((p * b) / 10_000 <= p) by {
        vstd::arithmetic::div_mod::lemma_multiply_divide_le(p * b, 10_000, p);
    }
    assert((p * b) / 10_000 >= 0) by {
        vstd::arithmetic::div_mod::lemma_div_pos_is_pos(p * b, 10_000);
    }
    let ps = resale_payments(s, buyer, id);
    let royalty = royalty_of(p, b);
    reveal_with_fuel(total_paid, 3);
    if royalty > 0 && p - royalty > 0 {
        assert(ps.drop_first().drop_first() =~= Seq::<Payment>::empty());
    } else if royalty > 0 || p - royalty > 0 {
        assert(ps.drop_first() =~= Seq::<Payment>::empty());
    } else {
        assert(ps =~= Seq::<Payment>::empty());
    }
}

/// Escrow pays out once: a release transfers the whole balance to the
/// organizer and leaves nothing held, so a second release transfers
/// nothing.
pub proof fn escrow_pays_out_once(s: TicketingView, organizer: AccountId, event_id: u64, ledger: u32)
    requires
        s.wf(),
        release_escrow_error(s, organizer, event_id, ledger).is_none(),
    ensures
        ({
            let s1 = with_event(s, event_id, Event { escrow_balance: 0, ..s.events[event_id] });
            &&& total_paid(escrow_payout(s, event_id)) == s.events[event_id].escrow_balance
            &&& release_escrow_error(s1, organizer, event_id, ledger).is_none()
            &&& escrow_payout(s1, event_id) == Seq::<Payment>::empty()
        }),
{
    assert(s.events.contains_key(event_id));
    let ps = escrow_payout(s, event_id);
    reveal_with_fuel(total_paid, 2);
    let s1 = with_event(s, event_id, Event { escrow_balance: 0, ..s.events[event_id] });
    assert(escrow_payout(s1, event_id) =~= Seq::<Payment>::empty());
    if s.events[event_id].escrow_balance > 0 {
        assert(ps.drop_first() =~= Seq::<Payment>::empty());
    }
}

/// The throttle spaces purchases: right after buying at `ledger`, the same
/// buyer is refused another purchase of any event at a valid price until the
/// spacing has passed.
pub proof fn purchases_are_spaced(
    s: TicketingView,
    buyer: AccountId,
    t: Ticket,
    ledger: u32,
    event_id: u64,
    price: i128,
    later: u32,
)
    requires
        s.wf(),
        s.events.contains_key(t.event_id),
        s.events.contains_key(event_id),
        price >= 0,
        later < ledger + s.min_purchase_spacing,
    ensures
        purchase_primary_error(purchased(s, buyer, t, ledger), buyer, event_id, price, later) == Some(
            Error::PurchaseTooSoon,
        ),
{
}

/// A gift claim is redeemed at most once: after a claim succeeds, claiming
/// again finds no claim.
pub proof fn gift_claims_are_single_use(
    s: TicketingView,
    recipient: AccountId,
    id: u64,
    digest: Seq<u8>,
    now: u64,
    digest2: Seq<u8>,
    now2: u64,
)
    requires
        s.wf(),
        claim_gift_error(s, id, digest, now).is_none(),
    ensures
        claim_gift_error(
            with_ticket_unclaimed(s, id, Ticket { owner: recipient, ..s.tickets[id] }),
            id,
            digest2,
            now2,
        ) == Some(Error::GiftClaimNotFound),
{
}

/// The payment token timelock: a change proposed at ledger `proposed_at` can
/// only be applied at least the delay later.
pub proof fn payment_token_changes_wait_for_the_timelock(
    s: TicketingView,
    admin: AccountId,
    token: AccountId,
    decimals: Option<u32>,
    proposed_at: u32,
    new_decimals: Option<u32>,
    applied_at: u32,
)
    requires
        propose_payment_token_error(s, admin, decimals).is_none(),
        proposed_at + PAYMENT_TOKEN_CHANGE_DELAY_LEDGERS <= u32::MAX,
        apply_payment_token_error(
            TicketingView {
                pending_payment_token: Some(
                    PendingPaymentToken {
                        token,
                        apply_after_ledger: timelock_end(proposed_at),
                    },
                ),
                ..s
            },
            admin,
            new_decimals,
            applied_at,
        ).is_none(),
    ensures
        applied_at >= proposed_at + PAYMENT_TOKEN_CHANGE_DELAY_LEDGERS,
{
}

/// A batch of one ticket does exactly what the single operation does.
pub proof fn batch_of_one_is_the_single_operation(
    s: TicketingView,
    op: BatchOp,
    caller: AccountId,
    id: u64,
)
    ensures
        batch_outcome(s, op, caller, seq![id]) == batch_step(s, op, caller, id),
{
    let ids = seq![id];
    assert(ids.drop_first() =~= Seq::<u64>::empty());
    reveal_with_fuel(crate::state::batches::batch_all, 2);
}

/// The token an event's money moves in, read off the storage: the event's
/// own payment token when it has one, else the contract-wide token.
pub open spec fn event_token(s: TicketingView, event_id: u64) -> AccountId {
    match s.events[event_id].payment_token {
        Some(t) => t,
        None => s.payment_token.unwrap(),
    }
}

/// A resale settles in its event's token: every payment it asks of the
/// buyer is in the event's own payment token when the event has one, and in
/// the contract-wide token otherwise.
pub proof fn resales_settle_in_the_events_token(s: TicketingView, buyer: AccountId, id: u64)
    requires
        s.tickets.contains_key(id),
        s.events[s.tickets[id].event_id].payment_token is Some || s.payment_token is Some,
    ensures
        forall|k: int|
            0 <= k < resale_payments(s, buyer, id).len() ==> (#[trigger] resale_payments(
                s,
                buyer,
                id,
            )[k]).token == event_token(s, s.tickets[id].event_id)
                && resale_payments(s, buyer, id)[k].from == buyer,
{
}

/// Escrow is paid out in the token it was collected in: the payout is made
/// in the event's own payment token when it has one, else in the
/// contract-wide token, the same token a primary purchase of the event pays
/// the contract in; it goes from the contract to the organizer and is the
/// whole balance.
pub proof fn escrow_pays_out_in_the_events_token(
    s: TicketingView,
    event_id: u64,
    buyer: AccountId,
    price: i128,
)
    requires
        s.events.contains_key(event_id),
        s.events[event_id].payment_token is Some || s.payment_token is Some,
        s.events[event_id].escrow_balance > 0,
        price > 0,
    ensures
        escrow_payout(s, event_id).len() == 1,
        escrow_payout(s, event_id)[0].token == event_token(s, event_id),
        escrow_payout(s, event_id)[0].token == primary_payment(s, buyer, event_id, price)[0].token,
        escrow_payout(s, event_id)[0].from == s.contract,
        escrow_payout(s, event_id)[0].to == s.events[event_id].organizer,
        escrow_payout(s, event_id)[0].amount == s.events[event_id].escrow_balance,
{
}

/// Without a floor, any positive price within the cap may be asked: the
/// holder of a valid ticket can list it at such a price, below its face
/// value too, as long as the resale market is open.
pub proof fn without_a_floor_any_price_within_the_cap_lists(
    s: TicketingView,
    seller: AccountId,
    id: u64,
    price: i128,
    now: u64,
)
    requires
        s.tickets.contains_key(id),
        s.tickets[id].owner == seller,
        s.tickets[id].status == TicketStatus::Valid,
        s.events[s.tickets[id].event_id].min_resale_multiplier_bps is None,
        price > 0,
        price * 10_000 <= s.tickets[id].original_price * s.events[s.tickets[id].event_id].max_resale_multiplier_bps,
        now + s.events[s.tickets[id].event_id].resale_cutoff_seconds < s.events[s.tickets[id].event_id].starts_at,
    ensures
        list_for_resale_error(s, seller, id, price, now).is_none(),
{
}

/// Transfers stay frozen from `transfer_freeze_seconds` before the start
/// on, after the start too: the holder of a valid ticket is then refused
/// with `TransfersFrozen`.
pub proof fn transfers_stay_frozen_from_the_freeze_on(s: TicketingView, from: AccountId, id: u64, now: u64)
    requires
        s.tickets.contains_key(id),
        s.tickets[id].owner == from,
        s.tickets[id].status == TicketStatus::Valid,
        now + s.events[s.tickets[id].event_id].transfer_freeze_seconds >= s.events[s.tickets[id].event_id].starts_at,
    ensures
        transfer_error(s, from, id, now) == Some(Error::TransfersFrozen),
{
}

/// Steps after the first never move the entrant in the first place.
proof fn lemma_later_steps_keep_the_first_place(pool: Seq<AccountId>, draws: Seq<u64>, i: int)
    requires
        1 <= i <= draws.len(),
        pool.len() > 0,
        valid_draws(pool.len() as int, draws),
    ensures
        shuffled(pool, draws, i).len() == pool.len(),
        shuffled(pool, draws, i)[0] == pool[0],
    decreases draws.len() - i,
{
    if i < draws.len() {
        let j = i + draws[i];
        let p2 = pool.update(i, pool[j]).update(j, pool[i]);
        lemma_later_steps_keep_the_first_place(p2, draws, i + 1);
    }
}

/// The first winner is the entrant at the first offset: offset `d` picks
/// `entrants[d]`, whatever the later offsets.
pub proof fn first_winner_is_at_the_first_offset(entrants: Seq<AccountId>, draws: Seq<u64>)
    requires
        valid_draws(entrants.len() as int, draws),
        draws.len() >= 1,
    ensures
        winners_of(entrants, draws)[0] == entrants[draws[0] as int],
{
    let d = draws[0] as int;
    let p1 = entrants.update(0, entrants[d]).update(d, entrants[0]);
    assert(shuffled(entrants, draws, 0) == shuffled(p1, draws, 1));
    lemma_later_steps_keep_the_first_place(p1, draws, 1);
}

/// Every entrant can win: a one-winner draw with offset `d` below the
/// number of entrants hands the ticket to `entrants[d]`.
pub proof fn every_entrant_can_win(entrants: Seq<AccountId>, d: u64)
    requires
        d < entrants.len(),
    ensures
        winners_of(entrants, seq![d]) == seq![entrants[d as int]],
{
    let draws = seq![d];
    first_winner_is_at_the_first_offset(entrants, draws);
    let p1 = entrants.update(0, entrants[d as int]).update(d as int, entrants[0]);
    assert(shuffled(entrants, draws, 0) == shuffled(p1, draws, 1));
    assert(shuffled(p1, draws, 1) == p1);
    assert(winners_of(entrants, draws) =~= seq![entrants[d as int]]);
}

} // verus!

//! Batch check-in, revocation and transfer: the single operation applied to
//! each ticket in turn, all or nothing.
use vstd::prelude::*;
use crate::error::Error;
use crate::types::{AccountId, TicketStatus};
use super::{keeps_history, Ticketing, TicketingView};
use super::tickets::{batch_size_error, check_in_error, retired, transfer_error, transferred, with_ticket_unclaimed};

verus! {

/// The operation a batch applies to each of its tickets.
#[derive(Clone, Copy, Debug, PartialEq, Eq, Structural)]
pub enum BatchOp {
    CheckIn,
    Revoke,
    Transfer { to: AccountId, now: u64 },
}

/// One ticket's step of a batch by `caller`: the storage after it, or why
/// it is refused.
pub open spec fn batch_step(s: TicketingView, op: BatchOp, caller: AccountId, id: u64) -> Result<
    TicketingView,
    Error,
> {
    match op {
        BatchOp::CheckIn => match check_in_error(s, caller, id) {
            Some(e) => Err(e),
            None => Ok(with_ticket_unclaimed(s, id, retired(s.tickets[id], TicketStatus::Used))),
        },
        BatchOp::Revoke => match check_in_error(s, caller, id) {
            Some(e) => Err(e),
            None => Ok(with_ticket_unclaimed(s, id, retired(s.tickets[id], TicketStatus::Revoked))),
        },
        BatchOp::Transfer { to, now } => match transfer_error(s, caller, id, now) {
            Some(e) => Err(e),
            None => Ok(with_ticket_unclaimed(s, id, transferred(s.tickets[id], to))),
        },
    }
}

/// The steps of a batch over `ids`, in order: the storage after all of
/// them, or the refusal of the first step that is refused.
pub open spec fn batch_all(s: TicketingView, op: BatchOp, caller: AccountId, ids: Seq<u64>) -> Result<
    TicketingView,
    Error,
>
    decreases ids.len(),
{
    if ids.len() == 0 {
        Ok(s)
    } else {
        match batch_step(s, op, caller, ids[0]) {
            Err(e) => Err(e),
            Ok(s2) => batch_all(s2, op, caller, ids.drop_first()),
        }
    }
}

/// What a batch over `ids` comes to: refused for its size, or the outcome
/// of its steps.
pub open spec fn batch_outcome(s: TicketingView, op: BatchOp, caller: AccountId, ids: Seq<u64>) -> Result<
    TicketingView,
    Error,
> {
    match batch_size_error(ids.len() as int) {
        Some(e) => Err(e),
        None => batch_all(s, op, caller, ids),
    }
}

impl Ticketing {
    /// Applies `op` by `caller` to each ticket of `ticket_ids` in turn; if
    /// one step is refused, nothing changes.
    fn run_batch(&mut self, op: BatchOp, caller: AccountId, ticket_ids: &Vec<u64>) -> (r: Result<
        (),
        Error,
    >)
        requires
            old(self)@.wf(),
        ensures
            final(self)@.wf(),
            keeps_history(old(self)@, final(self)@),
            match batch_outcome(old(self)@, op, caller, ticket_ids@) {
                Err(e) => r == Err::<(), Error>(e) && final(self)@ == old(self)@,
                Ok(s2) => r is Ok && final(self)@ == s2,
            },
    {
        let n = ticket_ids.len();
        if n == 0 {
            return Err(Error::EmptyBatch);
        }
        if n > crate::constants::MAX_BATCH_SIZE as usize {
            return Err(Error::BatchTooLarge);
        }
        let ghost s0 = self@;
        let saved_tickets = self.tickets.clone();
        let saved_claims = self.gift_claims.clone();
        let mut i: usize = 0;
        proof {
            super::lemma_keeps_history_chains(s0, s0, s0);
            assert(ticket_ids@.skip(0) =~= ticket_ids@);
        }
        while i < n
            invariant
                n == ticket_ids@.len(),
                0 < n <= crate::constants::MAX_BATCH_SIZE,
                i <= n,
                s0 == old(self)@,
                s0.wf(),
                self@.wf(),
                keeps_history(s0, self@),
                batch_all(s0, op, caller, ticket_ids@) == batch_all(
                    self@,
                    op,
                    caller,
                    ticket_ids@.skip(i as int),
                ),
                self@ == (TicketingView {
                    tickets: self@.tickets,
                    gift_claims: self@.gift_claims,
                    ..s0
                }),
                saved_tickets@ == s0.tickets,
                saved_claims@ == s0.gift_claims,
            decreases n - i,
        {
            let id = ticket_ids[i];
            proof {
                assert(ticket_ids@.skip(i as int)[0] == id);
                assert(ticket_ids@.skip(i as int).drop_first() =~= ticket_ids@.skip(i + 1));
            }
            let ghost before = self@;
            let step = match op {
                BatchOp::CheckIn => match self.check_in(caller, id) {
                    Ok(_) => Ok(()),
                    Err(e) => Err(e),
                },
                BatchOp::Revoke => self.revoke_ticket(caller, id),
                BatchOp::Transfer { to, now } => self.transfer_ticket(caller, id, to, now),
            };
            match step {
                Err(e) => {
                    proof {
                        assert(batch_step(before, op, caller, id) == Err::<TicketingView, Error>(e));
                        assert(batch_all(before, op, caller, ticket_ids@.skip(i as int)) == Err::<
                            TicketingView,
                            Error,
                        >(e));
                    }
                    self.tickets = saved_tickets;
                    self.gift_claims = saved_claims;
                    proof {
                        assert(self@.tickets == s0.tickets);
                        assert(self@.gift_claims == s0.gift_claims);
                        assert(self@ == s0);
                    }
                    return Err(e);
                },
                Ok(()) => {
                    proof {
                        super::lemma_keeps_history_chains(s0, before, self@);
                    }
                },
            }
            i = i + 1;
        }
        proof {
            assert(ticket_ids@.skip(n as int).len() == 0);
        }
        Ok(())
    }

    /// Checks in every ticket of `ticket_ids`, as `check_in` does, all or
    /// nothing.  Refused for an empty batch or one above the batch limit.
    pub fn check_in_batch(&mut self, organizer: AccountId, ticket_ids: &Vec<u64>) -> (r: Result<
        (),
        Error,
    >)
        requires
            old(self)@.wf(),
        ensures
            final(self)@.wf(),
            keeps_history(old(self)@, final(self)@),
            match batch_outcome(old(self)@, BatchOp::CheckIn, organizer, ticket_ids@) {
                Err(e) => r == Err::<(), Error>(e) && final(self)@ == old(self)@,
                Ok(s2) => r is Ok && final(self)@ == s2,
            },
    {
        self.run_batch(BatchOp::CheckIn, organizer, ticket_ids)
    }

    /// Revokes every ticket of `ticket_ids`, as `revoke_ticket` does, all or
    /// nothing.  Refused for an empty batch or one above the batch limit.
    pub fn revoke_batch(&mut self, organizer: AccountId, ticket_ids: &Vec<u64>) -> (r: Result<
        (),
        Error,
    >)
        requires
            old(self)@.wf(),
        ensures
            final(self)@.wf(),
            keeps_history(old(self)@, final(self)@),
            match batch_outcome(old(self)@, BatchOp::Revoke, organizer, ticket_ids@) {
                Err(e) => r == Err::<(), Error>(e) && final(self)@ == old(self)@,
                Ok(s2) => r is Ok && final(self)@ == s2,
            },
    {
        self.run_batch(BatchOp::Revoke, organizer, ticket_ids)
    }

    /// Transfers every ticket of `ticket_ids` from `from` to `to` at ledger
    /// time `now`, as `transfer_ticket` does, all or nothing.  Refused for
    /// an empty batch or one above the batch limit.
    pub fn transfer_batch(
        &mut self,
        from: AccountId,
        ticket_ids: &Vec<u64>,
        to: AccountId,
        now: u64,
    ) -> (r: Result<(), Error>)
        requires
            old(self)@.wf(),
        ensures
            final(self)@.wf(),
            keeps_history(old(self)@, final(self)@),
            match batch_outcome(old(self)@, BatchOp::Transfer { to, now }, from, ticket_ids@) {
                Err(e) => r == Err::<(), Error>(e) && final(self)@ == old(self)@,
                Ok(s2) => r is Ok && final(self)@ == s2,
            },
    {
        self.run_batch(BatchOp::Transfer { to, now }, from, ticket_ids)
    }
}

} // verus!

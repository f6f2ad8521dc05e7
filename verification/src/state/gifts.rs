//! Gifting a ticket: the holder leaves a claim locked by the hash of a
//! secret, and whoever presents the secret before expiry receives the ticket.
use vstd::prelude::*;
use soroban_sdk::Env;
use crate::error::Error;
use crate::host::{host_sha256, sha256_digest};
use crate::types::{AccountId, GiftClaim, Ticket, TicketStatus};
use super::{keeps_history, Ticketing, TicketingView};
use super::tickets::{lemma_wf_ticket_update, ticket_owner_error, with_ticket_unclaimed};
use super::resale::unlisted;

verus! {

/// Why `owner` cannot leave a gift claim on ticket `id` expiring at
/// `expires_at`, at time `now`, if it cannot.
pub open spec fn create_gift_claim_error(
    s: TicketingView,
    owner: AccountId,
    id: u64,
    expires_at: u64,
    now: u64,
) -> Option<Error> {
    if ticket_owner_error(s, owner, id).is_some() {
        ticket_owner_error(s, owner, id)
    } else if expires_at <= now {
        Some(Error::InvalidExpiry)
    } else {
        None
    }
}

/// The storage with a gift claim on ticket `id` stored and a resale listing
/// of it withdrawn.
pub open spec fn with_gift_claim(s: TicketingView, id: u64, claim: GiftClaim) -> TicketingView {
    TicketingView {
        tickets: s.tickets.insert(id, unlisted(s.tickets[id])),
        gift_claims: s.gift_claims.insert(id, claim),
        ..s
    }
}

/// Why claiming the gift of ticket `id` with a secret whose digest is
/// `digest`, at time `now`, is refused, if it is.
pub open spec fn claim_gift_error(s: TicketingView, id: u64, digest: Seq<u8>, now: u64) -> Option<
    Error,
> {
    if !s.gift_claims.contains_key(id) {
        Some(Error::GiftClaimNotFound)
    } else if now >= s.gift_claims[id].expires_at {
        Some(Error::GiftClaimExpired)
    } else if digest != s.gift_claims[id].secret_hash@ {
        Some(Error::InvalidSecret)
    } else {
        None
    }
}

/// Whether two 32-byte values are equal.
fn same_bytes(a: &[u8; 32], b: &[u8; 32]) -> (r: bool)
    ensures
        r == (a@ == b@),
{
    let mut i: usize = 0;
    while i < 32
        invariant
            i <= 32,
            a@.len() == 32,
            b@.len() == 32,
            forall|j: int| 0 <= j < i ==> a@[j] == b@[j],
        decreases 32 - i,
    {
        if a[i] != b[i] {
            return false;
        }
        i = i + 1;
    }
    assert(a@ =~= b@);
    true
}

impl Ticketing {
    /// `owner` leaves a claim on ticket `ticket_id` that whoever presents
    /// the secret hashing to `secret_hash` may redeem before `expires_at`.
    /// A resale listing of the ticket is withdrawn; an earlier claim is
    /// replaced.
    pub fn create_gift_claim(
        &mut self,
        owner: AccountId,
        ticket_id: u64,
        secret_hash: [u8; 32],
        expires_at: u64,
        now: u64,
    ) -> (r: Result<(), Error>)
        requires
            old(self)@.wf(),
        ensures
            final(self)@.wf(),
            keeps_history(old(self)@, final(self)@),
            match create_gift_claim_error(old(self)@, owner, ticket_id, expires_at, now) {
                Some(e) => r == Err::<(), Error>(e) && final(self)@ == old(self)@,
                None => r is Ok && final(self)@ == with_gift_claim(
                    old(self)@,
                    ticket_id,
                    GiftClaim { from: owner, secret_hash, expires_at },
                ),
            },
    {
        match self.tickets.get(&ticket_id) {
            None => { return Err(Error::TicketNotFound); },
            Some(t) => {
                if t.owner != owner {
                    return Err(Error::NotOwner);
                }
                if t.status == TicketStatus::Revoked {
                    return Err(Error::Revoked);
                }
                if t.status == TicketStatus::Used {
                    return Err(Error::AlreadyUsed);
                }
                if expires_at <= now {
                    return Err(Error::InvalidExpiry);
                }
            },
        }
        let t = self.tickets.remove(&ticket_id).unwrap();
        let new_t = Ticket { status: TicketStatus::Valid, resale_price: 0, ..t };
        let claim = GiftClaim { from: owner, secret_hash, expires_at };
        proof {
            lemma_wf_ticket_update(old(self)@, ticket_id, new_t, false);
        }
        self.tickets.insert(ticket_id, new_t);
        self.gift_claims.insert(ticket_id, claim);
        proof {
            let s = self@;
            let u = with_ticket_unclaimed(old(self)@, ticket_id, new_t);
            assert(s.tickets =~= u.tickets);
            assert(s.gift_claims =~= u.gift_claims.insert(ticket_id, claim));
            assert forall|k: u64| #[trigger] s.gift_claims.contains_key(k) implies {
                &&& s.tickets.contains_key(k)
                &&& s.tickets[k].status == TicketStatus::Valid
                &&& s.gift_claims[k].from == s.tickets[k].owner
            } by {
                if k != ticket_id {
                    assert(u.gift_claims.contains_key(k));
                }
            }
            assert(s.tickets =~= with_gift_claim(old(self)@, ticket_id, claim).tickets);
        }
        Ok(())
    }

    /// `recipient` redeems the gift claim on ticket `ticket_id` with a secret
    /// whose SHA-256 digest is `digest`, at time `now`, and becomes the
    /// holder.
    pub fn claim_gift_with_digest(
        &mut self,
        recipient: AccountId,
        ticket_id: u64,
        digest: [u8; 32],
        now: u64,
    ) -> (r: Result<(), Error>)
        requires
            old(self)@.wf(),
        ensures
            final(self)@.wf(),
            keeps_history(old(self)@, final(self)@),
            match claim_gift_error(old(self)@, ticket_id, digest@, now) {
                Some(e) => r == Err::<(), Error>(e) && final(self)@ == old(self)@,
                None => r is Ok && final(self)@ == with_ticket_unclaimed(
                    old(self)@,
                    ticket_id,
                    Ticket { owner: recipient, ..old(self)@.tickets[ticket_id] },
                ),
            },
    {
        match self.gift_claims.get(&ticket_id) {
            None => { return Err(Error::GiftClaimNotFound); },
            Some(claim) => {
                if now >= claim.expires_at {
                    return Err(Error::GiftClaimExpired);
                }
                if !same_bytes(&digest, &claim.secret_hash) {
                    return Err(Error::InvalidSecret);
                }
            },
        }
        let t = self.tickets.remove(&ticket_id).unwrap();
        let new_t = Ticket { owner: recipient, ..t };
        proof {
            lemma_wf_ticket_update(old(self)@, ticket_id, new_t, false);
        }
        self.tickets.insert(ticket_id, new_t);
        self.gift_claims.remove(&ticket_id);
        proof {
            assert(self@.tickets =~= old(self)@.tickets.insert(ticket_id, new_t));
        }
        Ok(())
    }

    /// `recipient` redeems the gift claim on ticket `ticket_id` by presenting
    /// `secret`, at time `now`; the host hashes the secret.
    pub fn claim_gift(
        &mut self,
        env: &Env,
        recipient: AccountId,
        ticket_id: u64,
        secret: &[u8],
        now: u64,
    ) -> (r: Result<(), Error>)
        requires
            old(self)@.wf(),
        ensures
            final(self)@.wf(),
            keeps_history(old(self)@, final(self)@),
            match claim_gift_error(old(self)@, ticket_id, sha256_digest(secret@), now) {
                Some(e) => r == Err::<(), Error>(e) && final(self)@ == old(self)@,
                None => r is Ok && final(self)@ == with_ticket_unclaimed(
                    old(self)@,
                    ticket_id,
                    Ticket { owner: recipient, ..old(self)@.tickets[ticket_id] },
                ),
            },
    {
        let digest = host_sha256(env, secret);
        self.claim_gift_with_digest(recipient, ticket_id, digest, now)
    }
}

} // verus!

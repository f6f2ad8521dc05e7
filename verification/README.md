# ticketing

The rules of an event-ticketing contract on a Soroban ledger, as a Verus-verified
state machine: organizers create events and mint tickets, buyers purchase them,
holders transfer, gift or resell them under an anti-scalping cap with an
organizer royalty, gates check them in, and primary proceeds can be held in
escrow until after the event.  An admin controls the contract-wide payment token
behind a timelock.

Accounts and token contracts are `u64` handles; the ledger's timestamp and
sequence number are passed in; token transfers are returned as `Payment`
records for the caller to carry out; `snapshot` and `settle` make an
operation all or nothing: if the token refuses a transfer, the storage goes
back to the snapshot taken before it.  SHA-256 of gift secrets comes from the
Soroban host through `soroban_sdk::Env`; the lottery takes its random offsets
as an argument, drawn by the caller from the ledger's generator
(`Prng::gen_range`) while the contract runs, since the host serves the
generator only inside a contract invocation.

The library takes the account arguments that name who acts (the admin, an
organizer, a ticket holder, a buyer) as already authenticated: the caller must
require their authorization (`Address::require_auth`) before calling in.

Layout:

- `src/state.rs` — the storage (`Ticketing`), its abstract view and invariant;
  `src/state/` holds the operations, one family per file.
- `src/pricing.rs` — exact basis-point arithmetic of caps, floors and royalties.
- `src/lottery.rs` — the winner draw.
- `src/laws.rs` — properties that span operations.
- `src/host.rs` — the call into the Soroban host.
- `src/budget.rs` — the cost budget one invocation must stay within.
- `src/token_doubles.rs` — misbehaving token contracts for tests.
- `tests/` — scenarios; `app/` — a command-line client driving a deployed
  contract through the `stellar` CLI.

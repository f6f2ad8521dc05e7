use ticketing::error::Error;
use ticketing::state::Ticketing;
use ticketing::token_doubles::{FailingToken, MaliciousReentrantToken};
use ticketing::types::{AccountId, TokenFailure};

const CONTRACT: AccountId = 1;
const TOKEN: AccountId = 2;
const ADMIN: AccountId = 3;
const ORGANIZER: AccountId = 4;
const FAILING_TOKEN: AccountId = 5;
const MALICIOUS_TOKEN: AccountId = 6;
const SAC_DECIMALS: Option<u32> = Some(7);

fn setup() -> Ticketing {
    let mut s = Ticketing::new(CONTRACT);
    s.initialize(ADMIN, TOKEN, SAC_DECIMALS).unwrap();
    s
}

fn make_event(s: &mut Ticketing, organizer: AccountId, event_id: u64) {
    s.create_event(
        organizer,
        event_id,
        String::from("Radiohead Live"),
        String::from("concert"),
        12_000,
        500,
        10_000,
        100,
        200,
        0,
    )
    .unwrap();
}

fn buy(s: &mut Ticketing, buyer: AccountId, seat: &str, price: i128, ledger: u32) -> Result<u64, Error> {
    s.purchase_primary(buyer, 1, String::from("GA"), String::from(seat), price, ledger)
        .map(|(issued, _payments)| issued.ticket_id)
}

#[test]
fn auth_initialize_rejects_a_second_call() {
    let mut s = setup();
    let second_token = 50;
    let result = s.initialize(ADMIN, second_token, SAC_DECIMALS);
    assert_eq!(result, Err(Error::AlreadyInitialized));
}

#[test]
fn payment_token_propose_and_apply_flow() {
    let mut s = setup();
    let new_token_addr = 51;

    s.propose_payment_token(ADMIN, new_token_addr, SAC_DECIMALS, 0).unwrap();

    // Cannot apply before delay elapses
    let early_apply = s.apply_payment_token(ADMIN, SAC_DECIMALS, 0);
    assert_eq!(early_apply, Err(Error::TimelockNotElapsed));

    // Past the delay
    s.apply_payment_token(ADMIN, SAC_DECIMALS, 100_000).unwrap();
}

#[test]
fn apply_payment_token_rejects_without_proposal() {
    let mut s = setup();
    let result = s.apply_payment_token(ADMIN, SAC_DECIMALS, 0);
    assert_eq!(result, Err(Error::NoPendingPaymentToken));
}

#[test]
fn auth_purchase_throttle_rejects_rapid_repeat_purchases() {
    let mut s = setup();
    make_event(&mut s, ORGANIZER, 1);
    s.set_purchase_throttle(ADMIN, 10).unwrap();

    let buyer = 60;
    buy(&mut s, buyer, "1", 1_000, 100).unwrap();

    // Second purchase within 10 ledgers must be throttled.  The error for a
    // purchase inside the spacing window is `PurchaseTooSoon`, the one the
    // same scenario in tests/contract.rs expects; `Error` has no separate
    // throttle variant.
    let throttled = buy(&mut s, buyer, "2", 1_000, 105);
    assert_eq!(throttled, Err(Error::PurchaseTooSoon));
}

#[test]
fn auth_purchase_throttle_allows_purchase_after_spacing_elapses() {
    let mut s = setup();
    make_event(&mut s, ORGANIZER, 1);
    s.set_purchase_throttle(ADMIN, 10).unwrap();

    let buyer = 60;
    buy(&mut s, buyer, "1", 1_000, 100).unwrap();

    let ok = buy(&mut s, buyer, "2", 1_000, 111);
    assert!(ok.is_ok());
}

#[test]
fn auth_set_purchase_throttle_rejects_a_non_admin_caller() {
    let mut s = setup();
    let result = s.set_purchase_throttle(ORGANIZER, 10);
    assert_eq!(result, Err(Error::NotAdmin));
}

#[test]
fn auth_purchase_primary_leaves_no_partial_state_when_token_transfer_fails() {
    let mut s = setup();
    make_event(&mut s, ORGANIZER, 1);

    let failing_token = FailingToken;
    s.set_event_payment_token(ORGANIZER, 1, Some(FAILING_TOKEN), Some(failing_token.decimals()))
        .unwrap();

    let buyer = 60;
    let event_before = s.get_event(1).unwrap().clone();

    // The invocation commits its storage only if every transfer goes through.
    let before = s.snapshot();
    let (_, payments) = s
        .purchase_primary(buyer, 1, String::from("GA"), String::from("1"), 1_000, 0)
        .unwrap();
    let outcome: Result<(), TokenFailure> =
        payments.iter().try_for_each(|p| failing_token.transfer(p.from, p.to, p.amount));
    let result = s.settle(before, outcome);
    assert!(result.is_err(), "expected purchase_primary to fail when the token transfer fails");

    let event_after = s.get_event(1).unwrap();
    assert_eq!(event_before, *event_after, "event state must be unchanged after a failed token transfer");
    assert!(s.get_ticket(0).is_err(), "no ticket should have been minted when the token transfer failed");
}

#[test]
fn test_purchase_primary_leaves_no_partial_state_when_token_transfer_fails() {
    let mut s = setup();
    make_event(&mut s, ORGANIZER, 1);

    let failing_token = FailingToken;
    s.set_event_payment_token(ORGANIZER, 1, Some(FAILING_TOKEN), Some(failing_token.decimals()))
        .unwrap();

    let buyer = 60;
    let event_before = s.get_event(1).unwrap().clone();

    let before = s.snapshot();
    let (_, payments) = s
        .purchase_primary(buyer, 1, String::from("GA"), String::from("1"), 1_000, 0)
        .unwrap();
    let outcome: Result<(), TokenFailure> =
        payments.iter().try_for_each(|p| failing_token.transfer(p.from, p.to, p.amount));
    let result = s.settle(before, outcome);
    assert!(result.is_err(), "expected purchase_primary to fail when the token transfer fails");

    // The transfer happens before the ticket is minted and before
    // `tickets_issued` is incremented in the committed storage.
    let event_after = s.get_event(1).unwrap();
    assert_eq!(event_before, *event_after, "event state must be unchanged after a failed token transfer");
    assert!(s.get_ticket(0).is_err(), "no ticket should have been minted when the token transfer failed");
}

#[test]
fn malicious_token_reentrancy_fails_safely_and_preserves_state() {
    let mut s = setup();
    make_event(&mut s, ORGANIZER, 1);

    let mut token = MaliciousReentrantToken::new();
    token.set_target(CONTRACT);

    s.set_event_payment_token(ORGANIZER, 1, Some(MALICIOUS_TOKEN), Some(token.decimals()))
        .unwrap();

    let buyer = 60;
    let event_before = s.get_event(1).unwrap().clone();

    let (_, payments) = s
        .purchase_primary(buyer, 1, String::from("GA"), String::from("1"), 1_000, 0)
        .unwrap();
    for p in &payments {
        let call = token.transfer(p.from, p.to, p.amount).unwrap();
        // The host refuses to re-enter the contract that is being run, so the
        // call back fails and changes nothing.
        assert_eq!(call.contract, CONTRACT);
        assert_eq!(call.buyer, buyer);
        assert_eq!(call.seat, "reentrant");
    }

    // tickets_issued accurately reflects the final state
    let event_after = s.get_event(1).unwrap();
    assert!(event_after.tickets_issued <= event_before.tickets_issued + 1);
}

use soroban_sdk::testutils::{Address as _, EnvTestConfig};
use soroban_sdk::{Address, Bytes, Env};
use ticketing::budget::{check_cost_thresholds, CostLimitExceeded, CPU_INSTRUCTION_COST_LIMIT, MEMORY_BYTES_COST_LIMIT};
use ticketing::constants::{MAX_BATCH_SIZE, PAYMENT_TOKEN_CHANGE_DELAY_LEDGERS};
use ticketing::error::Error;
use ticketing::lottery::draw_winners;
use ticketing::pricing::{resale_cap_allows, resale_floor_allows, split_resale_price};
use ticketing::state::Ticketing;
use ticketing::token_doubles::FailingToken;
use ticketing::types::{AccountId, Payment, TicketStatus, TokenFailure};

const CONTRACT: AccountId = 1;
const TOKEN: AccountId = 2;
const ADMIN: AccountId = 3;
const ORGANIZER: AccountId = 4;
const HOLDER: AccountId = 20;
const FRIEND: AccountId = 21;

fn setup() -> Ticketing {
    let mut s = Ticketing::new(CONTRACT);
    s.initialize(ADMIN, TOKEN, Some(7)).unwrap();
    s.create_event(
        ORGANIZER,
        1,
        String::from("Radiohead Live"),
        String::from("concert"),
        12_000,
        500,
        10_000,
        100,
        200,
        0,
    )
    .unwrap();
    s
}

fn issue(s: &mut Ticketing, to: AccountId, price: i128) -> u64 {
    s.issue_ticket(ORGANIZER, 1, to, String::from("GA"), String::from("unassigned"), price)
        .unwrap()
        .ticket_id
}

#[test]
fn error_codes_match_the_contract_numbering() {
    assert_eq!(Error::AlreadyInitialized.code(), 1);
    assert_eq!(Error::NotOwner.code(), 7);
    assert_eq!(Error::PurchaseTooSoon.code(), 16);
    assert_eq!(Error::TicketsAlreadyIssued.code(), 32);
    assert_eq!(Error::ResalePriceBelowFloor.code(), 33);
    assert_eq!(Error::TransferLimitExceeded.code(), 34);
}

#[test]
fn resale_cap_is_exact_at_the_boundary() {
    assert!(resale_cap_allows(1_000, 1_200, 12_000));
    assert!(!resale_cap_allows(1_000, 1_201, 12_000));
    // 33.33% of 3 is exactly 0.9999: nothing above 0 fits.
    assert!(resale_cap_allows(3, 0, 3_333));
    assert!(!resale_cap_allows(3, 1, 3_333));
    // 150% of 7 is 10.5: 10 fits, 11 does not.
    assert!(resale_cap_allows(7, 10, 15_000));
    assert!(!resale_cap_allows(7, 11, 15_000));
}

#[test]
fn resale_cap_handles_prices_near_the_top_of_the_range() {
    // Twice the largest price is beyond every price: always within the cap.
    assert!(resale_cap_allows(i128::MAX, i128::MAX, 20_000));
    // The largest price against a cap of 10% of a small face value.
    assert!(!resale_cap_allows(1_000, i128::MAX, 1_000));
    // Exactly face value of the largest price under a 100% cap.
    assert!(resale_cap_allows(i128::MAX, i128::MAX, 10_000));
    assert!(!resale_cap_allows(i128::MAX - 1, i128::MAX, 10_000));
}

#[test]
fn resale_floor_is_in_thousandths_and_rounds_up() {
    assert!(!resale_floor_allows(1_000, 1_099, 1_100));
    assert!(resale_floor_allows(1_000, 1_100, 1_100));
    // 110% of 7 is 7.7: 7 is below, 8 meets it.
    assert!(!resale_floor_allows(7, 7, 1_100));
    assert!(resale_floor_allows(7, 8, 1_100));
    // A floor beyond every price can never be met.
    assert!(!resale_floor_allows(i128::MAX, i128::MAX, 2_000));
    assert!(resale_floor_allows(i128::MAX, i128::MAX, 1_000));
}

#[test]
fn royalty_split_rounds_the_royalty_down() {
    assert_eq!(split_resale_price(1_100, 500), (55, 1_045));
    assert_eq!(split_resale_price(2_000_000_000, 500), (100_000_000, 1_900_000_000));
    assert_eq!(split_resale_price(19, 500), (0, 19));
    assert_eq!(split_resale_price(1_999, 333), (66, 1_933));
    assert_eq!(split_resale_price(i128::MAX, 10_000), (i128::MAX, 0));
    assert_eq!(split_resale_price(i128::MAX, 0), (0, i128::MAX));
}

#[test]
fn lottery_draw_follows_the_offsets() {
    // Step 0 swaps places 0 and 2, step 1 keeps place 1.
    assert_eq!(draw_winners(&vec![10, 20, 30], &vec![2, 0]), vec![30, 20]);
    // Step 0 keeps place 0, step 1 swaps places 1 and 2.
    assert_eq!(draw_winners(&vec![10, 20, 30], &vec![0, 1]), vec![10, 30]);
    assert_eq!(draw_winners(&vec![10, 20, 30], &vec![]), Vec::<u64>::new());
}

#[test]
fn lottery_can_hand_every_entrant_a_ticket() {
    let mut s = setup();
    let env = Env::new_with_config(EnvTestConfig { capture_snapshot_at_drop: false });
    let contract = env.register_stellar_asset_contract_v2(Address::generate(&env)).address();
    let entrants = vec![30, 31, 32, 33];
    let draws: Vec<u64> = env.as_contract(&contract, || {
        (0..4u64).map(|i| env.prng().gen_range::<u64>(0..4 - i)).collect()
    });
    let ids = s
        .allocate_lottery_with_draws(ORGANIZER, 1, &entrants, 4, &draws, String::from("Lottery"), 250)
        .unwrap();
    assert_eq!(ids, vec![0, 1, 2, 3]);
    let mut owners: Vec<AccountId> = ids.iter().map(|id| s.verify_ticket(*id).unwrap().owner).collect();
    owners.sort();
    assert_eq!(owners, entrants);
    let t = s.verify_ticket(0).unwrap();
    assert_eq!(t.tier, "Lottery");
    assert_eq!(t.seat, "unassigned");
    assert_eq!(t.original_price, 250);
    assert_eq!(s.get_event(1).unwrap().tickets_issued, 4);
}

#[test]
fn lottery_mints_to_the_drawn_entrants() {
    let mut s = setup();
    let entrants = vec![30, 31, 32];
    let ids = s
        .allocate_lottery_with_draws(ORGANIZER, 1, &entrants, 2, &vec![2, 0], String::from("L"), 0)
        .unwrap();
    assert_eq!(ids, vec![0, 1]);
    assert_eq!(s.verify_ticket(0).unwrap().owner, 32);
    assert_eq!(s.verify_ticket(1).unwrap().owner, 31);
}

#[test]
fn lottery_refuses_a_negative_price_and_a_stranger() {
    let mut s = setup();
    let entrants = vec![30, 31];
    let draws = vec![1];
    assert_eq!(
        s.allocate_lottery_with_draws(ORGANIZER, 1, &entrants, 1, &draws, String::from("L"), -1),
        Err(Error::InvalidPrice)
    );
    assert_eq!(
        s.allocate_lottery_with_draws(HOLDER, 1, &entrants, 1, &draws, String::from("L"), 0),
        Err(Error::NotOrganizer)
    );
    assert_eq!(
        s.allocate_lottery_with_draws(ORGANIZER, 9, &entrants, 1, &draws, String::from("L"), 0),
        Err(Error::EventNotFound)
    );
    assert_eq!(s.get_event(1).unwrap().tickets_issued, 0);
}

#[test]
fn cost_thresholds_are_exclusive() {
    assert_eq!(check_cost_thresholds(0, 0), Ok(()));
    assert_eq!(check_cost_thresholds(9_999_999, 999_999), Ok(()));
    assert_eq!(
        check_cost_thresholds(10_000_000, 0),
        Err(CostLimitExceeded::CpuInstructions { cost: 10_000_000, limit: 10_000_000 })
    );
    assert_eq!(
        check_cost_thresholds(0, 1_000_000),
        Err(CostLimitExceeded::MemoryBytes { cost: 1_000_000, limit: 1_000_000 })
    );
    // Both over: the CPU limit is named.
    assert_eq!(
        check_cost_thresholds(12_000_000, 2_000_000),
        Err(CostLimitExceeded::CpuInstructions { cost: 12_000_000, limit: CPU_INSTRUCTION_COST_LIMIT })
    );
    assert_eq!(MEMORY_BYTES_COST_LIMIT, 1_000_000);
}

#[test]
fn tickets_issued_counts_every_way_of_minting() {
    let mut s = setup();
    issue(&mut s, HOLDER, 1_000);
    s.purchase_primary(FRIEND, 1, String::from("GA"), String::from("x"), 0, 0).unwrap();
    issue(&mut s, HOLDER, 0);
    assert_eq!(s.get_event(1).unwrap().tickets_issued, 3);
    assert!(s.get_ticket(2).is_ok());
    assert!(s.get_ticket(3).is_err());
}

#[test]
fn uninitialized_contract_reports_not_initialized() {
    let mut s = Ticketing::new(CONTRACT);
    assert_eq!(s.token_decimals(), Err(Error::NotInitialized));
    assert_eq!(s.set_purchase_throttle(ADMIN, 5), Err(Error::NotInitialized));
    assert_eq!(s.propose_payment_token(ADMIN, 9, Some(7), 0), Err(Error::NotInitialized));
    s.create_event(ORGANIZER, 1, String::from("E"), String::from("c"), 12_000, 500, 10, 0, 0, 0)
        .unwrap();
    assert_eq!(s.event_payment_token(1), Err(Error::NotInitialized));
    assert_eq!(
        s.purchase_primary(HOLDER, 1, String::from("GA"), String::from("x"), 10, 0),
        Err(Error::NotInitialized)
    );
    assert_eq!(s.pending_payment_token(), None);
}

#[test]
fn events_must_start_in_the_future() {
    let mut s = setup();
    let r = s.create_event(ORGANIZER, 2, String::from("E"), String::from("c"), 12_000, 500, 50, 0, 0, 50);
    assert_eq!(r, Err(Error::InvalidEventTime));
    let r = s.create_event(ORGANIZER, 2, String::from("E"), String::from("c"), 12_000, 500, 51, 0, 0, 50);
    assert_eq!(r, Ok(()));
}

#[test]
fn gift_claims_must_expire_in_the_future() {
    let mut s = setup();
    let t = issue(&mut s, HOLDER, 100);
    assert_eq!(s.create_gift_claim(HOLDER, t, [0u8; 32], 10, 10), Err(Error::InvalidExpiry));
    assert_eq!(s.create_gift_claim(FRIEND, t, [0u8; 32], 11, 10), Err(Error::NotOwner));
    assert_eq!(s.create_gift_claim(HOLDER, t, [0u8; 32], 11, 10), Ok(()));
}

#[test]
fn claim_gift_hashes_the_secret_with_the_host() {
    let mut s = setup();
    let env = Env::new_with_config(EnvTestConfig { capture_snapshot_at_drop: false });
    let t = issue(&mut s, HOLDER, 100);
    let digest = env.crypto().sha256(&Bytes::from_slice(&env, b"open sesame")).to_array();
    s.create_gift_claim(HOLDER, t, digest, 1_000, 0).unwrap();
    // The secret itself is not its own digest.
    let mut raw = [0u8; 32];
    raw[..11].copy_from_slice(b"open sesame");
    assert_eq!(s.claim_gift_with_digest(FRIEND, t, raw, 0), Err(Error::InvalidSecret));
    assert_eq!(s.claim_gift(&env, FRIEND, t, b"open sesame", 999), Ok(()));
    assert_eq!(s.verify_ticket(t).unwrap().owner, FRIEND);
}

#[test]
fn check_in_is_final() {
    let mut s = setup();
    let t = issue(&mut s, HOLDER, 100);
    s.check_in(ORGANIZER, t).unwrap();
    assert_eq!(s.revoke_ticket(ORGANIZER, t), Err(Error::AlreadyUsed));
    assert_eq!(s.transfer_ticket(HOLDER, t, FRIEND, 0), Err(Error::AlreadyUsed));
    assert_eq!(s.list_for_resale(HOLDER, t, 100, 0), Err(Error::AlreadyUsed));
    assert_eq!(s.create_gift_claim(HOLDER, t, [0u8; 32], 9, 0), Err(Error::AlreadyUsed));
    assert_eq!(s.verify_ticket(t).unwrap().status, TicketStatus::Used);
}

#[test]
fn revocation_is_final() {
    let mut s = setup();
    let t = issue(&mut s, HOLDER, 100);
    s.revoke_ticket(ORGANIZER, t).unwrap();
    assert_eq!(s.revoke_ticket(ORGANIZER, t), Err(Error::Revoked));
    assert_eq!(s.check_in(ORGANIZER, t), Err(Error::Revoked));
    assert_eq!(s.create_gift_claim(HOLDER, t, [0u8; 32], 9, 0), Err(Error::Revoked));
    assert_eq!(s.verify_ticket(t).unwrap().status, TicketStatus::Revoked);
}

#[test]
fn checking_in_a_listed_ticket_withdraws_the_listing() {
    let mut s = setup();
    let t = issue(&mut s, HOLDER, 100);
    s.list_for_resale(HOLDER, t, 110, 0).unwrap();
    let checked = s.check_in(ORGANIZER, t).unwrap();
    assert_eq!(checked.ticket_id, t);
    assert_eq!(checked.organizer, ORGANIZER);
    let ticket = s.verify_ticket(t).unwrap();
    assert_eq!(ticket.status, TicketStatus::Used);
    assert_eq!(ticket.resale_price, 0);
}

#[test]
fn cancelling_a_listing_gives_the_ticket_back_as_it_was() {
    let mut s = setup();
    let t = issue(&mut s, HOLDER, 1_000);
    let before = s.verify_ticket(t).unwrap().clone();
    s.list_for_resale(HOLDER, t, 1_150, 0).unwrap();
    s.cancel_resale(HOLDER, t).unwrap();
    assert_eq!(*s.verify_ticket(t).unwrap(), before);
    assert_eq!(s.cancel_resale(FRIEND, t), Err(Error::NotOwner));
}

#[test]
fn escrow_pays_out_once() {
    let mut s = setup();
    s.enable_escrow(ORGANIZER, 1, 5).unwrap();
    let (_, paid) = s
        .purchase_primary(HOLDER, 1, String::from("GA"), String::from("x"), 700, 0)
        .unwrap();
    assert_eq!(paid, vec![Payment { token: TOKEN, from: HOLDER, to: CONTRACT, amount: 700 }]);
    let (_, paid) = s
        .purchase_primary(FRIEND, 1, String::from("GA"), String::from("y"), 300, 0)
        .unwrap();
    assert_eq!(paid[0].to, CONTRACT);
    assert_eq!(s.get_event(1).unwrap().escrow_balance, 1_000);
    assert_eq!(s.release_escrow(HOLDER, 1, 5), Err(Error::NotOrganizer));
    let out = s.release_escrow(ORGANIZER, 1, 5).unwrap();
    assert_eq!(out, vec![Payment { token: TOKEN, from: CONTRACT, to: ORGANIZER, amount: 1_000 }]);
    assert_eq!(s.release_escrow(ORGANIZER, 1, 6).unwrap(), Vec::<Payment>::new());
}

#[test]
fn enabling_escrow_twice_moves_the_release_ledger() {
    let mut s = setup();
    s.enable_escrow(ORGANIZER, 1, 5).unwrap();
    s.enable_escrow(ORGANIZER, 1, 9).unwrap();
    assert_eq!(s.get_event(1).unwrap().escrow_release_ledger, 9);
    assert_eq!(s.enable_escrow(HOLDER, 1, 9), Err(Error::NotOrganizer));
    assert_eq!(s.enable_escrow(ORGANIZER, 8, 9), Err(Error::EventNotFound));
}

#[test]
fn timelock_boundary_is_exact() {
    let mut s = setup();
    let proposed = s.propose_payment_token(ADMIN, 77, Some(6), 1_000).unwrap();
    assert_eq!(proposed.apply_after_ledger, 1_000 + PAYMENT_TOKEN_CHANGE_DELAY_LEDGERS);
    let last_early = 1_000 + PAYMENT_TOKEN_CHANGE_DELAY_LEDGERS - 1;
    assert_eq!(s.apply_payment_token(ADMIN, Some(6), last_early), Err(Error::TimelockNotElapsed));
    assert_eq!(
        s.apply_payment_token(ADMIN, None, last_early + 1),
        Err(Error::InvalidPaymentToken)
    );
    let changed = s.apply_payment_token(ADMIN, Some(6), last_early + 1).unwrap();
    assert_eq!(changed.old_token, TOKEN);
    assert_eq!(changed.new_token, 77);
    assert_eq!(s.token_decimals(), Ok(6));
    assert_eq!(s.event_payment_token(1), Ok(77));
}

#[test]
fn timelock_saturates_at_the_last_ledger() {
    let mut s = setup();
    let proposed = s.propose_payment_token(ADMIN, 77, Some(7), u32::MAX - 5).unwrap();
    assert_eq!(proposed.apply_after_ledger, u32::MAX);
}

#[test]
fn purchase_throttle_is_per_buyer() {
    let mut s = setup();
    let updated = s.set_purchase_throttle(ADMIN, 10).unwrap();
    assert_eq!(updated.min_ledger_spacing, 10);
    s.purchase_primary(HOLDER, 1, String::from("GA"), String::from("x"), 0, 100).unwrap();
    assert!(s.purchase_primary(FRIEND, 1, String::from("GA"), String::from("y"), 0, 101).is_ok());
    assert_eq!(
        s.purchase_primary(HOLDER, 1, String::from("GA"), String::from("z"), 0, 109),
        Err(Error::PurchaseTooSoon)
    );
    assert!(s.purchase_primary(HOLDER, 1, String::from("GA"), String::from("z"), 0, 110).is_ok());
    assert_eq!(
        s.purchase_primary(HOLDER, 1, String::from("GA"), String::from("z"), -5, 200),
        Err(Error::InvalidPrice)
    );
    assert_eq!(
        s.purchase_primary(HOLDER, 3, String::from("GA"), String::from("z"), 5, 200),
        Err(Error::EventNotFound)
    );
}

#[test]
fn batches_are_all_or_nothing() {
    let mut s = setup();
    let a = issue(&mut s, HOLDER, 100);
    let b = issue(&mut s, FRIEND, 100);
    // The second ticket is not the sender's: nothing moves.
    assert_eq!(s.transfer_batch(HOLDER, &vec![a, b], 50, 0), Err(Error::NotOwner));
    assert_eq!(s.verify_ticket(a).unwrap().owner, HOLDER);
    assert_eq!(s.verify_ticket(a).unwrap().transfers, 0);
    // A ticket twice in one check-in batch is refused the second time.
    assert_eq!(s.check_in_batch(ORGANIZER, &vec![a, a]), Err(Error::AlreadyUsed));
    assert_eq!(s.verify_ticket(a).unwrap().status, TicketStatus::Valid);
    let full: Vec<u64> = (0..MAX_BATCH_SIZE as u64).map(|i| i % 2).collect();
    assert_eq!(s.revoke_batch(ORGANIZER, &full), Err(Error::Revoked));
    assert_eq!(s.verify_ticket(b).unwrap().status, TicketStatus::Valid);
}

#[test]
fn transfers_count_and_a_batch_of_one_matches_a_transfer() {
    let mut s = setup();
    let a = issue(&mut s, HOLDER, 100);
    s.transfer_batch(HOLDER, &vec![a], FRIEND, 0).unwrap();
    s.transfer_ticket(FRIEND, a, HOLDER, 0).unwrap();
    let t = s.verify_ticket(a).unwrap();
    assert_eq!(t.owner, HOLDER);
    assert_eq!(t.transfers, 2);
}

#[test]
fn seat_changes_need_the_organizer_and_keep_a_gift_claim() {
    let mut s = setup();
    let a = issue(&mut s, HOLDER, 100);
    s.create_gift_claim(HOLDER, a, [3u8; 32], 50, 0).unwrap();
    assert_eq!(s.set_seat(HOLDER, a, String::from("Z9")), Err(Error::NotOrganizer));
    assert_eq!(s.set_seat(ORGANIZER, 9, String::from("Z9")), Err(Error::TicketNotFound));
    s.set_seat(ORGANIZER, a, String::from("Z9")).unwrap();
    assert_eq!(s.claim_gift_with_digest(FRIEND, a, [3u8; 32], 1), Ok(()));
    assert_eq!(s.verify_ticket(a).unwrap().seat, "Z9");
}

#[test]
fn transferring_a_ticket_withdraws_its_gift_claim() {
    let mut s = setup();
    let a = issue(&mut s, HOLDER, 100);
    s.create_gift_claim(HOLDER, a, [3u8; 32], 50, 0).unwrap();
    s.transfer_ticket(HOLDER, a, FRIEND, 0).unwrap();
    assert_eq!(s.claim_gift_with_digest(60, a, [3u8; 32], 1), Err(Error::GiftClaimNotFound));
}

#[test]
fn revoking_without_a_price_refunds_nothing() {
    let mut s = setup();
    let a = issue(&mut s, HOLDER, 0);
    assert_eq!(s.revoke_with_refund(ORGANIZER, a, true), Ok(Vec::new()));
    assert_eq!(s.revoke_with_refund(ORGANIZER, a, true), Err(Error::Revoked));
}

#[test]
fn buying_a_resale_pays_the_seller_and_the_organizer() {
    let mut s = setup();
    let a = issue(&mut s, HOLDER, 1_000);
    s.list_for_resale(HOLDER, a, 1_200, 0).unwrap();
    let paid = s.buy_resale(FRIEND, a, 0).unwrap();
    assert_eq!(
        paid,
        vec![
            Payment { token: TOKEN, from: FRIEND, to: ORGANIZER, amount: 60 },
            Payment { token: TOKEN, from: FRIEND, to: HOLDER, amount: 1_140 },
        ]
    );
    assert_eq!(s.buy_resale(FRIEND, 99, 0), Err(Error::TicketNotFound));
}

#[test]
fn refused_resale_payment_leaves_the_listing_in_place() {
    let mut s = setup();
    let t = issue(&mut s, HOLDER, 1_000);
    s.list_for_resale(HOLDER, t, 1_100, 0).unwrap();

    let before = s.snapshot();
    let payments = s.buy_resale(FRIEND, t, 0).unwrap();
    assert_eq!(s.verify_ticket(t).unwrap().owner, FRIEND);
    let token = FailingToken;
    let outcome: Result<(), TokenFailure> =
        payments.iter().try_for_each(|p| token.transfer(p.from, p.to, p.amount));
    assert_eq!(s.settle(before, outcome), Err(TokenFailure::TransferFailed));

    let ticket = s.verify_ticket(t).unwrap();
    assert_eq!(ticket.owner, HOLDER);
    assert_eq!(ticket.status, TicketStatus::Resale);
    assert_eq!(ticket.resale_price, 1_100);
}

#[test]
fn carried_out_payment_keeps_the_sale() {
    let mut s = setup();
    let t = issue(&mut s, HOLDER, 1_000);
    s.list_for_resale(HOLDER, t, 1_100, 0).unwrap();

    let before = s.snapshot();
    s.buy_resale(FRIEND, t, 0).unwrap();
    assert_eq!(s.settle(before, Ok(())), Ok(()));

    let ticket = s.verify_ticket(t).unwrap();
    assert_eq!(ticket.owner, FRIEND);
    assert_eq!(ticket.status, TicketStatus::Valid);
}

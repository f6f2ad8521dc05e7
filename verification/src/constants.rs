//! Contract limits and basis-point denominators.
use vstd::prelude::*;

verus! {

/// Maximum number of tickets accepted by the batch entry points.
pub const MAX_BATCH_SIZE: u32 = 50;

/// Ledgers that must pass between proposing and applying a payment token
/// change (about one day at five seconds per ledger).
pub const PAYMENT_TOKEN_CHANGE_DELAY_LEDGERS: u32 = 17_280;

/// Basis-point denominator: 10_000 bps is 100%.
pub const BPS_DENOMINATOR: u32 = 10_000;

/// Denominator of the resale floor multiplier: 1_000 is 100%, so a floor of
/// 1_100 asks for at least 110% of the original price.
pub const FLOOR_DENOMINATOR: u32 = 1_000;

} // verus!

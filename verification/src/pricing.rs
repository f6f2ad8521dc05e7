//! Price arithmetic of the resale market: the anti-scalping cap and the
//! organizer's royalty, in basis points, and the optional price floor, in
//! thousandths.  All three
//! are exact on the full range of `i128` prices: no product is formed that
//! could overflow.
use vstd::prelude::*;
use crate::constants::{BPS_DENOMINATOR, FLOOR_DENOMINATOR};

verus! {

/// A resale price is within the cap when it is at most `max_bps` basis
/// points of the original price.
pub open spec fn within_resale_cap(original: int, price: int, max_bps: int) -> bool {
    price * (BPS_DENOMINATOR as int) <= original * max_bps
}

/// A resale price meets the floor when it is at least `min_multiplier`
/// thousandths of the original price (1_100 is 110%).
pub open spec fn meets_resale_floor(original: int, price: int, min_multiplier: int) -> bool {
    price * (FLOOR_DENOMINATOR as int) >= original * min_multiplier
}

/// The organizer's royalty on a resale at `price`: `royalty_bps` basis
/// points of the price, rounded down.
pub open spec fn royalty_of(price: int, royalty_bps: int) -> int {
    (price * royalty_bps) / (BPS_DENOMINATOR as int)
}

/// `x * m / d` splits over the quotient and remainder of `x` by `d`.
proof fn lemma_scaled_quotient(x: int, m: int, d: int)
    requires
        x >= 0,
        m >= 0,
        d > 0,
    ensures
        (x * m) / d == (x / d) * m + ((x % d) * m) / d,
        (x * m) % d == ((x % d) * m) % d,
        (x / d) * m >= 0,
        (x % d) * m >= 0,
{
    let q = x / d;
    let r = x % d;
    let s = (r * m) / d;
    let t = (r * m) % d;
    assert(x == q * d + r && 0 <= r < d) by {
        vstd::arithmetic::div_mod::lemma_fundamental_div_mod(x, d);
    }
    assert(r * m == s * d + t && 0 <= t < d) by {
        vstd::arithmetic::div_mod::lemma_fundamental_div_mod(r * m, d);
    }
    assert(x * m == (q * m + s) * d + t) by (nonlinear_arith)
        requires
            x == q * d + r,
            r * m == s * d + t,
    ;
    vstd::arithmetic::div_mod::lemma_fundamental_div_mod_converse(x * m, d, q * m + s, t);
    assert(q >= 0) by {
        vstd::arithmetic::div_mod::lemma_div_pos_is_pos(x, d);
    }
    assert(q * m >= 0 && r * m >= 0) by (nonlinear_arith)
        requires
            q >= 0,
            r >= 0,
            m >= 0,
    ;
}

/// For a positive denominator `d`, `p * d <= n` exactly when `p <= n / d`,
/// and `p * d >= n` exactly when `p` is at least `n / d` rounded up.
proof fn lemma_le_quotient(p: int, n: int, d: int)
    requires
        d > 0,
    ensures
        (p * d <= n) == (p <= n / d),
        (p * d >= n) == (p >= n / d + (if n % d == 0 { 0int } else { 1int })),
{
    let q = n / d;
    let t = n % d;
    vstd::arithmetic::div_mod::lemma_fundamental_div_mod(n, d);
    assert(n == q * d + t && 0 <= t < d);
    assert((p * d <= n) == (p <= q)) by (nonlinear_arith)
        requires
            n == q * d + t,
            0 <= t < d,
    ;
    assert((p * d >= n) == (p >= q + (if t == 0 { 0int } else { 1int }))) by (nonlinear_arith)
        requires
            n == q * d + t,
            0 <= t < d,
    ;
}

/// Whether a resale at `price` respects a cap of `max_bps` basis points of
/// the original price.
pub fn resale_cap_allows(original: i128, price: i128, max_bps: u32) -> (ok: bool)
    requires
        original >= 0,
    ensures
        ok == within_resale_cap(original as int, price as int, max_bps as int),
{
    proof {
        lemma_scaled_quotient(original as int, max_bps as int, 10_000);
        lemma_le_quotient(price as int, original * max_bps, 10_000);
    }
    let q = original / 10_000;
    let r = original % 10_000;
    let m = max_bps as i128;
    assert(r * m < 10_000 * 0x1_0000_0000) by (nonlinear_arith)
        requires
            0 <= r < 10_000,
            0 <= m < 0x1_0000_0000,
    ;
    let rest = (r * m) / 10_000;
    match q.checked_mul(m) {
        None => true,
        Some(qm) => match qm.checked_add(rest) {
            None => true,
            Some(cap) => price <= cap,
        },
    }
}

/// Whether a resale at `price` meets a floor of `min_multiplier` thousandths
/// of the original price.
pub fn resale_floor_allows(original: i128, price: i128, min_multiplier: u32) -> (ok: bool)
    requires
        original >= 0,
    ensures
        ok == meets_resale_floor(original as int, price as int, min_multiplier as int),
{
    proof {
        lemma_scaled_quotient(original as int, min_multiplier as int, 1_000);
        lemma_le_quotient(price as int, original * min_multiplier, 1_000);
    }
    let q = original / 1_000;
    let r = original % 1_000;
    let m = min_multiplier as i128;
    assert(r * m < 1_000 * 0x1_0000_0000) by (nonlinear_arith)
        requires
            0 <= r < 1_000,
            0 <= m < 0x1_0000_0000,
    ;
    let rm = r * m;
    let rest = rm / 1_000 + if rm % 1_000 == 0 { 0 } else { 1 };
    match q.checked_mul(m) {
        None => false,
        Some(qm) => match qm.checked_add(rest) {
            None => false,
            Some(floor) => price >= floor,
        },
    }
}

/// Splits a resale price into the organizer's royalty and the seller's
/// proceeds.
pub fn split_resale_price(price: i128, royalty_bps: u32) -> (split: (i128, i128))
    requires
        price >= 0,
        royalty_bps <= BPS_DENOMINATOR,
    ensures
        split.0 == royalty_of(price as int, royalty_bps as int),
        split.0 + split.1 == price,
        0 <= split.0 <= price,
{
    proof {
        lemma_scaled_quotient(price as int, royalty_bps as int, 10_000);
    }
    let q = price / 10_000;
    let r = price % 10_000;
    let m = royalty_bps as i128;
    assert(q * m <= q * 10_000 && r * m <= r * 10_000) by (nonlinear_arith)
        requires
            q >= 0,
            r >= 0,
            0 <= m <= 10_000,
    ;
    assert((r * m) / 10_000 <= r) by {
        vstd::arithmetic::div_mod::lemma_multiply_divide_le(r * m, 10_000, r as int);
    }
    assert(q * 10_000 + r == price) by {
        vstd::arithmetic::div_mod::lemma_fundamental_div_mod(price as int, 10_000);
    }
    let royalty = q * m + (r * m) / 10_000;
    assert((r * m) / 10_000 >= 0) by {
        vstd::arithmetic::div_mod::lemma_div_pos_is_pos(r * m, 10_000);
    }
    (royalty, price - royalty)
}

} // verus!

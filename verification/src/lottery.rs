//! Drawing lottery winners: a partial Fisher-Yates shuffle driven by random
//! offsets.  Whatever the offsets, the winners are distinct entrants.
use vstd::prelude::*;
use crate::types::AccountId;

verus! {

/// No account occurs twice in `s`.
pub open spec fn distinct(s: Seq<AccountId>) -> bool {
    forall|i: int, j: int| 0 <= i < j < s.len() ==> s[i] != s[j]
}

/// Offsets fit a draw of `draws.len()` winners from `n` entrants: the `i`-th
/// offset picks among the `n - i` entrants not drawn yet.
pub open spec fn valid_draws(n: int, draws: Seq<u64>) -> bool {
    &&& draws.len() <= n
    &&& forall|i: int| 0 <= i < draws.len() ==> draws[i] < n - i
}

/// The pool after the swaps of steps `i..` of the shuffle: step `k` swaps
/// position `k` with position `k + draws[k]`.
pub open spec fn shuffled(pool: Seq<AccountId>, draws: Seq<u64>, i: int) -> Seq<AccountId>
    decreases draws.len() - i,
{
    if i < 0 || i >= draws.len() {
        pool
    } else {
        let j = i + draws[i];
        shuffled(pool.update(i, pool[j]).update(j, pool[i]), draws, i + 1)
    }
}

/// The winners drawn from `entrants` with offsets `draws`: the first
/// `draws.len()` places of the shuffled pool.
pub open spec fn winners_of(entrants: Seq<AccountId>, draws: Seq<u64>) -> Seq<AccountId> {
    shuffled(entrants, draws, 0).take(draws.len() as int)
}

/// Each step of the shuffle swaps two places of the pool, so the pool keeps
/// its length, its members and its distinctness.
proof fn lemma_shuffled_permutes(pool: Seq<AccountId>, draws: Seq<u64>, i: int)
    requires
        0 <= i <= draws.len(),
        valid_draws(pool.len() as int, draws),
    ensures
        shuffled(pool, draws, i).len() == pool.len(),
        forall|a: AccountId| #[trigger] shuffled(pool, draws, i).contains(a) <==> pool.contains(a),
        distinct(pool) ==> distinct(shuffled(pool, draws, i)),
    decreases draws.len() - i,
{
    if i < draws.len() {
        let j = i + draws[i];
        let p2 = pool.update(i, pool[j]).update(j, pool[i]);
        assert forall|a: AccountId| p2.contains(a) <==> pool.contains(a) by {
            if p2.contains(a) {
                let k = choose|k: int| 0 <= k < p2.len() && p2[k] == a;
                if k == i {
                    assert(pool[j] == a);
                } else if k == j {
                    assert(pool[i] == a);
                } else {
                    assert(pool[k] == a);
                }
            }
            if pool.contains(a) {
                let k = choose|k: int| 0 <= k < pool.len() && pool[k] == a;
                if k == i {
                    assert(p2[j] == a);
                } else if k == j {
                    assert(p2[i] == a);
                } else {
                    assert(p2[k] == a);
                }
            }
        }
        if distinct(pool) {
            assert forall|x: int, y: int| 0 <= x < y < p2.len() implies p2[x] != p2[y] by {
                let px = if x == i {
                    j
                } else if x == j {
                    i
                } else {
                    x
                };
                let py = if y == i {
                    j
                } else if y == j {
                    i
                } else {
                    y
                };
                assert(p2[x] == pool[px] && p2[y] == pool[py] && px != py);
            }
        }
        lemma_shuffled_permutes(p2, draws, i + 1);
    }
}

/// The winners of a valid draw are `draws.len()` distinct entrants.
pub proof fn lemma_winners_are_distinct_entrants(entrants: Seq<AccountId>, draws: Seq<u64>)
    requires
        distinct(entrants),
        valid_draws(entrants.len() as int, draws),
    ensures
        winners_of(entrants, draws).len() == draws.len(),
        distinct(winners_of(entrants, draws)),
        forall|k: int|
            0 <= k < draws.len() ==> entrants.contains(#[trigger] winners_of(entrants, draws)[k]),
{
    lemma_shuffled_permutes(entrants, draws, 0);
    let sh = shuffled(entrants, draws, 0);
    assert forall|k: int| 0 <= k < draws.len() implies entrants.contains(
        #[trigger] winners_of(entrants, draws)[k],
    ) by {
        assert(sh.contains(sh[k]));
    }
}

/// Draws `draws.len()` winners from `entrants`, the `i`-th offset choosing
/// among the entrants not drawn yet.
pub fn draw_winners(entrants: &Vec<AccountId>, draws: &Vec<u64>) -> (winners: Vec<AccountId>)
    requires
        valid_draws(entrants@.len() as int, draws@),
    ensures
        winners@ == winners_of(entrants@, draws@),
{
    let mut pool = entrants.clone();
    let w = draws.len();
    let n = entrants.len();
    let mut i: usize = 0;
    while i < w
        invariant
            w == draws@.len(),
            n == entrants@.len(),
            i <= w,
            valid_draws(entrants@.len() as int, draws@),
            pool@.len() == entrants@.len(),
            shuffled(pool@, draws@, i as int) == shuffled(entrants@, draws@, 0),
        decreases w - i,
    {
        let d = draws[i];
        assert(d < n - i);
        let j = i + d as usize;
        let a = pool[i];
        let b = pool[j];
        pool.set(i, b);
        pool.set(j, a);
        i = i + 1;
    }
    let mut winners: Vec<AccountId> = Vec::new();
    let mut k: usize = 0;
    while k < w
        invariant
            w == draws@.len(),
            k <= w,
            w <= pool@.len(),
            pool@ == shuffled(entrants@, draws@, 0),
            winners@ == pool@.take(k as int),
        decreases w - k,
    {
        winners.push(pool[k]);
        k = k + 1;
        assert(winners@ =~= pool@.take(k as int));
    }
    winners
}

} // verus!

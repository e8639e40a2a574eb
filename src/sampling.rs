//! Audit plans: which index ranges a challenge draws from, and in what order.

use vstd::prelude::*;
use vstd::arithmetic::div_mod::lemma_fundamental_div_mod;
use vstd::arithmetic::mul::lemma_mul_inequality;

verus! {

/// Searches upwards from `r` for the largest root whose square stays within `m`.
pub open spec fn sqrt_search(m: nat, r: nat) -> nat
    decreases m - r,
{
    if r >= m {
        r
    } else if (r + 1) * (r + 1) <= m {
        sqrt_search(m, r + 1)
    } else {
        r
    }
}

/// The integer square root of `m`, rounded down.
pub open spec fn floor_sqrt(m: nat) -> nat {
    sqrt_search(m, 0)
}

/// The integer square root of `m`, rounded down.
pub fn isqrt(m: usize) -> (r: usize)
    ensures
        r == floor_sqrt(m as nat),
        r <= m,
{
    let mut r: usize = 0;
    while r < m
        invariant
            r <= m,
            sqrt_search(m as nat, r as nat) == floor_sqrt(m as nat),
        ensures
            sqrt_search(m as nat, r as nat) == r,
        decreases m - r,
    {
        let next: u128 = (r as u128) + 1;
        assert(next <= 0xffff_ffff_ffff_ffffu128);
        assert(next * next <= u128::MAX) by (nonlinear_arith)
            requires
                next <= 0xffff_ffff_ffff_ffffu128,
        ;
        if next * next > (m as u128) {
            break;
        }
        r = r + 1;
    }
    r
}

/// `count` draws over the whole range `[0, n)`.
pub open spec fn uniform_plan(count: nat, n: usize) -> Seq<(usize, usize)> {
    Seq::new(count, |k: int| (0usize, n))
}

/// The first index of stratum `i` when `[0, n)` is cut into `strata` strata.
pub open spec fn stratum_start(n: nat, strata: nat, i: nat) -> nat {
    i * (n / strata)
}

/// One past the last index of stratum `i`; the last stratum runs to `n`.
pub open spec fn stratum_end(n: nat, strata: nat, i: nat) -> nat {
    if i + 1 == strata {
        n
    } else {
        stratum_start(n, strata, i) + n / strata
    }
}

/// The `per` draws made inside stratum `i` (none where the stratum is empty).
pub open spec fn stratum_block(n: nat, strata: nat, per: nat, i: nat) -> Seq<(usize, usize)> {
    let start = stratum_start(n, strata, i);
    let end = stratum_end(n, strata, i);
    if start < end {
        Seq::new(per, |k: int| (start as usize, end as usize))
    } else {
        Seq::empty()
    }
}

/// The draws inside the first `i` strata, stratum by stratum.
pub open spec fn strata_plan(n: nat, strata: nat, per: nat, i: nat) -> Seq<(usize, usize)>
    decreases i,
{
    if i == 0 {
        Seq::empty()
    } else {
        strata_plan(n, strata, per, (i - 1) as nat) + stratum_block(n, strata, per, (i - 1) as nat)
    }
}

/// The stratified plan for `count` draws over `[0, n)`: `floor_sqrt(count)`
/// contiguous strata with `count / strata` draws each, then draws over the
/// whole range until `count` is reached.
pub open spec fn stratified_plan(count: nat, n: usize) -> Seq<(usize, usize)> {
    if n == 0 || count == 0 {
        Seq::empty()
    } else {
        let strata = floor_sqrt(count);
        if strata == 0 {
            uniform_plan(count, n)
        } else {
            let inner = strata_plan(n as nat, strata, count / strata, strata);
            let rest: nat = if inner.len() < count { (count - inner.len()) as nat } else { 0 };
            inner + uniform_plan(rest, n)
        }
    }
}

/// Every draw of `plan` is over a nonempty range within `[0, n)`.
pub open spec fn plan_within(plan: Seq<(usize, usize)>, n: nat) -> bool {
    forall|k: int| 0 <= k < plan.len() ==> plan[k].0 < plan[k].1 && plan[k].1 <= n
}

proof fn lemma_stratum_bounds(n: nat, strata: nat, i: nat)
    requires
        0 < strata <= n,
        i < strata,
    ensures
        stratum_start(n, strata, i) <= stratum_end(n, strata, i) <= n,
{
    let size = n / strata;
    lemma_fundamental_div_mod(n as int, strata as int);
    lemma_mul_inequality((i + 1) as int, strata as int, size as int);
    assert(i * size + size == (i + 1) * size) by (nonlinear_arith);
    assert(strata * size == size * strata) by (nonlinear_arith);
    assert(i * size <= (i + 1) * size) by (nonlinear_arith);
}

proof fn lemma_strata_plan(n: nat, strata: nat, per: nat, i: nat)
    requires
        0 < strata <= n,
        i <= strata,
        n <= usize::MAX,
    ensures
        plan_within(strata_plan(n, strata, per, i), n),
        strata_plan(n, strata, per, i).len() <= per * i,
    decreases i,
{
    if i > 0 {
        let j = (i - 1) as nat;
        lemma_strata_plan(n, strata, per, j);
        lemma_stratum_bounds(n, strata, j);
        let a = strata_plan(n, strata, per, j);
        let b = stratum_block(n, strata, per, j);
        assert(per * j + per == per * i) by (nonlinear_arith)
            requires
                j + 1 == i,
        ;
        assert forall|k: int| 0 <= k < (a + b).len() implies (a + b)[k].0 < (a + b)[k].1
            && (a + b)[k].1 <= n by {
            if k >= a.len() {
                assert((a + b)[k] == b[k - a.len()]);
            }
        }
    }
}

/// The stratified plan makes exactly `count` draws, each over a nonempty range
/// within `[0, n)`.
pub proof fn lemma_stratified_plan(count: nat, n: usize)
    requires
        count <= n,
    ensures
        plan_within(stratified_plan(count, n), n as nat),
        stratified_plan(count, n).len() == if n == 0 { 0 } else { count },
{
    if n != 0 && count != 0 {
        let strata = floor_sqrt(count);
        if strata != 0 {
            lemma_sqrt_search_bound(count, 0);
            let per = count / strata;
            lemma_strata_plan(n as nat, strata, per, strata);
            lemma_fundamental_div_mod(count as int, strata as int);
            assert(per * strata == strata * per) by (nonlinear_arith);
            let inner = strata_plan(n as nat, strata, per, strata);
            let rest: nat = if inner.len() < count { (count - inner.len()) as nat } else { 0 };
            let whole = inner + uniform_plan(rest, n);
            assert forall|k: int| 0 <= k < whole.len() implies whole[k].0 < whole[k].1
                && whole[k].1 <= n by {
                if k >= inner.len() {
                    assert(whole[k] == uniform_plan(rest, n)[k - inner.len()]);
                }
            }
        }
    }
}

proof fn lemma_sqrt_search_bound(m: nat, r: nat)
    requires
        r <= m,
    ensures
        sqrt_search(m, r) <= m,
    decreases m - r,
{
    if r < m && (r + 1) * (r + 1) <= m {
        lemma_sqrt_search_bound(m, r + 1);
    }
}

/// The plan of `count` draws over the whole range `[0, n)`.
pub fn build_uniform_plan(count: usize, n: usize) -> (plan: Vec<(usize, usize)>)
    ensures
        plan@ == uniform_plan(count as nat, n),
{
    let mut plan: Vec<(usize, usize)> = Vec::with_capacity(count);
    let mut i: usize = 0;
    while i < count
        invariant
            i <= count,
            plan@ == uniform_plan(i as nat, n),
        decreases count - i,
    {
        plan.push((0, n));
        i = i + 1;
        assert(plan@ =~= uniform_plan(i as nat, n));
    }
    plan
}

/// The stratified plan of `count` draws over `[0, n)`.
pub fn build_stratified_plan(count: usize, n: usize) -> (plan: Vec<(usize, usize)>)
    requires
        count <= n,
    ensures
        plan@ == stratified_plan(count as nat, n),
{
    if n == 0 || count == 0 {
        let plan: Vec<(usize, usize)> = Vec::new();
        assert(plan@ =~= stratified_plan(count as nat, n));
        return plan;
    }
    let strata = isqrt(count);
    if strata == 0 {
        return build_uniform_plan(count, n);
    }
    let size = n / strata;
    let per = count / strata;
    let ghost nn = n as nat;
    let ghost ss = strata as nat;
    let ghost pp = per as nat;
    let mut plan: Vec<(usize, usize)> = Vec::with_capacity(count);
    let mut i: usize = 0;
    while i < strata
        invariant
            0 < strata <= count <= n,
            size == n / strata,
            per == count / strata,
            nn == n,
            ss == strata,
            pp == per,
            i <= strata,
            plan@ == strata_plan(nn, ss, pp, i as nat),
        decreases strata - i,
    {
        proof {
            lemma_stratum_bounds(nn, ss, i as nat);
            assert(i * size == stratum_start(nn, ss, i as nat));
        }
        let start = i * size;
        let end = if i == strata - 1 { n } else { start + size };
        if start < end {
            let mut j: usize = 0;
            while j < per
                invariant
                    j <= per,
                    pp == per,
                    plan@ == strata_plan(nn, ss, pp, i as nat) + Seq::new(
                        j as nat,
                        |k: int| (start, end),
                    ),
                decreases per - j,
            {
                plan.push((start, end));
                j = j + 1;
                assert(plan@ =~= strata_plan(nn, ss, pp, i as nat) + Seq::new(
                    j as nat,
                    |k: int| (start, end),
                ));
            }
        }
        assert(plan@ =~= strata_plan(nn, ss, pp, (i + 1) as nat));
        i = i + 1;
    }
    let ghost inner = plan@;
    proof {
        lemma_strata_plan(nn, ss, pp, ss);
    }
    while plan.len() < count
        invariant
            inner == strata_plan(nn, ss, pp, ss),
            plan@ == inner + uniform_plan((plan@.len() - inner.len()) as nat, n),
            plan@.len() >= inner.len(),
            inner.len() < count ==> plan@.len() <= count,
            inner.len() >= count ==> plan@.len() == inner.len(),
        decreases count - plan@.len(),
    {
        plan.push((0, n));
        assert(plan@ =~= inner + uniform_plan((plan@.len() - inner.len()) as nat, n));
    }
    assert(plan@ =~= stratified_plan(count as nat, n));
    plan
}

/// What a generator seeded with `seed` answers to the half-open `ranges`,
/// asked one after another.
pub uninterp spec fn seeded_draws(seed: Seq<u8>, ranges: Seq<(usize, usize)>) -> Seq<usize>;

/// Relies on rand's `StdRng::from_seed` and `Rng::gen_range`: one generator,
/// seeded with `seed`, answers one draw per range in order; each answer lies in
/// its range, and the answers depend on the seed and the ranges alone.
#[verifier::external_body]
pub(crate) fn draw_in_ranges(seed: &[u8; 32], ranges: &Vec<(usize, usize)>) -> (r: Vec<usize>)
    requires
        forall|k: int| 0 <= k < ranges@.len() ==> ranges@[k].0 < ranges@[k].1,
    ensures
        r@ == seeded_draws(seed@, ranges@),
        r@.len() == ranges@.len(),
        forall|k: int| 0 <= k < r@.len() ==> ranges@[k].0 <= #[trigger] r@[k] < ranges@[k].1,
{
    let mut rng = <rand::rngs::StdRng as rand::SeedableRng>::from_seed(*seed);
    ranges.iter().map(|&(lo, hi)| rand::Rng::gen_range(&mut rng, lo..hi)).collect()
}

} // verus!

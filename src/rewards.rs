use vstd::prelude::*;

verus! {

/// The four shares of a pool: three ranked winners and the administrator.
#[derive(Clone, Copy, Debug, PartialEq, Eq, Structural)]
pub struct Prizes {
    pub first: u64,
    pub second: u64,
    pub third: u64,
    pub admin_cut: u64,
}

/// `pct` percent of `pool`, rounded down.
pub open spec fn percent_of(pool: int, pct: int) -> int {
    pool * pct / 100
}

/// The split of `pool`: 40%, 30% and 20% rounded down to the winners, the
/// rest to the administrator.
pub open spec fn prizes_of(pool: int) -> Prizes {
    Prizes {
        first: percent_of(pool, 40) as u64,
        second: percent_of(pool, 30) as u64,
        third: percent_of(pool, 20) as u64,
        admin_cut: (pool - percent_of(pool, 40) - percent_of(pool, 30) - percent_of(pool, 20)) as u64,
    }
}

/// Splits a pool into the winners' shares and the administrator's cut.
pub fn split_pool(total_pool: u64) -> (r: Prizes)
    ensures
        r == prizes_of(total_pool as int),
        r.first + r.second + r.third + r.admin_cut == total_pool,
{
    let wide: u128 = total_pool as u128;
    let first = (wide * 40 / 100) as u64;
    let second = (wide * 30 / 100) as u64;
    let third = (wide * 20 / 100) as u64;
    proof {
        lemma_split_conserves(total_pool as int);
    }
    let admin_cut = total_pool - first - second - third;
    Prizes { first, second, third, admin_cut }
}

/// A split disburses exactly the pool: the three winners' shares and the
/// administrator's cut add up to it, and the cut is what rounding left over
/// after the 90% paid to the winners.
pub proof fn lemma_split_conserves(pool: int)
    requires
        0 <= pool,
    ensures
        0 <= percent_of(pool, 40) <= pool,
        0 <= percent_of(pool, 30) <= pool,
        0 <= percent_of(pool, 20) <= pool,
        percent_of(pool, 40) + percent_of(pool, 30) + percent_of(pool, 20) <= pool,
        pool - percent_of(pool, 40) - percent_of(pool, 30) - percent_of(pool, 20)
            >= percent_of(pool, 10),
{
    assert(pool * 40 / 100 + pool * 30 / 100 + pool * 20 / 100 + pool * 10 / 100 <= pool)
        by (nonlinear_arith)
        requires 0 <= pool;
    assert(0 <= pool * 10 / 100 && 0 <= pool * 20 / 100 && 0 <= pool * 30 / 100 && 0 <= pool * 40 / 100) by (nonlinear_arith)
        requires 0 <= pool;
}

} // verus!

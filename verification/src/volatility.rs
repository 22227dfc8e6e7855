//! Volatility of the recent tape: an exponentially weighted variance of
//! the log-returns between consecutive prints, in price units.
//!
//! The logarithm is not taken here. The caller hands in the log-returns
//! `ln(p[i] / p[i-1])` of the consecutive positive prices, in parts per
//! billion; everything after that is integer arithmetic.

use crate::bayes_prob::PPB;
use crate::model::{MAX_PRICE, MAX_VOLATILITY};
use vstd::arithmetic::div_mod::{
    lemma_div_is_ordered, lemma_div_multiples_vanish, lemma_div_pos_is_pos,
    lemma_fundamental_div_mod, lemma_mod_pos_bound,
};
use vstd::prelude::*;

verus! {

/// The floor of the volatility as a fraction of the mean price: half a
/// basis point, in parts per billion.
pub const MIN_VOLATILITY_BPS: u64 = 50_000;

/// The mean price assumed for an empty tape, yen.
pub const FALLBACK_MID_PRICE: u64 = 6_500_000;

/// How many returns the variance is seeded from.
pub const SEED_RETURNS: usize = 10;

/// The decay of the variance, in hundredths: 0.94.
pub const LAMBDA_PERCENT: u64 = 94;

/// The largest log-return, in parts per billion, that two prices of 64
/// bits can show: the logarithm of 2^64, rounded up.
pub const MAX_LOG_RETURN: i64 = 44_361_419_556;

/// Every log-return is one that 64-bit prices can show.
pub open spec fn log_returns_valid(log_returns: Seq<i64>) -> bool {
    forall|i: int| 0 <= i < log_returns.len() ==> -MAX_LOG_RETURN <= #[trigger] log_returns[i] <= MAX_LOG_RETURN
}

/// Every price is one that the engine accepts.
pub open spec fn prices_valid(prices: Seq<u64>) -> bool {
    forall|i: int| 0 <= i < prices.len() ==> #[trigger] prices[i] <= MAX_PRICE
}

/// Every price of a tape paired with the price that follows it.
pub open spec fn consecutive_pairs(prices: Seq<u64>) -> Seq<(u64, u64)> {
    Seq::new(
        if prices.len() == 0 {
            0nat
        } else {
            (prices.len() - 1) as nat
        },
        |i: int| (prices[i], prices[i + 1]),
    )
}

/// The pairs of consecutive prices that give a return: those in which
/// both prices are positive. A pair with a price of zero is passed over.
pub open spec fn return_pairs_of(prices: Seq<u64>) -> Seq<(u64, u64)> {
    consecutive_pairs(prices).filter(|pair: (u64, u64)| pair.0 > 0 && pair.1 > 0)
}

/// The pairs of consecutive prices that give a return, oldest first: the
/// log-return of a pair `(earlier, later)` is the logarithm of
/// `later / earlier`.
pub fn return_pairs(prices: &Vec<u64>) -> (pairs: Vec<(u64, u64)>)
    ensures
        pairs@ == return_pairs_of(prices@),
{
    let ghost all = consecutive_pairs(prices@);
    let ghost gives_return = |pair: (u64, u64)| pair.0 > 0 && pair.1 > 0;
    let mut pairs: Vec<(u64, u64)> = Vec::new();
    if prices.len() < 2 {
        assert(all.filter(gives_return) =~= Seq::<(u64, u64)>::empty()) by {
            reveal(Seq::filter);
        }
        return pairs;
    }
    let n: usize = prices.len() - 1;
    let mut i: usize = 0;
    assert(all.take(0).filter(gives_return) =~= Seq::<(u64, u64)>::empty());
    while i < n
        invariant
            i <= n,
            n == prices@.len() - 1,
            all == consecutive_pairs(prices@),
            all.len() == n,
            gives_return == (|pair: (u64, u64)| pair.0 > 0 && pair.1 > 0),
            pairs@ == all.take(i as int).filter(gives_return),
        decreases n - i,
    {
        let earlier: u64 = prices[i];
        let later: u64 = prices[i + 1];
        assert(all.take(i + 1).drop_last() =~= all.take(i as int));
        assert(all.take(i + 1).last() == (earlier, later));
        reveal(Seq::filter);
        if earlier > 0 && later > 0 {
            pairs.push((earlier, later));
        }
        i += 1;
    }
    assert(all.take(n as int) =~= all);
    pairs
}

/// The sum of the prices.
pub open spec fn price_sum(prices: Seq<u64>) -> nat
    decreases prices.len(),
{
    if prices.len() == 0 {
        0
    } else {
        price_sum(prices.drop_last()) + prices.last() as nat
    }
}

/// The mean of the prices, rounded down; 0 for no price.
pub open spec fn mean_price_of(prices: Seq<u64>) -> int {
    if prices.len() == 0 {
        0
    } else {
        (price_sum(prices) as int) / (prices.len() as int)
    }
}

/// The floor of the volatility at a mean price: half a basis point of it, rounded down.
pub open spec fn volatility_floor_of(mean_price: int) -> int {
    (mean_price * MIN_VOLATILITY_BPS) / (PPB as int)
}

/// The sum of the squares of the first `k` returns.
pub open spec fn squares_sum(log_returns: Seq<i64>, k: int) -> int
    decreases k,
{
    if k <= 0 {
        0
    } else {
        squares_sum(log_returns, k - 1) + log_returns[k - 1] * log_returns[k - 1]
    }
}

/// How many returns seed the variance: ten, or all if there are fewer.
pub open spec fn seed_count(log_returns: Seq<i64>) -> int {
    if log_returns.len() < SEED_RETURNS {
        log_returns.len() as int
    } else {
        SEED_RETURNS as int
    }
}

/// The variance after the first `k` returns, in parts per billion
/// squared. The first ten returns seed it with the plain mean of their
/// squares; each later return `r` turns the variance `v` into
/// `0.94 * v + 0.06 * r * r`. The mean of the returns is taken as zero.
pub open spec fn variance_upto(log_returns: Seq<i64>, k: int) -> int
    decreases k,
{
    if k <= seed_count(log_returns) {
        if seed_count(log_returns) == 0 {
            0
        } else {
            squares_sum(log_returns, seed_count(log_returns)) / seed_count(log_returns)
        }
    } else {
        (LAMBDA_PERCENT * variance_upto(log_returns, k - 1) + (100 - LAMBDA_PERCENT) * (log_returns[k - 1]
            * log_returns[k - 1])) / 100
    }
}

/// The variance of all returns.
pub open spec fn variance_of(log_returns: Seq<i64>) -> int {
    variance_upto(log_returns, log_returns.len() as int)
}

/// `r` is the square root of `x`, rounded down.
pub open spec fn is_sqrt(x: int, r: int) -> bool {
    r >= 0 && r * r <= x < (r + 1) * (r + 1)
}

/// The square root of `x`, rounded down.
pub open spec fn sqrt_of(x: int) -> int {
    choose|r: int| is_sqrt(x, r)
}

/// The volatility: the mean price times the square root of the variance,
/// and no less than the floor. With fewer than two prices, or without a
/// return, it is the floor, at the one price there is or the fallback.
pub open spec fn volatility_of(prices: Seq<u64>, log_returns: Seq<i64>) -> int {
    if prices.len() < 2 {
        volatility_floor_of(
            if prices.len() == 0 {
                FALLBACK_MID_PRICE as int
            } else {
                prices[0] as int
            },
        )
    } else {
        let mean = mean_price_of(prices);
        let floor = volatility_floor_of(mean);
        if log_returns.len() == 0 {
            floor
        } else {
            let raw = (mean * sqrt_of(variance_of(log_returns))) / (PPB as int);
            if raw > floor {
                raw
            } else {
                floor
            }
        }
    }
}

proof fn lemma_sqrt_unique(x: int, a: int, b: int)
    requires
        is_sqrt(x, a),
        is_sqrt(x, b),
    ensures
        a == b,
{
    if a < b {
        assert((a + 1) * (a + 1) <= b * b) by (nonlinear_arith)
            requires
                0 <= a + 1 <= b,
        ;
    }
    if b < a {
        assert((b + 1) * (b + 1) <= a * a) by (nonlinear_arith)
            requires
                0 <= b + 1 <= a,
        ;
    }
}

proof fn lemma_square_vs_quotient(m: int, x: int)
    requires
        m > 0,
        x >= 0,
    ensures
        (m <= x / m) <==> (m * m <= x),
{
    lemma_fundamental_div_mod(x, m);
    lemma_mod_pos_bound(x, m);
    let q = x / m;
    if m <= q {
        assert(m * m <= m * q) by (nonlinear_arith)
            requires
                0 < m <= q,
        ;
    }
    if m * m <= x {
        lemma_div_is_ordered(m * m, x, m);
        lemma_div_multiples_vanish(m, m);
    }
}

/// The square root of `x`, rounded down.
pub fn isqrt(x: u128) -> (r: u64)
    ensures
        is_sqrt(x as int, r as int),
        r == sqrt_of(x as int),
{
    let mut lo: u128 = 0;
    let mut hi: u128 = 18_446_744_073_709_551_616;
    assert(18_446_744_073_709_551_616int * 18_446_744_073_709_551_616int
        == 340_282_366_920_938_463_463_374_607_431_768_211_456int) by (nonlinear_arith);
    while hi - lo > 1
        invariant
            lo < hi <= 18_446_744_073_709_551_616,
            lo * lo <= x < hi * hi,
        decreases hi - lo,
    {
        let mid: u128 = lo + (hi - lo) / 2;
        proof {
            lemma_square_vs_quotient(mid as int, x as int);
        }
        if mid <= x / mid {
            lo = mid;
        } else {
            hi = mid;
        }
    }
    proof {
        assert(hi == lo + 1);
        lemma_sqrt_unique(x as int, lo as int, sqrt_of(x as int));
    }
    lo as u64
}

proof fn lemma_price_sum_bound(prices: Seq<u64>)
    ensures
        price_sum(prices) <= prices.len() * u64::MAX,
    decreases prices.len(),
{
    if prices.len() > 0 {
        lemma_price_sum_bound(prices.drop_last());
        assert((prices.len() - 1) * u64::MAX + u64::MAX == prices.len() * u64::MAX)
            by (nonlinear_arith);
    }
}

proof fn lemma_mean_bound(prices: Seq<u64>, bound: u64)
    requires
        forall|i: int| 0 <= i < prices.len() ==> #[trigger] prices[i] <= bound,
    ensures
        price_sum(prices) <= prices.len() * bound,
        mean_price_of(prices) <= bound,
    decreases prices.len(),
{
    if prices.len() > 0 {
        let t = prices.drop_last();
        assert forall|i: int| 0 <= i < t.len() implies #[trigger] t[i] <= bound by {
            assert(t[i] == prices[i]);
        }
        lemma_mean_bound(t, bound);
        assert(prices.last() == prices[prices.len() - 1]);
        assert((prices.len() - 1) * bound + bound == prices.len() * bound) by (nonlinear_arith);
        let n = prices.len() as int;
        lemma_div_is_ordered(price_sum(prices) as int, n * bound, n);
        lemma_div_multiples_vanish(bound as int, n);
    }
}

/// The mean of the prices, rounded down; 0 for no price.
pub fn mean_price(prices: &Vec<u64>) -> (mean: u64)
    ensures
        mean == mean_price_of(prices@),
{
    let n: usize = prices.len();
    if n == 0 {
        return 0;
    }
    let mut sum: u128 = 0;
    let mut i: usize = 0;
    while i < n
        invariant
            i <= n,
            n == prices@.len(),
            sum == price_sum(prices@.take(i as int)),
            sum <= i * u64::MAX,
        decreases n - i,
    {
        assert(prices@.take(i + 1).drop_last() =~= prices@.take(i as int));
        assert((i + 1) * u64::MAX == i * u64::MAX + u64::MAX) by (nonlinear_arith);
        assert(i * u64::MAX <= usize::MAX * u64::MAX) by (nonlinear_arith)
            requires
                i <= usize::MAX,
        ;
        sum = sum + prices[i] as u128;
        i += 1;
    }
    proof {
        assert(prices@.take(n as int) =~= prices@);
        lemma_mean_bound(prices@, u64::MAX);
        lemma_div_pos_is_pos(sum as int, n as int);
    }
    (sum / (n as u128)) as u64
}

/// Half a basis point of the mean price.
pub fn volatility_floor(mean_price: u64) -> (floor: u64)
    ensures
        floor == volatility_floor_of(mean_price as int),
        floor <= mean_price,
{
    proof {
        let x = mean_price * MIN_VOLATILITY_BPS;
        assert(0 <= x <= mean_price * PPB) by (nonlinear_arith)
            requires
                x == mean_price * MIN_VOLATILITY_BPS,
                0 <= mean_price,
                MIN_VOLATILITY_BPS <= PPB,
        ;
        lemma_div_is_ordered(x, mean_price * PPB, PPB as int);
        assert(mean_price * PPB == PPB * mean_price) by (nonlinear_arith);
        lemma_div_multiples_vanish(mean_price as int, PPB as int);
        lemma_div_pos_is_pos(x, PPB as int);
    }
    ((mean_price as u128 * 50_000) / 1_000_000_000) as u64
}

proof fn lemma_square_bound(r: i64)
    requires
        -MAX_LOG_RETURN <= r <= MAX_LOG_RETURN,
    ensures
        0 <= r * r <= 1_967_935_545_023_459_237_136,
{
    assert(0 <= r * r <= 44_361_419_556 * 44_361_419_556) by (nonlinear_arith)
        requires
            -44_361_419_556 <= r <= 44_361_419_556,
    ;
}

proof fn lemma_squares_sum_bound(log_returns: Seq<i64>, k: int)
    requires
        log_returns_valid(log_returns),
        0 <= k <= log_returns.len(),
    ensures
        0 <= squares_sum(log_returns, k) <= k * 1_967_935_545_023_459_237_136,
    decreases k,
{
    if k > 0 {
        lemma_squares_sum_bound(log_returns, k - 1);
        lemma_square_bound(log_returns[k - 1]);
    }
}

proof fn lemma_variance_bound(log_returns: Seq<i64>, k: int)
    requires
        log_returns_valid(log_returns),
        0 <= k <= log_returns.len(),
    ensures
        0 <= variance_upto(log_returns, k) <= 1_967_935_545_023_459_237_136,
    decreases k,
{
    let n = seed_count(log_returns);
    let bound = 1_967_935_545_023_459_237_136int;
    if k <= n {
        if n > 0 {
            lemma_squares_sum_bound(log_returns, n);
            lemma_div_pos_is_pos(squares_sum(log_returns, n), n);
            lemma_div_is_ordered(squares_sum(log_returns, n), n * bound, n);
            lemma_div_multiples_vanish(bound, n);
        }
    } else {
        lemma_variance_bound(log_returns, k - 1);
        lemma_square_bound(log_returns[k - 1]);
        let v = variance_upto(log_returns, k - 1);
        let sq = log_returns[k - 1] * log_returns[k - 1];
        assert(LAMBDA_PERCENT == 94);
        let next = 94 * v + 6 * sq;
        assert(variance_upto(log_returns, k) == next / 100);
        assert(0 <= next <= 100 * bound);
        assert(0 <= next / 100 <= bound);
    }
}

proof fn lemma_still_tape_has_no_squares(log_returns: Seq<i64>, k: int)
    requires
        forall|i: int| 0 <= i < log_returns.len() ==> #[trigger] log_returns[i] == 0,
        0 <= k <= log_returns.len(),
    ensures
        squares_sum(log_returns, k) == 0,
    decreases k,
{
    if k > 0 {
        lemma_still_tape_has_no_squares(log_returns, k - 1);
    }
}

/// A tape that never moved has no variance.
pub proof fn lemma_still_tape_has_no_variance(log_returns: Seq<i64>, k: int)
    requires
        forall|i: int| 0 <= i < log_returns.len() ==> #[trigger] log_returns[i] == 0,
        0 <= k <= log_returns.len(),
    ensures
        variance_upto(log_returns, k) == 0,
    decreases k,
{
    let n = seed_count(log_returns);
    if k <= n {
        if n > 0 {
            lemma_still_tape_has_no_squares(log_returns, n);
        }
    } else {
        lemma_still_tape_has_no_variance(log_returns, k - 1);
        assert(LAMBDA_PERCENT == 94);
    }
}

/// A tape at one price has the floor for its volatility.
pub proof fn lemma_still_tape_is_at_floor(prices: Seq<u64>, log_returns: Seq<i64>)
    requires
        forall|i: int| 0 <= i < log_returns.len() ==> #[trigger] log_returns[i] == 0,
    ensures
        volatility_of(prices, log_returns) == volatility_floor_of(
            if prices.len() == 0 {
                FALLBACK_MID_PRICE as int
            } else if prices.len() == 1 {
                prices[0] as int
            } else {
                mean_price_of(prices)
            },
        ),
{
    if prices.len() >= 2 && log_returns.len() > 0 {
        lemma_still_tape_has_no_variance(log_returns, log_returns.len() as int);
        assert(is_sqrt(0, 0));
        lemma_sqrt_unique(0, 0, sqrt_of(0));
        let mean = mean_price_of(prices);
        assert(mean * 0 == 0) by (nonlinear_arith);
        let x = mean * MIN_VOLATILITY_BPS;
        assert(x >= 0) by (nonlinear_arith)
            requires
                x == mean * MIN_VOLATILITY_BPS,
                mean >= 0,
        ;
        lemma_div_pos_is_pos(x as int, PPB as int);
    }
}

/// Every number that is not negative has a square root.
pub proof fn lemma_sqrt_exists(x: int)
    requires
        x >= 0,
    ensures
        is_sqrt(x, sqrt_of(x)),
    decreases x,
{
    if x == 0 {
        assert(is_sqrt(0, 0));
    } else {
        lemma_sqrt_exists(x - 1);
        let r = sqrt_of(x - 1);
        if (r + 1) * (r + 1) <= x {
            assert((r + 2) * (r + 2) > (r + 1) * (r + 1)) by (nonlinear_arith)
                requires
                    r >= 0,
            ;
            assert(is_sqrt(x, r + 1));
        } else {
            assert(is_sqrt(x, r));
        }
    }
}

/// The square root never falls when the number rises.
pub proof fn lemma_sqrt_monotone(x: int, y: int)
    requires
        0 <= x <= y,
    ensures
        sqrt_of(x) <= sqrt_of(y),
{
    lemma_sqrt_exists(x);
    lemma_sqrt_exists(y);
    let r = sqrt_of(x);
    let s = sqrt_of(y);
    if r > s {
        assert((s + 1) * (s + 1) <= r * r) by (nonlinear_arith)
            requires
                0 <= s + 1 <= r,
        ;
    }
}

proof fn lemma_squares_monotone(calm: Seq<i64>, wild: Seq<i64>, k: int)
    requires
        calm.len() == wild.len(),
        forall|i: int|
            0 <= i < calm.len() ==> #[trigger] (calm[i] * calm[i]) <= wild[i] * wild[i],
        0 <= k <= calm.len(),
    ensures
        0 <= squares_sum(calm, k) <= squares_sum(wild, k),
    decreases k,
{
    if k > 0 {
        lemma_squares_monotone(calm, wild, k - 1);
        let c = calm[k - 1] * calm[k - 1];
        assert(c >= 0) by (nonlinear_arith)
            requires
                c == calm[k - 1] * calm[k - 1],
        ;
        assert(c <= wild[k - 1] * wild[k - 1]);
    }
}

/// Returns that are each at least as large in size give at least as much variance.
pub proof fn lemma_variance_monotone(calm: Seq<i64>, wild: Seq<i64>, k: int)
    requires
        calm.len() == wild.len(),
        forall|i: int|
            0 <= i < calm.len() ==> #[trigger] (calm[i] * calm[i]) <= wild[i] * wild[i],
        0 <= k <= calm.len(),
    ensures
        0 <= variance_upto(calm, k) <= variance_upto(wild, k),
    decreases k,
{
    let n = seed_count(calm);
    assert(n == seed_count(wild));
    if k <= n {
        if n > 0 {
            lemma_squares_monotone(calm, wild, n);
            lemma_div_is_ordered(squares_sum(calm, n), squares_sum(wild, n), n);
            lemma_div_pos_is_pos(squares_sum(calm, n), n);
        }
    } else {
        lemma_variance_monotone(calm, wild, k - 1);
        assert(LAMBDA_PERCENT == 94);
        let c = calm[k - 1] * calm[k - 1];
        let w = wild[k - 1] * wild[k - 1];
        assert(c >= 0) by (nonlinear_arith)
            requires
                c == calm[k - 1] * calm[k - 1],
        ;
        assert(c <= w);
    }
}

/// On the same prices, wider swings never give less volatility: if every
/// return is at least as large in size, the volatility is at least as great.
pub proof fn lemma_wider_swings_raise_volatility(prices: Seq<u64>, calm: Seq<i64>, wild: Seq<i64>)
    requires
        calm.len() == wild.len(),
        forall|i: int|
            0 <= i < calm.len() ==> #[trigger] (calm[i] * calm[i]) <= wild[i] * wild[i],
    ensures
        volatility_of(prices, calm) <= volatility_of(prices, wild),
{
    if prices.len() >= 2 && calm.len() > 0 {
        lemma_variance_monotone(calm, wild, calm.len() as int);
        lemma_sqrt_monotone(variance_of(calm), variance_of(wild));
        lemma_sqrt_exists(variance_of(calm));
        let mean = mean_price_of(prices);
        lemma_div_pos_is_pos(price_sum(prices) as int, prices.len() as int);
        let a = sqrt_of(variance_of(calm));
        let b = sqrt_of(variance_of(wild));
        assert(mean * a <= mean * b) by (nonlinear_arith)
            requires
                mean >= 0,
                a <= b,
        ;
        lemma_div_is_ordered(mean * a, mean * b, PPB as int);
    }
}

/// Whether every price is one that the engine accepts.
pub fn prices_in_range(prices: &Vec<u64>) -> (ok: bool)
    ensures
        ok == prices_valid(prices@),
{
    let mut i: usize = 0;
    while i < prices.len()
        invariant
            i <= prices@.len(),
            forall|k: int| 0 <= k < i ==> #[trigger] prices@[k] <= MAX_PRICE,
        decreases prices@.len() - i,
    {
        if prices[i] > MAX_PRICE {
            return false;
        }
        i += 1;
    }
    true
}

/// Whether every log-return is one that 64-bit prices can show.
pub fn log_returns_in_range(log_returns: &Vec<i64>) -> (ok: bool)
    ensures
        ok == log_returns_valid(log_returns@),
{
    let mut i: usize = 0;
    while i < log_returns.len()
        invariant
            i <= log_returns@.len(),
            forall|k: int|
                0 <= k < i ==> -MAX_LOG_RETURN <= #[trigger] log_returns@[k] <= MAX_LOG_RETURN,
        decreases log_returns@.len() - i,
    {
        if log_returns[i] < -44_361_419_556 || log_returns[i] > 44_361_419_556 {
            return false;
        }
        i += 1;
    }
    true
}

/// The variance of the log-returns, in parts per billion squared.
pub fn ewma_variance(log_returns: &Vec<i64>) -> (variance: u128)
    requires
        log_returns_valid(log_returns@),
    ensures
        variance == variance_of(log_returns@),
        variance <= 1_967_935_545_023_459_237_136,
{
    let n: usize = log_returns.len();
    let seed_n: usize = if n < 10 {
        n
    } else {
        10
    };
    if seed_n == 0 {
        return 0;
    }
    let mut sum: u128 = 0;
    let mut i: usize = 0;
    while i < seed_n
        invariant
            i <= seed_n <= n,
            seed_n <= 10,
            n == log_returns@.len(),
            log_returns_valid(log_returns@),
            sum == squares_sum(log_returns@, i as int),
        decreases seed_n - i,
    {
        proof {
            lemma_squares_sum_bound(log_returns@, i as int);
            lemma_square_bound(log_returns@[i as int]);
        }
        let r: i128 = log_returns[i] as i128;
        sum = sum + (r * r) as u128;
        i += 1;
    }
    let mut variance: u128 = sum / (seed_n as u128);
    proof {
        lemma_variance_bound(log_returns@, seed_n as int);
    }
    while i < n
        invariant
            seed_n <= i <= n,
            seed_n == seed_count(log_returns@),
            n == log_returns@.len(),
            log_returns_valid(log_returns@),
            variance == variance_upto(log_returns@, i as int),
            variance <= 1_967_935_545_023_459_237_136,
        decreases n - i,
    {
        proof {
            lemma_square_bound(log_returns@[i as int]);
            lemma_variance_bound(log_returns@, i + 1);
        }
        let r: i128 = log_returns[i] as i128;
        let square: u128 = (r * r) as u128;
        variance = (94 * variance + 6 * square) / 100;
        i += 1;
    }
    proof {
        lemma_variance_bound(log_returns@, n as int);
    }
    variance
}

/// The volatility of the tape, in yen: `prices` are the prices of its
/// prints, `log_returns` the log-returns between consecutive positive prices.
pub fn calculate_volatility(prices: &Vec<u64>, log_returns: &Vec<i64>) -> (volatility: u64)
    requires
        prices_valid(prices@),
        log_returns_valid(log_returns@),
    ensures
        volatility == volatility_of(prices@, log_returns@),
        volatility <= MAX_VOLATILITY,
{
    if prices.len() < 2 {
        let at: u64 = if prices.len() == 0 {
            6_500_000
        } else {
            prices[0]
        };
        return volatility_floor(at);
    }
    let mean: u64 = mean_price(prices);
    proof {
        lemma_mean_bound(prices@, MAX_PRICE);
    }
    let floor: u64 = volatility_floor(mean);
    if log_returns.len() == 0 {
        return floor;
    }
    let variance: u128 = ewma_variance(log_returns);
    let stddev: u64 = isqrt(variance);
    proof {
        assert(stddev <= 44_361_419_556) by {
            if stddev > 44_361_419_556 {
                assert(stddev * stddev >= 44_361_419_557 * 44_361_419_557) by (nonlinear_arith)
                    requires
                        stddev >= 44_361_419_557,
                ;
            }
        }
        assert(0 <= mean * stddev <= 1_000_000_000_000 * 44_361_419_556) by (nonlinear_arith)
            requires
                0 <= mean <= 1_000_000_000_000,
                0 <= stddev <= 44_361_419_556,
        ;
        lemma_div_is_ordered(
            mean * stddev,
            1_000_000_000_000int * 44_361_419_556int,
            1_000_000_000int,
        );
        lemma_div_pos_is_pos(mean * stddev, 1_000_000_000int);
        assert((1_000_000_000_000int * 44_361_419_556int) / 1_000_000_000int
            == 44_361_419_556_000int) by (nonlinear_arith);
    }
    let raw: u128 = (mean as u128 * stddev as u128) / 1_000_000_000;
    if raw > floor as u128 {
        raw as u64
    } else {
        floor
    }
}

} // verus!

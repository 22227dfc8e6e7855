//! The grid of spread levels on one side of the book, and the search for
//! the pair of levels with the greatest expected value.

use crate::bayes_prob::{BayesProb, BetaDistribution, Observation, PPB};
use crate::market::Execution;
use crate::model::{FloatingExp, MAX_FACTOR, MAX_PRICE, MAX_VOLATILITY};
use vstd::arithmetic::div_mod::{lemma_div_is_ordered, lemma_div_multiples_vanish, lemma_div_pos_is_pos};
use vstd::prelude::*;

verus! {

/// One level of a grid: its relative spread, the price that an order at
/// this level has at the current mid price, and its fill estimate.
#[derive(Debug, Clone)]
pub struct QuoteLevelState {
    pub level: FloatingExp,
    /// The level's relative spread, parts per billion.
    pub value: u64,
    /// The level's order price, yen.
    pub price: u64,
    pub estimator: BayesProb,
}

impl QuoteLevelState {
    /// The level has a value, the cached value is that value and no more
    /// than one, and the estimate is consistent with its window.
    pub open spec fn wf(&self) -> bool {
        &&& self.estimator.wf()
        &&& self.level.representable()
        &&& self.value == self.level.value_ppb()
        &&& self.value <= PPB
    }

    /// The level's fill probability, parts per billion.
    pub open spec fn fill_ppb(&self) -> int {
        self.estimator.posterior().mean_ppb()
    }
}

/// The levels of one side, ordered by rate; no rate occurs twice.
#[derive(Debug, Clone)]
pub struct QuoteGrid {
    pub levels: Vec<QuoteLevelState>,
}

impl View for QuoteGrid {
    type V = Seq<QuoteLevelState>;

    open spec fn view(&self) -> Seq<QuoteLevelState> {
        self.levels@
    }
}

/// Every level is well formed and the rates strictly increase.
pub open spec fn grid_wf(g: Seq<QuoteLevelState>) -> bool {
    &&& forall|i: int| 0 <= i < g.len() ==> (#[trigger] g[i]).wf()
    &&& forall|i: int, j: int|
        0 <= i < j < g.len() ==> (#[trigger] g[i]).level.rate < (#[trigger] g[j]).level.rate
}

/// Whether a grid takes the level `base ^ exp * rate`: its value is
/// representable and at most one.
pub open spec fn level_fits(base: u64, exp: i32, rate: u64) -> bool {
    let level = FloatingExp { base, exp, rate };
    level.representable() && level.value_ppb() <= PPB
}

/// How far from the mid price a level's order lies: `mid * value`, in yen, rounded down.
pub open spec fn offset_of(mid: u64, value: u64) -> int {
    (mid * value) / (PPB as int)
}

/// The price of a level's order: the mid price less the offset for a bid,
/// plus the offset for an ask.
pub open spec fn level_price_of(mid: u64, value: u64, is_buy: bool) -> int {
    if is_buy {
        mid - offset_of(mid, value)
    } else {
        mid + offset_of(mid, value)
    }
}

/// Whether a resting order at `price` would have filled against `tape`: a
/// bid fills on a print at or below its price, an ask on one at or above.
pub open spec fn crossed(tape: Seq<Execution>, price: u64, is_buy: bool) -> bool {
    exists|k: int|
        0 <= k < tape.len() && if is_buy {
            (#[trigger] tape[k]).price <= price
        } else {
            tape[k].price >= price
        }
}

/// The chance, scaled by `PPB * PPB`, that exactly one of two orders fills.
pub open spec fn one_sided_of(pb: int, ps: int) -> int {
    pb * (PPB - ps) + ps * (PPB - pb)
}

/// What an adverse move costs: `volatility * alpha`, in yen, rounded down.
pub open spec fn risk_of(volatility: u64, alpha: u64) -> int {
    (volatility * alpha) / (PPB as int)
}

/// The expected value of quoting a bid at spread `vb` with fill probability
/// `pb` and an ask at `vs` with `ps`, in yen scaled by `PPB * PPB`: the
/// captured spread when both fill, less the risk when only one does.
pub open spec fn expected_value_of(
    mid: u64,
    volatility: u64,
    alpha: u64,
    vb: u64,
    vs: u64,
    pb: int,
    ps: int,
) -> int {
    pb * ps * (level_price_of(mid, vs, false) - level_price_of(mid, vb, true)) - one_sided_of(
        pb,
        ps,
    ) * risk_of(volatility, alpha)
}

/// The expected value of a pair of levels.
pub open spec fn level_ev(
    mid: u64,
    volatility: u64,
    alpha: u64,
    buy: QuoteLevelState,
    sell: QuoteLevelState,
) -> int {
    expected_value_of(mid, volatility, alpha, buy.value, sell.value, buy.fill_ppb(), sell.fill_ppb())
}

/// The expected value of the pair (`i`, `j`) of two grids.
pub open spec fn pair_ev(
    mid: u64,
    volatility: u64,
    alpha: u64,
    buy: Seq<QuoteLevelState>,
    sell: Seq<QuoteLevelState>,
    i: int,
    j: int,
) -> int {
    level_ev(mid, volatility, alpha, buy[i], sell[j])
}

/// The order in which pairs are visited: bids outside, asks inside.
pub open spec fn visited_before(i2: int, j2: int, i: int, j: int) -> bool {
    i2 < i || (i2 == i && j2 < j)
}

/// (`i`, `j`) is the argmax of the expected value over the cross product,
/// and among equals the one visited first.
pub open spec fn is_best_pair(
    mid: u64,
    volatility: u64,
    alpha: u64,
    buy: Seq<QuoteLevelState>,
    sell: Seq<QuoteLevelState>,
    i: int,
    j: int,
) -> bool {
    &&& 0 <= i < buy.len()
    &&& 0 <= j < sell.len()
    &&& forall|i2: int, j2: int|
        0 <= i2 < buy.len() && 0 <= j2 < sell.len() ==> #[trigger] pair_ev(
            mid,
            volatility,
            alpha,
            buy,
            sell,
            i2,
            j2,
        ) <= pair_ev(mid, volatility, alpha, buy, sell, i, j)
    &&& forall|i2: int, j2: int|
        0 <= i2 < buy.len() && 0 <= j2 < sell.len() && visited_before(i2, j2, i, j)
            ==> #[trigger] pair_ev(mid, volatility, alpha, buy, sell, i2, j2) < pair_ev(
            mid,
            volatility,
            alpha,
            buy,
            sell,
            i,
            j,
        )
}

/// Two grids have at most one best pair.
pub proof fn lemma_best_pair_unique(
    mid: u64,
    volatility: u64,
    alpha: u64,
    buy: Seq<QuoteLevelState>,
    sell: Seq<QuoteLevelState>,
    i: int,
    j: int,
    k: int,
    l: int,
)
    requires
        is_best_pair(mid, volatility, alpha, buy, sell, i, j),
        is_best_pair(mid, volatility, alpha, buy, sell, k, l),
    ensures
        i == k,
        j == l,
{
    let a = pair_ev(mid, volatility, alpha, buy, sell, i, j);
    let b = pair_ev(mid, volatility, alpha, buy, sell, k, l);
    assert(a <= b && b <= a);
    if visited_before(i, j, k, l) {
        assert(a < b);
    }
    if visited_before(k, l, i, j) {
        assert(b < a);
    }
}

proof fn lemma_bounded_product(a: int, b: int, amax: int, bmax: int)
    by (nonlinear_arith)
    requires
        0 <= a <= amax,
        0 <= b <= bmax,
    ensures
        0 <= a * b <= amax * bmax,
{
}

/// The offset never exceeds the mid price while the spread is at most one.
pub proof fn lemma_offset_bound(mid: u64, value: u64)
    requires
        value <= PPB,
    ensures
        0 <= offset_of(mid, value) <= mid,
{
    lemma_bounded_product(value as int, mid as int, PPB as int, mid as int);
    assert(mid * value == value * mid) by (nonlinear_arith);
    assert(PPB * mid == (PPB as int) * (mid as int));
    lemma_div_pos_is_pos(mid * value, PPB as int);
    lemma_div_is_ordered(mid * value, (PPB as int) * (mid as int), PPB as int);
    lemma_div_multiples_vanish(mid as int, PPB as int);
}

/// `mid * value`, in yen, rounded down.
pub fn level_offset(mid: u64, value: u64) -> (offset: u64)
    requires
        value <= PPB,
    ensures
        offset == offset_of(mid, value),
        offset <= mid,
{
    proof {
        lemma_offset_bound(mid, value);
        lemma_bounded_product(mid as int, value as int, u64::MAX as int, PPB as int);
    }
    let product: u128 = mid as u128 * value as u128;
    (product / (PPB as u128)) as u64
}

/// The order price of a level at the mid price `mid`.
pub fn level_price(mid: u64, value: u64, is_buy: bool) -> (price: u64)
    requires
        value <= PPB,
        mid <= MAX_PRICE,
    ensures
        price == level_price_of(mid, value, is_buy),
        is_buy ==> price <= mid,
        !is_buy ==> mid <= price <= 2 * mid,
{
    let offset: u64 = level_offset(mid, value);
    if is_buy {
        mid - offset
    } else {
        mid + offset
    }
}

impl QuoteGrid {
    /// A grid without levels.
    pub fn new() -> (g: QuoteGrid)
        ensures
            g@.len() == 0,
            grid_wf(g@),
    {
        QuoteGrid { levels: Vec::new() }
    }

    /// Appends `level` with a fresh estimate. A level is taken only if its
    /// value is representable and at most one, and its rate exceeds every
    /// rate of the grid.
    pub fn add_level(&mut self, level: FloatingExp, prior: BetaDistribution, retain_ms: u64) -> (added:
        bool)
        requires
            grid_wf(old(self)@),
        ensures
            grid_wf(final(self)@),
            added == (level.representable() && level.value_ppb() <= PPB && (old(self)@.len() == 0
                || old(self)@.last().level.rate < level.rate)),
            !added ==> final(self)@ == old(self)@,
            added ==> {
                &&& final(self)@.len() == old(self)@.len() + 1
                &&& final(self)@.drop_last() == old(self)@
                &&& final(self)@.last().level == level
                &&& final(self)@.last().price == 0
                &&& final(self)@.last().estimator.prior() == prior
                &&& final(self)@.last().estimator.posterior() == prior
                &&& final(self)@.last().estimator.window() == retain_ms
                &&& final(self)@.last().estimator.observations().len() == 0
            },
    {
        let n: usize = self.levels.len();
        if n > 0 && self.levels[n - 1].level.rate >= level.rate {
            return false;
        }
        match level.try_calc() {
            Some(value) => {
                if value > PPB {
                    return false;
                }
                let state = QuoteLevelState {
                    level,
                    value,
                    price: 0,
                    estimator: BayesProb::new(prior, retain_ms),
                };
                self.levels.push(state);
                assert(self.levels@.drop_last() =~= old(self)@);
                assert forall|i: int, j: int| 0 <= i < j < self.levels@.len() implies (
                #[trigger] self.levels@[i]).level.rate < (#[trigger] self.levels@[j]).level.rate by {
                    if j == n {
                        if i < n - 1 {
                            assert(old(self)@[i].level.rate < old(self)@[n - 1].level.rate);
                        }
                    } else {
                        assert(old(self)@[i].level.rate < old(self)@[j].level.rate);
                    }
                }
                true
            },
            None => false,
        }
    }

    /// The grid of the rates `first` to `last` at one base and exponent,
    /// every level with a fresh estimate. `None` if a level is not taken.
    pub fn with_rates(
        base: u64,
        exp: i32,
        first: u64,
        last: u64,
        prior: BetaDistribution,
        retain_ms: u64,
    ) -> (grid: Option<QuoteGrid>)
        requires
            first <= last,
        ensures
            grid is Some <==> forall|rate: u64|
                first <= rate <= last ==> #[trigger] level_fits(base, exp, rate),
            grid matches Some(g) ==> {
                &&& grid_wf(g@)
                &&& g@.len() == last - first + 1
                &&& forall|i: int|
                    0 <= i < g@.len() ==> {
                        &&& (#[trigger] g@[i]).level == (FloatingExp {
                            base,
                            exp,
                            rate: (first + i) as u64,
                        })
                        &&& g@[i].price == 0
                        &&& g@[i].estimator.prior() == prior
                        &&& g@[i].estimator.posterior() == prior
                        &&& g@[i].estimator.window() == retain_ms
                        &&& g@[i].estimator.observations().len() == 0
                    }
            },
    {
        let mut grid = QuoteGrid::new();
        let mut rate: u64 = first;
        loop
            invariant
                first <= rate <= last,
                grid_wf(grid@),
                grid@.len() == rate - first,
                forall|r: u64| first <= r < rate ==> #[trigger] level_fits(base, exp, r),
                forall|i: int|
                    0 <= i < grid@.len() ==> {
                        &&& (#[trigger] grid@[i]).level == (FloatingExp {
                            base,
                            exp,
                            rate: (first + i) as u64,
                        })
                        &&& grid@[i].price == 0
                        &&& grid@[i].estimator.prior() == prior
                        &&& grid@[i].estimator.posterior() == prior
                        &&& grid@[i].estimator.window() == retain_ms
                        &&& grid@[i].estimator.observations().len() == 0
                    },
            decreases last - rate,
        {
            let level = FloatingExp::new(base, exp, rate);
            let ghost before = grid@;
            if !grid.add_level(level, prior, retain_ms) {
                proof {
                    if before.len() > 0 {
                        assert(before.last() == before[before.len() - 1]);
                    }
                    assert(!level_fits(base, exp, rate));
                }
                return None;
            }
            proof {
                assert forall|i: int| 0 <= i < grid@.len() implies {
                    &&& (#[trigger] grid@[i]).level == (FloatingExp {
                        base,
                        exp,
                        rate: (first + i) as u64,
                    })
                    &&& grid@[i].price == 0
                    &&& grid@[i].estimator.prior() == prior
                    &&& grid@[i].estimator.posterior() == prior
                    &&& grid@[i].estimator.window() == retain_ms
                    &&& grid@[i].estimator.observations().len() == 0
                } by {
                    if i < before.len() {
                        assert(grid@[i] == grid@.drop_last()[i]);
                    } else {
                        assert(grid@[i] == grid@.last());
                    }
                }
            }
            if rate == last {
                return Some(grid);
            }
            rate = rate + 1;
        }
    }

    pub fn len(&self) -> (n: usize)
        ensures
            n == self@.len(),
    {
        self.levels.len()
    }

    /// The position of the level with the rate `rate`.
    pub fn find_rate(&self, rate: u64) -> (found: Option<usize>)
        ensures
            match found {
                Some(i) => i < self@.len() && self@[i as int].level.rate == rate,
                None => forall|i: int| 0 <= i < self@.len() ==> (#[trigger] self@[i]).level.rate != rate,
            },
    {
        let mut i: usize = 0;
        while i < self.levels.len()
            invariant
                i <= self@.len(),
                forall|k: int| 0 <= k < i ==> (#[trigger] self@[k]).level.rate != rate,
            decreases self@.len() - i,
        {
            if self.levels[i].level.rate == rate {
                return Some(i);
            }
            i += 1;
        }
        None
    }
}

/// The fill probabilities of the first `k` levels, summed.
pub open spec fn fill_sum(g: Seq<QuoteLevelState>, k: int) -> int
    decreases k,
{
    if k <= 0 {
        0
    } else {
        fill_sum(g, k - 1) + g[k - 1].fill_ppb()
    }
}

/// The mean fill probability of a grid's levels, rounded down; 0 for an
/// empty grid.
pub open spec fn average_fill_of(g: Seq<QuoteLevelState>) -> int {
    if g.len() == 0 {
        0
    } else {
        fill_sum(g, g.len() as int) / (g.len() as int)
    }
}

proof fn lemma_fill_sum_bound(g: Seq<QuoteLevelState>, k: int)
    requires
        0 <= k <= g.len(),
    ensures
        0 <= fill_sum(g, k) <= k * PPB,
    decreases k,
{
    if k > 0 {
        lemma_fill_sum_bound(g, k - 1);
        g[k - 1].estimator.posterior().lemma_mean_is_probability();
        assert((k - 1) * PPB + PPB == k * PPB) by (nonlinear_arith);
    }
}

/// The mean fill probability of a grid's levels, parts per billion.
pub fn average_fill(grid: &QuoteGrid) -> (mean: u64)
    ensures
        mean == average_fill_of(grid@),
        mean <= PPB,
{
    let n: usize = grid.levels.len();
    if n == 0 {
        return 0;
    }
    let mut sum: u128 = 0;
    let mut i: usize = 0;
    while i < n
        invariant
            i <= n,
            n == grid@.len(),
            sum == fill_sum(grid@, i as int),
            sum <= i * PPB,
        decreases n - i,
    {
        proof {
            lemma_fill_sum_bound(grid@, i + 1);
            assert((i + 1) * PPB <= (usize::MAX as int) * PPB) by (nonlinear_arith)
                requires
                    i + 1 <= usize::MAX,
            ;
        }
        sum = sum + grid.levels[i].estimator.calc_average() as u128;
        i += 1;
    }
    proof {
        lemma_fill_sum_bound(grid@, n as int);
        lemma_div_is_ordered(sum as int, n * PPB, n as int);
        lemma_div_multiples_vanish(PPB as int, n as int);
        lemma_div_pos_is_pos(sum as int, n as int);
    }
    (sum / (n as u128)) as u64
}

/// Sets every level's order price from the mid price: below it on the bid
/// side, above it on the ask side.
pub fn update_order_prices(probabilities: &mut QuoteGrid, mid_price: u64, is_buy: bool)
    requires
        grid_wf(old(probabilities)@),
        mid_price <= MAX_PRICE,
    ensures
        grid_wf(final(probabilities)@),
        final(probabilities)@.len() == old(probabilities)@.len(),
        forall|i: int|
            0 <= i < final(probabilities)@.len() ==> {
                &&& (#[trigger] final(probabilities)@[i]).level == old(probabilities)@[i].level
                &&& final(probabilities)@[i].value == old(probabilities)@[i].value
                &&& final(probabilities)@[i].estimator == old(probabilities)@[i].estimator
                &&& final(probabilities)@[i].price == level_price_of(
                    mid_price,
                    old(probabilities)@[i].value,
                    is_buy,
                )
            },
{
    let n: usize = probabilities.levels.len();
    let mut i: usize = 0;
    while i < n
        invariant
            i <= n,
            n == old(probabilities)@.len(),
            probabilities@.len() == n,
            mid_price <= MAX_PRICE,
            grid_wf(old(probabilities)@),
            forall|k: int|
                0 <= k < n ==> {
                    &&& (#[trigger] probabilities@[k]).level == old(probabilities)@[k].level
                    &&& probabilities@[k].value == old(probabilities)@[k].value
                    &&& probabilities@[k].estimator == old(probabilities)@[k].estimator
                },
            forall|k: int|
                0 <= k < i ==> (#[trigger] probabilities@[k]).price == level_price_of(
                    mid_price,
                    old(probabilities)@[k].value,
                    is_buy,
                ),
        decreases n - i,
    {
        assert(old(probabilities)@[i as int].wf());
        let value: u64 = probabilities.levels[i].value;
        let price: u64 = level_price(mid_price, value, is_buy);
        let state = &mut probabilities.levels[i];
        state.price = price;
        i += 1;
    }
    assert forall|k: int| 0 <= k < probabilities@.len() implies (#[trigger] probabilities@[k]).wf() by {
        assert(old(probabilities)@[k].wf());
    }
    assert forall|a: int, b: int| 0 <= a < b < probabilities@.len() implies (
    #[trigger] probabilities@[a]).level.rate < (#[trigger] probabilities@[b]).level.rate by {
        assert(old(probabilities)@[a].level.rate < old(probabilities)@[b].level.rate);
    }
}

/// Whether any print of `tape` crosses `price`.
pub fn any_crossed(tape: &Vec<Execution>, price: u64, is_buy: bool) -> (hit: bool)
    ensures
        hit == crossed(tape@, price, is_buy),
{
    let mut i: usize = 0;
    while i < tape.len()
        invariant
            i <= tape@.len(),
            forall|k: int|
                0 <= k < i ==> !(if is_buy {
                    (#[trigger] tape@[k]).price <= price
                } else {
                    tape@[k].price >= price
                }),
        decreases tape@.len() - i,
    {
        let p: u64 = tape[i].price;
        if (is_buy && p <= price) || (!is_buy && p >= price) {
            return true;
        }
        i += 1;
    }
    false
}

/// What one level's window holds after `update_probabilities`: one more
/// trial, a success if the tape crossed the level's own price; a level
/// whose counters are full keeps what it had.
pub open spec fn level_after_tape(
    before: QuoteLevelState,
    tape: Seq<Execution>,
    is_buy: bool,
    now: u64,
) -> Seq<(u64, Observation)> {
    let r: u64 = if crossed(tape, before.price, is_buy) {
        1
    } else {
        0
    };
    if before.estimator.posterior().a + r <= u64::MAX && before.estimator.posterior().b + (1 - r)
        <= u64::MAX {
        before.estimator.observations_after(now, 1, r)
    } else {
        before.estimator.observations()
    }
}

/// Feeds every level one observation at the instant `now`: whether any
/// print crossed the price of that level.
pub fn update_probabilities(
    probabilities: &mut QuoteGrid,
    executions: &Vec<Execution>,
    is_buy: bool,
    now: u64,
)
    requires
        grid_wf(old(probabilities)@),
    ensures
        grid_wf(final(probabilities)@),
        final(probabilities)@.len() == old(probabilities)@.len(),
        forall|i: int|
            0 <= i < final(probabilities)@.len() ==> {
                &&& (#[trigger] final(probabilities)@[i]).level == old(probabilities)@[i].level
                &&& final(probabilities)@[i].value == old(probabilities)@[i].value
                &&& final(probabilities)@[i].price == old(probabilities)@[i].price
                &&& final(probabilities)@[i].estimator.prior() == old(
                    probabilities,
                )@[i].estimator.prior()
                &&& final(probabilities)@[i].estimator.window() == old(
                    probabilities,
                )@[i].estimator.window()
                &&& final(probabilities)@[i].estimator.observations() == level_after_tape(
                    old(probabilities)@[i],
                    executions@,
                    is_buy,
                    now,
                )
            },
{
    let n: usize = probabilities.levels.len();
    let mut i: usize = 0;
    while i < n
        invariant
            i <= n,
            n == old(probabilities)@.len(),
            probabilities@.len() == n,
            grid_wf(old(probabilities)@),
            forall|k: int|
                0 <= k < n ==> {
                    &&& (#[trigger] probabilities@[k]).level == old(probabilities)@[k].level
                    &&& probabilities@[k].value == old(probabilities)@[k].value
                    &&& probabilities@[k].price == old(probabilities)@[k].price
                    &&& probabilities@[k].estimator.prior() == old(
                        probabilities,
                    )@[k].estimator.prior()
                    &&& probabilities@[k].estimator.window() == old(
                        probabilities,
                    )@[k].estimator.window()
                    &&& probabilities@[k].estimator.wf()
                },
            forall|k: int| i <= k < n ==> (#[trigger] probabilities@[k]) == old(probabilities)@[k],
            forall|k: int|
                0 <= k < i ==> (#[trigger] probabilities@[k]).estimator.observations()
                    == level_after_tape(old(probabilities)@[k], executions@, is_buy, now),
        decreases n - i,
    {
        assert(old(probabilities)@[i as int].wf());
        let price: u64 = probabilities.levels[i].price;
        let filled: bool = any_crossed(executions, price, is_buy);
        let r: u64 = if filled {
            1
        } else {
            0
        };
        let state = &mut probabilities.levels[i];
        if state.estimator.accepts(1, r) {
            state.estimator.update_at(now, 1, r);
        }
        i += 1;
    }
    assert forall|k: int| 0 <= k < probabilities@.len() implies (#[trigger] probabilities@[k]).wf() by {
        assert(old(probabilities)@[k].wf());
    }
    assert forall|a: int, b: int| 0 <= a < b < probabilities@.len() implies (
    #[trigger] probabilities@[a]).level.rate < (#[trigger] probabilities@[b]).level.rate by {
        assert(old(probabilities)@[a].level.rate < old(probabilities)@[b].level.rate);
    }
}

/// The expected value of quoting `buy` and `sell` around `mid_price`, in yen
/// scaled by `PPB * PPB`.
pub fn expected_value(
    mid_price: u64,
    volatility: u64,
    alpha: u64,
    buy: &QuoteLevelState,
    sell: &QuoteLevelState,
) -> (ev: i128)
    requires
        mid_price <= MAX_PRICE,
        volatility <= MAX_VOLATILITY,
        alpha <= MAX_FACTOR,
        buy.wf(),
        sell.wf(),
    ensures
        ev == level_ev(mid_price, volatility, alpha, *buy, *sell),
{
    let pb: i128 = buy.estimator.calc_average() as i128;
    let ps: i128 = sell.estimator.calc_average() as i128;
    let buy_price: u64 = level_price(mid_price, buy.value, true);
    let sell_price: u64 = level_price(mid_price, sell.value, false);
    let spread: i128 = (sell_price - buy_price) as i128;
    proof {
        lemma_bounded_product(pb as int, ps as int, PPB as int, PPB as int);
        lemma_bounded_product(
            (pb * ps) as int,
            spread as int,
            1_000_000_000_000_000_000,
            2_000_000_000_000,
        );
        lemma_bounded_product(pb as int, (PPB - ps) as int, PPB as int, PPB as int);
        lemma_bounded_product(ps as int, (PPB - pb) as int, PPB as int, PPB as int);
        lemma_bounded_product(
            volatility as int,
            alpha as int,
            100_000_000_000_000,
            1_000_000_000_000,
        );
    }
    let both: i128 = pb * ps;
    let profit: i128 = both * spread;
    let ppb: i128 = PPB as i128;
    let one_sided: i128 = pb * (ppb - ps) + ps * (ppb - pb);
    let exposure: u128 = volatility as u128 * alpha as u128;
    let risk: i128 = (exposure / (PPB as u128)) as i128;
    proof {
        assert(PPB == 1_000_000_000);
        assert(exposure <= 100_000_000_000_000_000_000_000_000);
        lemma_div_is_ordered(
            exposure as int,
            100_000_000_000_000_000_000_000_000,
            1_000_000_000int,
        );
        lemma_div_pos_is_pos(exposure as int, 1_000_000_000int);
        assert(100_000_000_000_000_000_000_000_000int / 1_000_000_000int
            == 100_000_000_000_000_000int) by (nonlinear_arith);
        assert(0 <= risk <= 100_000_000_000_000_000);
        lemma_bounded_product(
            one_sided as int,
            risk as int,
            2_000_000_000_000_000_000,
            100_000_000_000_000_000,
        );
    }
    let loss: i128 = one_sided * risk;
    profit - loss
}

/// The positions of the pair with the greatest expected value; among equal
/// pairs the one visited first. `None` if a grid is empty.
pub fn best_pair(
    mid_price: u64,
    volatility: u64,
    alpha: u64,
    buy: &QuoteGrid,
    sell: &QuoteGrid,
) -> (best: Option<(usize, usize, i128)>)
    requires
        mid_price <= MAX_PRICE,
        volatility <= MAX_VOLATILITY,
        alpha <= MAX_FACTOR,
        grid_wf(buy@),
        grid_wf(sell@),
    ensures
        best is None <==> (buy@.len() == 0 || sell@.len() == 0),
        best matches Some((i, j, ev)) ==> is_best_pair(
            mid_price,
            volatility,
            alpha,
            buy@,
            sell@,
            i as int,
            j as int,
        ) && ev == pair_ev(mid_price, volatility, alpha, buy@, sell@, i as int, j as int),
{
    let nb: usize = buy.levels.len();
    let ns: usize = sell.levels.len();
    if nb == 0 || ns == 0 {
        return None;
    }
    let mut bi: usize = 0;
    let mut bj: usize = 0;
    let mut bev: i128 = expected_value(mid_price, volatility, alpha, &buy.levels[0], &sell.levels[0]);
    let mut i: usize = 0;
    while i < nb
        invariant
            i <= nb,
            nb == buy@.len(),
            ns == sell@.len(),
            ns > 0,
            mid_price <= MAX_PRICE,
            volatility <= MAX_VOLATILITY,
            alpha <= MAX_FACTOR,
            grid_wf(buy@),
            grid_wf(sell@),
            bi < nb,
            bj < ns,
            bev == pair_ev(mid_price, volatility, alpha, buy@, sell@, bi as int, bj as int),
            (bi == 0 && bj == 0) || visited_before(bi as int, bj as int, i as int, 0),
            forall|i2: int, j2: int|
                0 <= i2 < nb && 0 <= j2 < ns && visited_before(i2, j2, i as int, 0)
                    ==> #[trigger] pair_ev(mid_price, volatility, alpha, buy@, sell@, i2, j2) <= bev,
            forall|i2: int, j2: int|
                0 <= i2 < nb && 0 <= j2 < ns && visited_before(i2, j2, bi as int, bj as int)
                    ==> #[trigger] pair_ev(mid_price, volatility, alpha, buy@, sell@, i2, j2) < bev,
        decreases nb - i,
    {
        let mut j: usize = 0;
        while j < ns
            invariant
                i < nb,
                j <= ns,
                nb == buy@.len(),
                ns == sell@.len(),
                mid_price <= MAX_PRICE,
                volatility <= MAX_VOLATILITY,
                alpha <= MAX_FACTOR,
                grid_wf(buy@),
                grid_wf(sell@),
                bi < nb,
                bj < ns,
                bev == pair_ev(mid_price, volatility, alpha, buy@, sell@, bi as int, bj as int),
                (bi == 0 && bj == 0) || visited_before(bi as int, bj as int, i as int, j as int),
                forall|i2: int, j2: int|
                    0 <= i2 < nb && 0 <= j2 < ns && visited_before(i2, j2, i as int, j as int)
                        ==> #[trigger] pair_ev(mid_price, volatility, alpha, buy@, sell@, i2, j2)
                        <= bev,
                forall|i2: int, j2: int|
                    0 <= i2 < nb && 0 <= j2 < ns && visited_before(i2, j2, bi as int, bj as int)
                        ==> #[trigger] pair_ev(mid_price, volatility, alpha, buy@, sell@, i2, j2)
                        < bev,
            decreases ns - j,
        {
            assert(buy@[i as int].wf());
            assert(sell@[j as int].wf());
            let ev: i128 = expected_value(
                mid_price,
                volatility,
                alpha,
                &buy.levels[i],
                &sell.levels[j],
            );
            assert(ev == pair_ev(mid_price, volatility, alpha, buy@, sell@, i as int, j as int));
            if ev > bev {
                bi = i;
                bj = j;
                bev = ev;
            }
            j += 1;
        }
        i += 1;
    }
    Some((bi, bj, bev))
}

/// The pair of levels with the greatest expected value, ties going to the
/// pair visited first; `None` if a grid is empty.
pub fn maximize_expected_value(
    mid_price: u64,
    volatility: u64,
    alpha: u64,
    buy: &QuoteGrid,
    sell: &QuoteGrid,
) -> (best: Option<(FloatingExp, FloatingExp)>)
    requires
        mid_price <= MAX_PRICE,
        volatility <= MAX_VOLATILITY,
        alpha <= MAX_FACTOR,
        grid_wf(buy@),
        grid_wf(sell@),
    ensures
        best is None <==> (buy@.len() == 0 || sell@.len() == 0),
        best matches Some((b, s)) ==> exists|i: int, j: int|
            #[trigger] is_best_pair(mid_price, volatility, alpha, buy@, sell@, i, j) && b
                == buy@[i].level && s == sell@[j].level,
{
    match best_pair(mid_price, volatility, alpha, buy, sell) {
        Some((i, j, _)) => Some((buy.levels[i].level, sell.levels[j].level)),
        None => None,
    }
}

} // verus!

//! One cycle of the decision loop, as a chain of decisions. The caller
//! runs the loop: it sleeps, reads the clock and the exchange, and hands
//! each answer to the next step.

use crate::bayes_prob::PPB;
use crate::logging::metrics_logger::MetricsSnapshot;
use crate::market::{last_price, Execution};
use crate::market::{breaker_trips, circuit_breaker_tripped, prices};
use crate::model::{
    BotConfig, FloatingExp, OrderInfo, OrderSide, Position, MAX_FACTOR, MAX_PRICE, MAX_VOLATILITY,
};
use crate::order_book::BookLevel;
use crate::volatility::{
    calculate_volatility, log_returns_in_range, log_returns_valid, prices_in_range, prices_valid,
    volatility_of,
};
use crate::order_book::{mid_price, mid_price_of, pruned, OrderBookSide, MAX_KEEP_BOARD_PRICE};
use crate::pricing::{
    base_buy_price_of, base_sell_price_of, buy_adjustment_of, calculate_order_prices,
    calculate_spread_adjustment, calculate_t_optimal, is_trading_hour, scale, scaled_of,
    sell_adjustment_of, t_optimal_of, POSITION_PENALTY, TRADING_HOURS_END,
};
use crate::quote::{
    best_pair, grid_wf, is_best_pair, level_after_tape, level_price_of, pair_ev,
    update_order_prices, update_probabilities, QuoteGrid, QuoteLevelState,
};
use crate::risk::{evaluate_stop_loss, stop_loss_due, stop_loss_plan_of, RiskStateMachine, StopLossPlan};
use crate::sizing::{calculate_order_sizes, effective_order_size, order_size_of};
use vstd::prelude::*;

verus! {

/// Milliseconds without market data after which the feed counts as stale.
pub const WS_STALE_THRESHOLD_MS: u64 = 60_000;

/// Every so many cycles the loop reports that it is alive.
pub const HEARTBEAT_INTERVAL: u64 = 20;

/// Every so many quoting cycles the collateral is read again.
pub const COLLATERAL_REFRESH_INTERVAL: u64 = 10;

/// The largest size, in size units, that a side of the position may have
/// for the pricing to accept it: twenty-one million coins.
pub const MAX_SIZE: u64 = 2_100_000_000_000_000;

/// What the loop counts from cycle to cycle.
#[derive(Debug, Clone, Copy)]
pub struct CycleCounters {
    pub heartbeat: u64,
    pub ws_stale: u64,
    pub empty_executions: u64,
    pub collateral_refresh: u64,
}

/// How loudly a skipped cycle is reported.
#[derive(Debug, Clone, Copy, PartialEq, Eq, Structural)]
pub enum Notice {
    Quiet,
    Warn,
    Error,
}

/// Whether the market data allow a decision.
#[derive(Debug, Clone, Copy, PartialEq, Eq, Structural)]
pub enum FeedVerdict {
    Proceed,
    /// No message for `age_ms`; `report` says whether this cycle logs it.
    StaleFeed { age_ms: u64, consecutive: u64, report: bool },
    /// The tape is empty.
    NoExecutions { consecutive: u64, notice: Notice },
}

/// A counter after one more event; it stops at the largest number.
pub open spec fn bumped(count: u64) -> u64 {
    if count == u64::MAX {
        count
    } else {
        (count + 1) as u64
    }
}

/// The feed is stale if a message was ever seen and the last one is older
/// than the threshold.
pub open spec fn feed_is_stale(now: u64, last_message: u64) -> bool {
    last_message > 0 && now - last_message > WS_STALE_THRESHOLD_MS
}

/// A stale feed is reported the first time and then every twentieth.
pub open spec fn stale_is_reported(consecutive: u64) -> bool {
    consecutive == 1 || consecutive % 20 == 0
}

/// An empty tape is a warning the first three times, then an error every tenth.
pub open spec fn empty_notice_of(consecutive: u64) -> Notice {
    if consecutive <= 3 {
        Notice::Warn
    } else if consecutive % 10 == 0 {
        Notice::Error
    } else {
        Notice::Quiet
    }
}

pub open spec fn feed_verdict_of(
    counters: CycleCounters,
    now: u64,
    last_message: u64,
    executions: nat,
) -> FeedVerdict {
    if feed_is_stale(now, last_message) {
        FeedVerdict::StaleFeed {
            age_ms: (now - last_message) as u64,
            consecutive: bumped(counters.ws_stale),
            report: stale_is_reported(bumped(counters.ws_stale)),
        }
    } else if executions == 0 {
        FeedVerdict::NoExecutions {
            consecutive: bumped(counters.empty_executions),
            notice: empty_notice_of(bumped(counters.empty_executions)),
        }
    } else {
        FeedVerdict::Proceed
    }
}

/// The counters after the feed was checked: the heartbeat counts every
/// cycle; a run of stale cycles, or of cycles with an empty tape, is
/// counted until a cycle breaks it.
pub open spec fn counters_after_feed(
    counters: CycleCounters,
    now: u64,
    last_message: u64,
    executions: nat,
) -> CycleCounters {
    if feed_is_stale(now, last_message) {
        CycleCounters {
            heartbeat: bumped(counters.heartbeat),
            ws_stale: bumped(counters.ws_stale),
            ..counters
        }
    } else if executions == 0 {
        CycleCounters {
            heartbeat: bumped(counters.heartbeat),
            ws_stale: 0,
            empty_executions: bumped(counters.empty_executions),
            ..counters
        }
    } else {
        CycleCounters {
            heartbeat: bumped(counters.heartbeat),
            ws_stale: 0,
            empty_executions: 0,
            ..counters
        }
    }
}

fn bump(count: u64) -> (next: u64)
    ensures
        next == bumped(count),
{
    if count == u64::MAX {
        count
    } else {
        count + 1
    }
}

impl CycleCounters {
    pub fn new() -> (c: CycleCounters)
        ensures
            c == (CycleCounters {
                heartbeat: 0,
                ws_stale: 0,
                empty_executions: 0,
                collateral_refresh: 0,
            }),
    {
        CycleCounters { heartbeat: 0, ws_stale: 0, empty_executions: 0, collateral_refresh: 0 }
    }

    /// Opens a cycle: counts it and decides whether the market data allow
    /// a decision. With the verdict comes whether a heartbeat is due.
    pub fn check_feed(&mut self, now: u64, last_message: u64, executions: usize) -> (r: (
        FeedVerdict,
        bool,
    ))
        ensures
            r.0 == feed_verdict_of(*old(self), now, last_message, executions as nat),
            r.1 == (bumped(old(self).heartbeat) % HEARTBEAT_INTERVAL == 0),
            *final(self) == counters_after_feed(*old(self), now, last_message, executions as nat),
    {
        self.heartbeat = bump(self.heartbeat);
        let heartbeat_due: bool = self.heartbeat % 20 == 0;
        if last_message > 0 && now > last_message && now - last_message > 60_000 {
            self.ws_stale = bump(self.ws_stale);
            let consecutive: u64 = self.ws_stale;
            return (
                FeedVerdict::StaleFeed {
                    age_ms: now - last_message,
                    consecutive,
                    report: consecutive == 1 || consecutive % 20 == 0,
                },
                heartbeat_due,
            );
        }
        self.ws_stale = 0;
        if executions == 0 {
            self.empty_executions = bump(self.empty_executions);
            let consecutive: u64 = self.empty_executions;
            let notice = if consecutive <= 3 {
                Notice::Warn
            } else if consecutive % 10 == 0 {
                Notice::Error
            } else {
                Notice::Quiet
            };
            return (FeedVerdict::NoExecutions { consecutive, notice }, heartbeat_due);
        }
        self.empty_executions = 0;
        (FeedVerdict::Proceed, heartbeat_due)
    }

    /// Counts a quoting cycle and says whether the collateral is to be read again.
    pub fn collateral_refresh_due(&mut self) -> (due: bool)
        ensures
            final(self).collateral_refresh == bumped(old(self).collateral_refresh),
            final(self).heartbeat == old(self).heartbeat,
            final(self).ws_stale == old(self).ws_stale,
            final(self).empty_executions == old(self).empty_executions,
            due == (bumped(old(self).collateral_refresh) % COLLATERAL_REFRESH_INTERVAL == 0),
    {
        self.collateral_refresh = bump(self.collateral_refresh);
        self.collateral_refresh % 10 == 0
    }
}

/// The prices that a cycle quotes around.
#[derive(Debug, Clone, Copy)]
pub struct MarketView {
    /// The last traded price; 0 on an empty tape.
    pub ltp: u64,
    /// The lowest ask; 0 if there is none.
    pub best_ask: u64,
    /// The highest bid; 0 if there is none.
    pub best_bid: u64,
    pub mid_price: u64,
}

/// The market as the book shows it once it is pruned around the last price.
pub open spec fn market_view_of(
    asks: Seq<BookLevel>,
    bids: Seq<BookLevel>,
    tape: Seq<Execution>,
) -> MarketView {
    let ltp: u64 = if tape.len() == 0 {
        0
    } else {
        tape.last().price
    };
    let kept_asks = pruned(asks, ltp, MAX_KEEP_BOARD_PRICE, true);
    let kept_bids = pruned(bids, ltp, MAX_KEEP_BOARD_PRICE, false);
    let best_ask: u64 = if kept_asks.len() == 0 {
        0
    } else {
        kept_asks[0].price
    };
    let best_bid: u64 = if kept_bids.len() == 0 {
        0
    } else {
        kept_bids.last().price
    };
    MarketView { ltp, best_ask, best_bid, mid_price: mid_price_of(best_ask, best_bid) as u64 }
}

/// Prunes both sides of the book around the last traded price and reads
/// the best prices and the mid price off what is left.
pub fn refresh_market(asks: &mut OrderBookSide, bids: &mut OrderBookSide, tape: &Vec<Execution>) -> (view:
    MarketView)
    requires
        old(asks).wf(),
        old(bids).wf(),
    ensures
        final(asks).wf(),
        final(bids).wf(),
        final(asks)@ == pruned(old(asks)@, view.ltp, MAX_KEEP_BOARD_PRICE, true),
        final(bids)@ == pruned(old(bids)@, view.ltp, MAX_KEEP_BOARD_PRICE, false),
        view == market_view_of(old(asks)@, old(bids)@, tape@),
{
    let ltp: u64 = last_price(tape);
    asks.prune(ltp, 100_000, true);
    bids.prune(ltp, 100_000, false);
    let best_ask: u64 = asks.lowest();
    let best_bid: u64 = bids.highest();
    MarketView { ltp, best_ask, best_bid, mid_price: mid_price(best_ask, best_bid) }
}

/// The pair of levels that a cycle quotes.
#[derive(Debug, Clone, Copy)]
pub struct BestQuote {
    pub buy: FloatingExp,
    pub sell: FloatingExp,
    /// The relative spreads of the two levels, parts per billion.
    pub buy_value: u64,
    pub sell_value: u64,
    /// The fill probabilities of the two levels, parts per billion.
    pub buy_fill: u64,
    pub sell_fill: u64,
    /// The expected value of the pair, yen scaled by `PPB * PPB`.
    pub expected_value: i128,
}

/// What a cycle does to one level: the price follows the mid price, and
/// the estimate takes one observation against that new price.
pub open spec fn level_requoted(
    before: QuoteLevelState,
    after: QuoteLevelState,
    tape: Seq<Execution>,
    mid: u64,
    is_buy: bool,
    now: u64,
) -> bool {
    &&& after.level == before.level
    &&& after.value == before.value
    &&& after.price == level_price_of(mid, before.value, is_buy)
    &&& after.estimator.prior() == before.estimator.prior()
    &&& after.estimator.window() == before.estimator.window()
    &&& after.estimator.observations() == level_after_tape(
        QuoteLevelState { price: after.price, ..before },
        tape,
        is_buy,
        now,
    )
}

/// What a cycle does to a grid: every level is requoted.
pub open spec fn requoted(
    before: Seq<QuoteLevelState>,
    after: Seq<QuoteLevelState>,
    tape: Seq<Execution>,
    mid: u64,
    is_buy: bool,
    now: u64,
) -> bool {
    &&& after.len() == before.len()
    &&& forall|i: int|
        0 <= i < after.len() ==> level_requoted(before[i], #[trigger] after[i], tape, mid, is_buy, now)
}

/// Brings both grids up to the mid price and the tape of this cycle, in
/// that order, and picks the pair with the greatest expected value: first
/// every level's price is set from the mid price, then every level's
/// estimate takes one observation against that price, then the grids are
/// searched.
pub fn requote(
    buy: &mut QuoteGrid,
    sell: &mut QuoteGrid,
    tape: &Vec<Execution>,
    mid: u64,
    volatility: u64,
    alpha: u64,
    now: u64,
) -> (best: Option<BestQuote>)
    requires
        grid_wf(old(buy)@),
        grid_wf(old(sell)@),
        mid <= MAX_PRICE,
        volatility <= MAX_VOLATILITY,
        alpha <= MAX_FACTOR,
    ensures
        grid_wf(final(buy)@),
        grid_wf(final(sell)@),
        final(buy)@.len() == old(buy)@.len(),
        final(sell)@.len() == old(sell)@.len(),
        requoted(old(buy)@, final(buy)@, tape@, mid, true, now),
        requoted(old(sell)@, final(sell)@, tape@, mid, false, now),
        best is None <==> (final(buy)@.len() == 0 || final(sell)@.len() == 0),
        best matches Some(q) ==> exists|i: int, j: int|
            {
                &&& #[trigger] is_best_pair(mid, volatility, alpha, final(buy)@, final(sell)@, i, j)
                &&& q.buy == final(buy)@[i].level
                &&& q.sell == final(sell)@[j].level
                &&& q.buy_value == final(buy)@[i].value
                &&& q.sell_value == final(sell)@[j].value
                &&& q.buy_fill == final(buy)@[i].fill_ppb()
                &&& q.sell_fill == final(sell)@[j].fill_ppb()
                &&& q.expected_value == pair_ev(
                    mid,
                    volatility,
                    alpha,
                    final(buy)@,
                    final(sell)@,
                    i,
                    j,
                )
            },
{
    update_order_prices(buy, mid, true);
    update_order_prices(sell, mid, false);
    let ghost priced_buy = buy@;
    let ghost priced_sell = sell@;
    update_probabilities(buy, tape, true, now);
    update_probabilities(sell, tape, false, now);
    proof {
        assert forall|i: int| 0 <= i < buy@.len() implies level_requoted(
            old(buy)@[i],
            #[trigger] buy@[i],
            tape@,
            mid,
            true,
            now,
        ) by {
            assert(priced_buy[i].estimator == old(buy)@[i].estimator);
        }
        assert forall|i: int| 0 <= i < sell@.len() implies level_requoted(
            old(sell)@[i],
            #[trigger] sell@[i],
            tape@,
            mid,
            false,
            now,
        ) by {
            assert(priced_sell[i].estimator == old(sell)@[i].estimator);
        }
    }
    match best_pair(mid, volatility, alpha, buy, sell) {
        Some((i, j, ev)) => {
            assert(buy@[i as int].wf());
            assert(sell@[j as int].wf());
            Some(
                BestQuote {
                    buy: buy.levels[i].level,
                    sell: sell.levels[j].level,
                    buy_value: buy.levels[i].value,
                    sell_value: sell.levels[j].value,
                    buy_fill: buy.levels[i].estimator.calc_average(),
                    sell_fill: sell.levels[j].estimator.calc_average(),
                    expected_value: ev,
                },
            )
        },
        None => None,
    }
}

/// Whether the stop-loss fires in this cycle: it is not held back by a
/// cooldown, and the loss at the mid price calls for it.
pub open spec fn stop_loss_fires(
    risk: RiskStateMachine,
    now: u64,
    position: Position,
    mid: u64,
    min_lot: u64,
    stop_loss: u64,
) -> bool {
    risk.may_stop_loss(now) && stop_loss_due(position, mid, min_lot, stop_loss)
}

/// Clears the cooldowns that have passed and decides whether the position
/// is closed at market. A plan is not yet an order: the position is first
/// asked for once more (`confirm_stop_loss`).
pub fn check_stop_loss(
    risk: &mut RiskStateMachine,
    now: u64,
    position: &Position,
    mid: u64,
    min_lot: u64,
    stop_loss: u64,
) -> (plan: Option<StopLossPlan>)
    requires
        mid <= MAX_PRICE,
        position.long_open_price <= MAX_PRICE,
        position.short_open_price <= MAX_PRICE,
    ensures
        *final(risk) == old(risk).expired_at(now),
        plan is Some <==> stop_loss_fires(*old(risk), now, *position, mid, min_lot, stop_loss),
        plan matches Some(p) ==> p == stop_loss_plan_of(*position, mid, min_lot),
{
    risk.expire(now);
    if !risk.can_evaluate_stop_loss(now) {
        return None;
    }
    evaluate_stop_loss(position, mid, min_lot, stop_loss)
}

/// Volatility as a fraction of the mid price, parts per billion; 0 without
/// a mid price, and no more than 64 bits hold.
pub open spec fn sigma_of(volatility: u64, mid: u64) -> int {
    if mid == 0 {
        0
    } else if (volatility * PPB) / (mid as int) > u64::MAX {
        u64::MAX as int
    } else {
        (volatility * PPB) / (mid as int)
    }
}

/// The mean of the two relative spreads, rounded down.
pub open spec fn average_spread_of(buy_value: u64, sell_value: u64) -> int {
    (buy_value + sell_value) / 2
}

/// How long the orders of this cycle may rest, with the volatility that
/// it was derived from: `(sigma, lifetime in ms)`.
pub fn order_lifetime(
    mid: u64,
    volatility: u64,
    buy_value: u64,
    sell_value: u64,
    min_ms: u64,
    max_ms: u64,
) -> (r: (u64, u64))
    requires
        min_ms <= max_ms,
        buy_value <= PPB,
        sell_value <= PPB,
    ensures
        r.0 == sigma_of(volatility, mid),
        r.1 == t_optimal_of(
            average_spread_of(buy_value, sell_value) as u64,
            r.0,
            min_ms,
            max_ms,
        ),
        min_ms <= r.1 <= max_ms,
{
    let sigma: u64 = if mid == 0 {
        0
    } else {
        assert(0 <= volatility * PPB <= u64::MAX * PPB) by (nonlinear_arith)
            requires
                0 <= volatility <= u64::MAX,
        ;
        let q: u128 = (volatility as u128 * PPB as u128) / (mid as u128);
        if q > u64::MAX as u128 {
            u64::MAX
        } else {
            q as u64
        }
    };
    let spread: u64 = ((buy_value as u128 + sell_value as u128) / 2) as u64;
    assert(spread <= MAX_FACTOR);
    (sigma, calculate_t_optimal(spread, sigma, min_ms, max_ms))
}

/// A relative spread in percent, in billionths of a percent; 0 without a mid price.
pub open spec fn percent_of(value: u64, mid: u64) -> int {
    if mid == 0 {
        0
    } else {
        value * 100
    }
}

/// The snapshot that a cycle leaves in the metrics log.
pub fn metrics_snapshot(
    timestamp: String,
    view: &MarketView,
    volatility: u64,
    best: &BestQuote,
    position: &Position,
    collateral: i64,
    buy_prob_avg: u64,
    sell_prob_avg: u64,
    sigma_1s: u64,
    t_optimal_ms: u64,
) -> (snapshot: MetricsSnapshot)
    requires
        best.buy_value <= PPB,
        best.sell_value <= PPB,
    ensures
        snapshot.timestamp@ == timestamp@,
        snapshot.mid_price == view.mid_price,
        snapshot.best_bid == view.best_bid,
        snapshot.best_ask == view.best_ask,
        snapshot.spread == view.best_ask - view.best_bid,
        snapshot.volatility == volatility,
        snapshot.best_ev == best.expected_value,
        snapshot.buy_spread_pct == percent_of(best.buy_value, view.mid_price),
        snapshot.sell_spread_pct == percent_of(best.sell_value, view.mid_price),
        snapshot.long_size == position.long_size,
        snapshot.short_size == position.short_size,
        snapshot.collateral == collateral,
        snapshot.buy_prob_avg == buy_prob_avg,
        snapshot.sell_prob_avg == sell_prob_avg,
        snapshot.sigma_1s == sigma_1s,
        snapshot.t_optimal_ms == t_optimal_ms,
{
    let quoted: bool = view.mid_price > 0;
    MetricsSnapshot {
        timestamp,
        mid_price: view.mid_price,
        best_bid: view.best_bid,
        best_ask: view.best_ask,
        spread: view.best_ask as i128 - view.best_bid as i128,
        volatility,
        best_ev: best.expected_value,
        buy_spread_pct: if quoted {
            best.buy_value * 100
        } else {
            0
        },
        sell_spread_pct: if quoted {
            best.sell_value * 100
        } else {
            0
        },
        long_size: position.long_size,
        short_size: position.short_size,
        collateral,
        buy_prob_avg,
        sell_prob_avg,
        sigma_1s,
        t_optimal_ms,
    }
}

/// What the pricing and sizing of one cycle start from.
#[derive(Debug, Clone, Copy)]
pub struct QuoteInputs {
    pub mid_price: u64,
    pub best_bid: u64,
    pub best_ask: u64,
    /// The chosen levels.
    pub buy: FloatingExp,
    pub sell: FloatingExp,
    pub position: Position,
    /// The size of the resting orders that open a long or a short position.
    pub pending_buy: u128,
    pub pending_sell: u128,
    /// The sizes that the taper of the position proposes.
    pub tapered_buy: u64,
    pub tapered_sell: u64,
    pub min_lot: u64,
    pub max_position: u64,
    /// Share of the spread that a closing order keeps, parts per billion.
    pub close_spread_factor: u64,
    /// The hour of the day, UTC.
    pub utc_hour: u32,
}

/// An order that the cycle wants sent.
#[derive(Debug, Clone, Copy)]
pub struct PlannedOrder {
    pub side: OrderSide,
    pub price: u64,
    pub size: u64,
    pub is_close: bool,
}

#[derive(Debug, Clone, Copy)]
pub struct OrderPlan {
    pub buy: Option<PlannedOrder>,
    pub sell: Option<PlannedOrder>,
}

impl QuoteInputs {
    /// The inputs are within what the arithmetic holds.
    pub open spec fn wf(&self) -> bool {
        &&& self.mid_price <= MAX_PRICE
        &&& self.min_lot > 0
        &&& self.position.long_size <= MAX_SIZE
        &&& self.position.short_size <= MAX_SIZE
        &&& self.buy.representable() && self.buy.value_ppb() <= PPB
        &&& self.sell.representable() && self.sell.value_ppb() <= PPB
    }

    pub open spec fn base_buy(&self) -> int {
        base_buy_price_of(
            self.mid_price,
            self.buy.value_ppb() as u64,
            self.position,
            POSITION_PENALTY,
            self.min_lot,
        )
    }

    pub open spec fn base_sell(&self) -> int {
        base_sell_price_of(
            self.mid_price,
            self.sell.value_ppb() as u64,
            self.position,
            POSITION_PENALTY,
            self.min_lot,
        )
    }

    /// The bid that opens a position: the bid's distance from the mid
    /// price scaled by the inventory adjustment, and never above the best bid.
    pub open spec fn open_buy_price(&self) -> int {
        let adjusted = self.mid_price - signed_scaled_of(
            self.mid_price - self.base_buy(),
            buy_adjustment_of(self.position, self.max_position),
        );
        if adjusted < self.best_bid {
            adjusted
        } else {
            self.best_bid as int
        }
    }

    /// The ask that opens a position, never below the best ask.
    pub open spec fn open_sell_price(&self) -> int {
        let adjusted = self.mid_price + signed_scaled_of(
            self.base_sell() - self.mid_price,
            sell_adjustment_of(self.position, self.max_position),
        );
        if adjusted > self.best_ask {
            adjusted
        } else {
            self.best_ask as int
        }
    }

    /// The bid that closes a short position: closer to the mid price than
    /// the opening bid by the close factor, but at least one yen below it.
    pub open spec fn close_buy_price(&self) -> int {
        let reduced = self.mid_price - signed_scaled_of(
            self.mid_price - self.base_buy(),
            self.close_spread_factor as int,
        );
        if reduced < self.mid_price - 1 {
            reduced
        } else {
            self.mid_price - 1
        }
    }

    /// The ask that closes a long position, at least one yen above the mid price.
    pub open spec fn close_sell_price(&self) -> int {
        let reduced = self.mid_price + signed_scaled_of(
            self.base_sell() - self.mid_price,
            self.close_spread_factor as int,
        );
        if reduced > self.mid_price + 1 {
            reduced
        } else {
            self.mid_price + 1
        }
    }

    pub open spec fn buy_size(&self) -> int {
        order_size_of(self.position.long_size, self.max_position, self.min_lot, self.tapered_buy)
    }

    pub open spec fn sell_size(&self) -> int {
        order_size_of(self.position.short_size, self.max_position, self.min_lot, self.tapered_sell)
    }

    /// A short position of at least a minimum lot is closed by a bid,
    /// unless closing is held back.
    pub open spec fn closes_short(&self, risk: RiskStateMachine, now: u64) -> bool {
        risk.may_close(now) && self.position.short_size >= self.min_lot
    }

    pub open spec fn closes_long(&self, risk: RiskStateMachine, now: u64) -> bool {
        risk.may_close(now) && self.position.long_size >= self.min_lot
    }

    /// A long position is opened if opening is not held back, the hour
    /// allows it, the order is at least a minimum lot, and the position
    /// with all resting opening orders and this one stays within the limit.
    pub open spec fn opens_long(&self, risk: RiskStateMachine, now: u64) -> bool {
        &&& risk.may_open(now)
        &&& self.utc_hour < TRADING_HOURS_END
        &&& self.position.long_size + self.pending_buy + self.buy_size() <= self.max_position
        &&& self.buy_size() >= self.min_lot
    }

    pub open spec fn opens_short(&self, risk: RiskStateMachine, now: u64) -> bool {
        &&& risk.may_open(now)
        &&& self.utc_hour < TRADING_HOURS_END
        &&& self.position.short_size + self.pending_sell + self.sell_size() <= self.max_position
        &&& self.sell_size() >= self.min_lot
    }

    /// The bid of this cycle. Closing comes before opening: where a short
    /// position is to be closed the bid is a closing order, at the closing
    /// price and of at least a minimum lot.
    pub open spec fn planned_buy(&self, risk: RiskStateMachine, now: u64) -> Option<PlannedOrder> {
        if self.closes_short(risk, now) {
            Some(
                PlannedOrder {
                    side: OrderSide::BUY,
                    price: price_of(self.close_buy_price()),
                    size: if self.buy_size() < self.min_lot {
                        self.min_lot
                    } else {
                        self.buy_size() as u64
                    },
                    is_close: true,
                },
            )
        } else if self.opens_long(risk, now) {
            Some(
                PlannedOrder {
                    side: OrderSide::BUY,
                    price: price_of(self.open_buy_price()),
                    size: self.buy_size() as u64,
                    is_close: false,
                },
            )
        } else {
            None
        }
    }

    /// The ask of this cycle.
    pub open spec fn planned_sell(&self, risk: RiskStateMachine, now: u64) -> Option<PlannedOrder> {
        if self.closes_long(risk, now) {
            Some(
                PlannedOrder {
                    side: OrderSide::SELL,
                    price: price_of(self.close_sell_price()),
                    size: if self.sell_size() < self.min_lot {
                        self.min_lot
                    } else {
                        self.sell_size() as u64
                    },
                    is_close: true,
                },
            )
        } else if self.opens_short(risk, now) {
            Some(
                PlannedOrder {
                    side: OrderSide::SELL,
                    price: price_of(self.open_sell_price()),
                    size: self.sell_size() as u64,
                    is_close: false,
                },
            )
        } else {
            None
        }
    }
}

/// `distance * factor`, the factor in parts per billion, rounded towards zero.
pub open spec fn signed_scaled_of(distance: int, factor: int) -> int {
    if distance >= 0 {
        scaled_of(distance, factor)
    } else {
        -scaled_of(-distance, factor)
    }
}

/// A computed price as an order carries it: nothing below zero, nothing
/// above what 64 bits hold.
pub open spec fn price_of(price: int) -> u64 {
    if price < 0 {
        0
    } else if price > u64::MAX {
        u64::MAX
    } else {
        price as u64
    }
}

fn to_price(price: i128) -> (p: u64)
    ensures
        p == price_of(price as int),
{
    if price < 0 {
        0
    } else if price > u64::MAX as i128 {
        u64::MAX
    } else {
        price as u64
    }
}

fn signed_scale(distance: i128, factor: u64) -> (r: i128)
    requires
        -(u64::MAX as int) <= distance <= u64::MAX,
    ensures
        r == signed_scaled_of(distance as int, factor as int),
        -340_282_366_920_938_463_463_374_607_431 <= r <= 340_282_366_920_938_463_463_374_607_431,
{
    let magnitude: u64 = if distance >= 0 {
        distance as u64
    } else {
        (-distance) as u64
    };
    assert(0 <= magnitude * factor <= u64::MAX * u64::MAX) by (nonlinear_arith)
        requires
            0 <= magnitude <= u64::MAX,
            0 <= factor <= u64::MAX,
    ;
    let scaled: u128 = scale(magnitude, factor);
    if distance >= 0 {
        scaled as i128
    } else {
        -(scaled as i128)
    }
}

/// The orders of one cycle: on each side a closing order where a position
/// on the other side is to be closed, else an opening order where one is
/// allowed, else nothing.
pub fn plan_orders(inputs: &QuoteInputs, risk: &RiskStateMachine, now: u64) -> (plan: OrderPlan)
    requires
        inputs.wf(),
    ensures
        plan.buy == inputs.planned_buy(*risk, now),
        plan.sell == inputs.planned_sell(*risk, now),
{
    let mid: i128 = inputs.mid_price as i128;
    let pair = (inputs.buy, inputs.sell);
    let base = calculate_order_prices(inputs.mid_price, &pair, &inputs.position, 50, inputs.min_lot);
    let adj = calculate_spread_adjustment(&inputs.position, inputs.max_position);
    proof {
        inputs.buy.lemma_value_nonnegative();
        inputs.sell.lemma_value_nonnegative();
        crate::quote::lemma_offset_bound(inputs.mid_price, inputs.buy.value_ppb() as u64);
        crate::quote::lemma_offset_bound(inputs.mid_price, inputs.sell.value_ppb() as u64);
    }
    let buy_spread: i128 = mid - base.0;
    let sell_spread: i128 = base.1 - mid;
    let open_buy_raw: i128 = mid - signed_scale(buy_spread, adj.0);
    let open_sell_raw: i128 = mid + signed_scale(sell_spread, adj.1);
    let open_buy: i128 = if open_buy_raw < inputs.best_bid as i128 {
        open_buy_raw
    } else {
        inputs.best_bid as i128
    };
    let open_sell: i128 = if open_sell_raw > inputs.best_ask as i128 {
        open_sell_raw
    } else {
        inputs.best_ask as i128
    };
    let close_buy_raw: i128 = mid - signed_scale(buy_spread, inputs.close_spread_factor);
    let close_sell_raw: i128 = mid + signed_scale(sell_spread, inputs.close_spread_factor);
    let close_buy: i128 = if close_buy_raw < mid - 1 {
        close_buy_raw
    } else {
        mid - 1
    };
    let close_sell: i128 = if close_sell_raw > mid + 1 {
        close_sell_raw
    } else {
        mid + 1
    };
    let sizes = calculate_order_sizes(
        &inputs.position,
        inputs.max_position,
        inputs.min_lot,
        inputs.tapered_buy,
        inputs.tapered_sell,
    );
    let can_close: bool = risk.can_close(now);
    let can_open: bool = risk.can_open(now) && is_trading_hour(inputs.utc_hour);
    let close_short: bool = can_close && inputs.position.short_size >= inputs.min_lot;
    let close_long: bool = can_close && inputs.position.long_size >= inputs.min_lot;
    let open_long: bool = can_open && sizes.0 >= inputs.min_lot && inputs.pending_buy
        <= inputs.max_position as u128 && inputs.position.long_size as u128 + inputs.pending_buy
        + sizes.0 as u128 <= inputs.max_position as u128;
    let open_short: bool = can_open && sizes.1 >= inputs.min_lot && inputs.pending_sell
        <= inputs.max_position as u128 && inputs.position.short_size as u128
        + inputs.pending_sell + sizes.1 as u128 <= inputs.max_position as u128;
    let buy = if close_short {
        Some(
            PlannedOrder {
                side: OrderSide::BUY,
                price: to_price(close_buy),
                size: effective_order_size(sizes.0, true, inputs.min_lot),
                is_close: true,
            },
        )
    } else if open_long {
        Some(
            PlannedOrder {
                side: OrderSide::BUY,
                price: to_price(open_buy),
                size: effective_order_size(sizes.0, false, inputs.min_lot),
                is_close: false,
            },
        )
    } else {
        None
    };
    let sell = if close_long {
        Some(
            PlannedOrder {
                side: OrderSide::SELL,
                price: to_price(close_sell),
                size: effective_order_size(sizes.1, true, inputs.min_lot),
                is_close: true,
            },
        )
    } else if open_short {
        Some(
            PlannedOrder {
                side: OrderSide::SELL,
                price: to_price(open_sell),
                size: effective_order_size(sizes.1, false, inputs.min_lot),
                is_close: false,
            },
        )
    } else {
        None
    };
    OrderPlan { buy, sell }
}

/// The number of a level in the logs: its rate, or the largest number
/// there is if the rate is beyond it.
pub open spec fn level_number_of(level: FloatingExp) -> u32 {
    if level.rate > u32::MAX {
        u32::MAX
    } else {
        level.rate as u32
    }
}

/// What is kept of an order that is sent at the instant `now`: the order
/// itself and the market it is sent into, the level, spread and fill
/// probability being those of its own side.
pub fn order_info(order: &PlannedOrder, quote: &QuoteDecision, now: u64) -> (info: OrderInfo)
    ensures
        info.price == order.price,
        info.size == order.size,
        info.side == order.side,
        info.timestamp == now,
        info.is_close == order.is_close,
        info.mid_price == quote.view.mid_price,
        info.t_optimal_ms == quote.t_optimal_ms,
        info.sigma_1s == quote.sigma_1s,
        info.best_ev == quote.best.expected_value,
        info.single_leg_ev == 0,
        order.side == OrderSide::BUY ==> info.spread_pct == quote.best.buy_value && info.level
            == level_number_of(quote.best.buy) && info.p_fill == quote.best.buy_fill,
        order.side != OrderSide::BUY ==> info.spread_pct == quote.best.sell_value && info.level
            == level_number_of(quote.best.sell) && info.p_fill == quote.best.sell_fill,
{
    let is_buy: bool = order.side == OrderSide::BUY;
    let level = if is_buy {
        quote.best.buy
    } else {
        quote.best.sell
    };
    OrderInfo {
        price: order.price,
        size: order.size,
        side: order.side,
        timestamp: now,
        is_close: order.is_close,
        mid_price: quote.view.mid_price,
        t_optimal_ms: quote.t_optimal_ms,
        sigma_1s: quote.sigma_1s,
        spread_pct: if is_buy {
            quote.best.buy_value
        } else {
            quote.best.sell_value
        },
        level: if level.rate > u32::MAX as u64 {
            u32::MAX
        } else {
            level.rate as u32
        },
        p_fill: if is_buy {
            quote.best.buy_fill
        } else {
            quote.best.sell_fill
        },
        best_ev: quote.best.expected_value,
        single_leg_ev: 0,
    }
}

/// What lasts from one cycle to the next.
#[derive(Debug, Clone)]
pub struct TradeState {
    pub counters: CycleCounters,
    pub buy: QuoteGrid,
    pub sell: QuoteGrid,
}

/// What a cycle reads of the world before it decides.
#[derive(Debug, Clone, Copy)]
pub struct CycleInputs {
    pub now: u64,
    /// The hour of the day, UTC.
    pub utc_hour: u32,
    /// The instant of the last market-data message; 0 before the first.
    pub last_message: u64,
    pub position: Position,
    /// The size of the resting orders that open a long or a short position.
    pub pending_buy: u128,
    pub pending_sell: u128,
    /// The sizes that the taper of the position proposes.
    pub tapered_buy: u64,
    pub tapered_sell: u64,
}

/// Which numbers are beyond what the arithmetic holds.
#[derive(Debug, Clone, Copy, PartialEq, Eq, Structural)]
pub enum OutOfRange {
    /// A price on the tape, or a log-return.
    Tape,
    /// The mid price, or an option of the configuration.
    Market,
    /// A size or an open price of the position.
    Position,
}

/// The quotes of a cycle, with what they were derived from.
#[derive(Debug, Clone, Copy)]
pub struct QuoteDecision {
    pub view: MarketView,
    pub volatility: u64,
    pub best: BestQuote,
    pub inputs: QuoteInputs,
    pub plan: OrderPlan,
    /// Volatility as a fraction of the mid price, parts per billion.
    pub sigma_1s: u64,
    pub t_optimal_ms: u64,
    /// Whether the collateral is to be read again.
    pub refresh_collateral: bool,
}

/// What a cycle comes to.
#[derive(Debug, Clone, Copy)]
pub enum CycleDecision {
    /// The market data do not allow a decision.
    Skip(FeedVerdict),
    /// Prices move too fast: the loop pauses.
    CircuitBreak,
    /// The cycle is passed over.
    Invalid(OutOfRange),
    /// There is no pair of levels to quote.
    NoQuote,
    /// The position is to be closed at market, once it is confirmed.
    StopLoss(StopLossPlan),
    Quote(QuoteDecision),
}

impl TradeState {
    pub open spec fn wf(&self) -> bool {
        grid_wf(self.buy@) && grid_wf(self.sell@)
    }

    /// A state with the grids of the rates `first` to `last`, or `None`
    /// if a level is not taken.
    pub fn new(
        base: u64,
        exp: i32,
        first: u64,
        last: u64,
        prior: crate::bayes_prob::BetaDistribution,
        retain_ms: u64,
    ) -> (state: Option<TradeState>)
        requires
            first <= last,
        ensures
            state is Some <==> forall|rate: u64|
                first <= rate <= last ==> #[trigger] crate::quote::level_fits(base, exp, rate),
            state matches Some(s) ==> s.wf() && s.buy@.len() == last - first + 1 && s.sell@.len()
                == last - first + 1 && s.counters == (CycleCounters {
                heartbeat: 0,
                ws_stale: 0,
                empty_executions: 0,
                collateral_refresh: 0,
            }),
    {
        let buy = QuoteGrid::with_rates(base, exp, first, last, prior, retain_ms);
        let sell = QuoteGrid::with_rates(base, exp, first, last, prior, retain_ms);
        match (buy, sell) {
            (Some(buy), Some(sell)) => Some(TradeState { counters: CycleCounters::new(), buy, sell }),
            _ => None,
        }
    }
}

/// The prices of the prints of a tape.
pub open spec fn prices_of(tape: Seq<Execution>) -> Seq<u64> {
    tape.map_values(|e: Execution| e.price)
}

/// Whether the mid price and the configuration are within what the
/// arithmetic holds.
pub open spec fn market_in_range(view: MarketView, config: BotConfig) -> bool {
    &&& view.mid_price <= MAX_PRICE
    &&& config.alpha <= MAX_FACTOR
    &&& config.min_lot > 0
    &&& config.t_optimal_min_ms <= config.t_optimal_max_ms
}

/// Whether the position is within what the arithmetic holds.
pub open spec fn position_in_range(position: Position) -> bool {
    &&& position.long_size <= MAX_SIZE
    &&& position.short_size <= MAX_SIZE
    &&& position.long_open_price <= MAX_PRICE
    &&& position.short_open_price <= MAX_PRICE
}

/// The inputs of pricing and sizing that a cycle puts together.
pub open spec fn quote_inputs_of(
    view: MarketView,
    best: BestQuote,
    inputs: CycleInputs,
    config: BotConfig,
) -> QuoteInputs {
    QuoteInputs {
        mid_price: view.mid_price,
        best_bid: view.best_bid,
        best_ask: view.best_ask,
        buy: best.buy,
        sell: best.sell,
        position: inputs.position,
        pending_buy: inputs.pending_buy,
        pending_sell: inputs.pending_sell,
        tapered_buy: inputs.tapered_buy,
        tapered_sell: inputs.tapered_sell,
        min_lot: config.min_lot,
        max_position: config.max_position,
        close_spread_factor: config.close_spread_factor,
        utc_hour: inputs.utc_hour,
    }
}

/// Whether `best` is the best pair of two grids at this market.
pub open spec fn is_best_quote(
    best: BestQuote,
    buy: Seq<QuoteLevelState>,
    sell: Seq<QuoteLevelState>,
    mid: u64,
    volatility: u64,
    alpha: u64,
) -> bool {
    exists|i: int, j: int|
        {
            &&& #[trigger] is_best_pair(mid, volatility, alpha, buy, sell, i, j)
            &&& best.buy == buy[i].level
            &&& best.sell == sell[j].level
            &&& best.buy_value == buy[i].value
            &&& best.sell_value == sell[j].value
            &&& best.buy_fill == buy[i].fill_ppb()
            &&& best.sell_fill == sell[j].fill_ppb()
            &&& best.expected_value == pair_ev(mid, volatility, alpha, buy, sell, i, j)
        }
}

/// What a quoting cycle decides, given the pair it found.
pub open spec fn quote_decided(
    q: QuoteDecision,
    view: MarketView,
    volatility: u64,
    inputs: CycleInputs,
    config: BotConfig,
    risk: RiskStateMachine,
    counters: CycleCounters,
) -> bool {
    &&& q.view == view
    &&& q.volatility == volatility
    &&& q.inputs == quote_inputs_of(view, q.best, inputs, config)
    &&& q.plan.buy == q.inputs.planned_buy(risk, inputs.now)
    &&& q.plan.sell == q.inputs.planned_sell(risk, inputs.now)
    &&& q.sigma_1s == sigma_of(volatility, view.mid_price)
    &&& q.t_optimal_ms == t_optimal_of(
        average_spread_of(q.best.buy_value, q.best.sell_value) as u64,
        q.sigma_1s,
        config.t_optimal_min_ms,
        config.t_optimal_max_ms,
    )
    &&& q.refresh_collateral == (bumped(counters.collateral_refresh)
        % COLLATERAL_REFRESH_INTERVAL == 0)
}

/// One cycle of the decision loop, up to the point where the exchange is
/// called. In this order: the feed is checked; the circuit breaker; the
/// tape against the limits of the arithmetic; the book is pruned and the
/// market read off it; both grids are requoted and searched; the
/// stop-loss is evaluated; the orders are priced and sized. The first
/// step that stops the cycle decides it, and what the later steps would
/// have changed stays as it was. With the decision comes whether a
/// heartbeat is due.
///
/// `tape` is the tape after retention and `log_returns` the log-returns
/// between its consecutive positive prices.
pub fn decide_cycle(
    state: &mut TradeState,
    risk: &mut RiskStateMachine,
    asks: &mut OrderBookSide,
    bids: &mut OrderBookSide,
    tape: &Vec<Execution>,
    log_returns: &Vec<i64>,
    config: &BotConfig,
    inputs: &CycleInputs,
) -> (outcome: (CycleDecision, bool))
    requires
        old(state).wf(),
        old(asks).wf(),
        old(bids).wf(),
    ensures
        final(state).wf(),
        final(asks).wf(),
        final(bids).wf(),
        outcome.1 == (bumped(old(state).counters.heartbeat) % HEARTBEAT_INTERVAL == 0),
        ({
            let now = inputs.now;
            let feed = feed_verdict_of(
                old(state).counters,
                now,
                inputs.last_message,
                tape@.len(),
            );
            let counted = counters_after_feed(
                old(state).counters,
                now,
                inputs.last_message,
                tape@.len(),
            );
            let view = market_view_of(old(asks)@, old(bids)@, tape@);
            let volatility = volatility_of(prices_of(tape@), log_returns@) as u64;
            let books_kept = final(asks)@ == old(asks)@ && final(bids)@ == old(bids)@;
            let books_pruned = final(asks)@ == pruned(
                old(asks)@,
                view.ltp,
                MAX_KEEP_BOARD_PRICE,
                true,
            ) && final(bids)@ == pruned(old(bids)@, view.ltp, MAX_KEEP_BOARD_PRICE, false);
            let grids_kept = final(state).buy@ == old(state).buy@ && final(state).sell@ == old(
                state,
            ).sell@;
            let grids_requoted = requoted(
                old(state).buy@,
                final(state).buy@,
                tape@,
                view.mid_price,
                true,
                now,
            ) && requoted(old(state).sell@, final(state).sell@, tape@, view.mid_price, false, now);
            if feed != FeedVerdict::Proceed {
                &&& outcome.0 matches CycleDecision::Skip(v)
                &&& v == feed
                &&& final(state).counters == counted
                &&& books_kept
                &&& grids_kept
                &&& *final(risk) == *old(risk)
            } else if breaker_trips(tape@, now) {
                &&& outcome.0 is CircuitBreak
                &&& final(state).counters == counted
                &&& books_kept
                &&& grids_kept
                &&& *final(risk) == *old(risk)
            } else if !(prices_valid(prices_of(tape@)) && log_returns_valid(log_returns@)) {
                &&& outcome.0 matches CycleDecision::Invalid(reason)
                &&& reason == OutOfRange::Tape
                &&& final(state).counters == counted
                &&& books_kept
                &&& grids_kept
                &&& *final(risk) == *old(risk)
            } else if !market_in_range(view, *config) {
                &&& outcome.0 matches CycleDecision::Invalid(reason)
                &&& reason == OutOfRange::Market
                &&& final(state).counters == counted
                &&& books_pruned
                &&& grids_kept
                &&& *final(risk) == *old(risk)
            } else if old(state).buy@.len() == 0 || old(state).sell@.len() == 0 {
                &&& outcome.0 is NoQuote
                &&& final(state).counters == counted
                &&& books_pruned
                &&& grids_requoted
                &&& *final(risk) == *old(risk)
            } else if !position_in_range(inputs.position) {
                &&& outcome.0 matches CycleDecision::Invalid(reason)
                &&& reason == OutOfRange::Position
                &&& final(state).counters == counted
                &&& books_pruned
                &&& grids_requoted
                &&& *final(risk) == *old(risk)
            } else if stop_loss_fires(
                *old(risk),
                now,
                inputs.position,
                view.mid_price,
                config.min_lot,
                config.stop_loss_jpy,
            ) {
                &&& outcome.0 matches CycleDecision::StopLoss(plan)
                &&& plan == stop_loss_plan_of(inputs.position, view.mid_price, config.min_lot)
                &&& final(state).counters == counted
                &&& books_pruned
                &&& grids_requoted
                &&& *final(risk) == old(risk).expired_at(now)
            } else {
                &&& outcome.0 matches CycleDecision::Quote(q)
                &&& is_best_quote(
                    q.best,
                    final(state).buy@,
                    final(state).sell@,
                    view.mid_price,
                    volatility,
                    config.alpha,
                )
                &&& quote_decided(q, view, volatility, *inputs, *config, *final(risk), counted)
                &&& final(state).counters == (CycleCounters {
                    collateral_refresh: bumped(counted.collateral_refresh),
                    ..counted
                })
                &&& books_pruned
                &&& grids_requoted
                &&& *final(risk) == old(risk).expired_at(now)
            }
        }),
{
    let now: u64 = inputs.now;
    let (verdict, heartbeat_due) = state.counters.check_feed(now, inputs.last_message, tape.len());
    match verdict {
        FeedVerdict::Proceed => {},
        _ => {
            return (CycleDecision::Skip(verdict), heartbeat_due);
        },
    }
    if circuit_breaker_tripped(tape, now) {
        return (CycleDecision::CircuitBreak, heartbeat_due);
    }
    let tape_prices = prices(tape);
    if !prices_in_range(&tape_prices) || !log_returns_in_range(log_returns) {
        return (CycleDecision::Invalid(OutOfRange::Tape), heartbeat_due);
    }
    let volatility: u64 = calculate_volatility(&tape_prices, log_returns);
    let view = refresh_market(asks, bids, tape);
    if view.mid_price > MAX_PRICE || config.alpha > MAX_FACTOR || config.min_lot == 0
        || config.t_optimal_min_ms > config.t_optimal_max_ms {
        return (CycleDecision::Invalid(OutOfRange::Market), heartbeat_due);
    }
    let best = match requote(
        &mut state.buy,
        &mut state.sell,
        tape,
        view.mid_price,
        volatility,
        config.alpha,
        now,
    ) {
        Some(best) => best,
        None => {
            return (CycleDecision::NoQuote, heartbeat_due);
        },
    };
    let position = inputs.position;
    if position.long_size > MAX_SIZE || position.short_size > MAX_SIZE || position.long_open_price
        > MAX_PRICE || position.short_open_price > MAX_PRICE {
        return (CycleDecision::Invalid(OutOfRange::Position), heartbeat_due);
    }
    match check_stop_loss(
        risk,
        now,
        &position,
        view.mid_price,
        config.min_lot,
        config.stop_loss_jpy,
    ) {
        Some(plan) => {
            return (CycleDecision::StopLoss(plan), heartbeat_due);
        },
        None => {},
    }
    let refresh_collateral: bool = state.counters.collateral_refresh_due();
    let quote_inputs = QuoteInputs {
        mid_price: view.mid_price,
        best_bid: view.best_bid,
        best_ask: view.best_ask,
        buy: best.buy,
        sell: best.sell,
        position,
        pending_buy: inputs.pending_buy,
        pending_sell: inputs.pending_sell,
        tapered_buy: inputs.tapered_buy,
        tapered_sell: inputs.tapered_sell,
        min_lot: config.min_lot,
        max_position: config.max_position,
        close_spread_factor: config.close_spread_factor,
        utc_hour: inputs.utc_hour,
    };
    proof {
        let (i, j) = choose|i: int, j: int|
            {
                &&& #[trigger] is_best_pair(
                    view.mid_price,
                    volatility,
                    config.alpha,
                    state.buy@,
                    state.sell@,
                    i,
                    j,
                )
                &&& best.buy == state.buy@[i].level
                &&& best.sell == state.sell@[j].level
                &&& best.buy_value == state.buy@[i].value
                &&& best.sell_value == state.sell@[j].value
            };
        assert(state.buy@[i].wf());
        assert(state.sell@[j].wf());
    }
    let plan = plan_orders(&quote_inputs, risk, now);
    let (sigma_1s, t_optimal_ms) = order_lifetime(
        view.mid_price,
        volatility,
        best.buy_value,
        best.sell_value,
        config.t_optimal_min_ms,
        config.t_optimal_max_ms,
    );
    (
        CycleDecision::Quote(
            QuoteDecision {
                view,
                volatility,
                best,
                inputs: quote_inputs,
                plan,
                sigma_1s,
                t_optimal_ms,
                refresh_collateral,
            },
        ),
        heartbeat_due,
    )
}

} // verus!

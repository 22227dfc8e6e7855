use trading_bot::api::gmo::api::ApiErrorMessage;
use trading_bot::bayes_prob::{BetaDistribution, PPB};
use trading_bot::ledger::{aggregate_positions, reset_position, PositionLine};
use trading_bot::market::Execution;
use trading_bot::model::{FloatingExp, OrderInfo, OrderSide, Position};
use trading_bot::orders::{
    pending_open_size, settle_submission, OpenOrders, OrderResult, SubmitOutcome,
    ERR_NO_OPEN_POSITION,
};
use trading_bot::pricing::{
    calculate_order_prices, calculate_spread_adjustment, calculate_t_optimal, is_trading_hour,
};
use trading_bot::quote::{update_order_prices, update_probabilities, QuoteGrid};
use trading_bot::risk::{
    activate_ghost_protection, evaluate_stop_loss, poll_position, PollVerdict, RiskStateMachine,
    GHOST_POSITION_COOLDOWN_SECS, STOP_LOSS_COOLDOWN_SECS,
};
use trading_bot::sizing::{calculate_order_sizes, effective_order_size};
use trading_bot::trade::{order_lifetime, plan_orders, QuoteInputs};
use trading_bot::volatility::{calculate_volatility, MIN_VOLATILITY_BPS};

/// Coins to size units.
fn units(coins: f64) -> u64 {
    (coins * 1e8).round() as u64
}

/// A fraction to parts per billion.
fn ppb(fraction: f64) -> u64 {
    (fraction * 1e9).round() as u64
}

fn position(long_size: f64, short_size: f64) -> Position {
    Position {
        long_size: units(long_size),
        short_size: units(short_size),
        long_open_price: 0,
        short_open_price: 0,
    }
}

fn round_size(size: f64) -> f64 {
    (size * 1e8).round() / 1e8
}

/// The size that the taper proposes for a side.
fn tapered(side_size: f64, max_position_size: f64, max_lot: f64, position_ratio: f64) -> u64 {
    let raw = round_size(max_lot * (1.0 - side_size.powf(position_ratio) / max_position_size));
    if raw <= 0.0 {
        0
    } else {
        units(raw)
    }
}

fn order_sizes(
    long_size: f64,
    short_size: f64,
    max_position_size: f64,
    min_lot: f64,
    max_lot: f64,
    position_ratio: f64,
) -> (f64, f64) {
    let pos = position(long_size, short_size);
    let (buy, sell) = calculate_order_sizes(
        &pos,
        units(max_position_size),
        units(min_lot),
        tapered(long_size, max_position_size, max_lot, position_ratio),
        tapered(short_size, max_position_size, max_lot, position_ratio),
    );
    (buy as f64 / 1e8, sell as f64 / 1e8)
}

fn spread_adjustment(long_size: f64, short_size: f64, max_position_size: f64) -> (f64, f64) {
    let (buy, sell) =
        calculate_spread_adjustment(&position(long_size, short_size), units(max_position_size));
    (buy as f64 / 1e9, sell as f64 / 1e9)
}

fn order_prices(
    mid_price: f64,
    best_pair: &(FloatingExp, FloatingExp),
    long_size: f64,
    short_size: f64,
    penalty: f64,
    min_lot: f64,
) -> (f64, f64) {
    let (buy, sell) = calculate_order_prices(
        mid_price as u64,
        best_pair,
        &position(long_size, short_size),
        penalty as u64,
        units(min_lot),
    );
    (buy as f64, sell as f64)
}

/// The log-returns between consecutive positive prices, in parts per billion.
fn log_returns(prices: &[u64]) -> Vec<i64> {
    prices
        .windows(2)
        .filter(|w| w[0] > 0 && w[1] > 0)
        .map(|w| ((w[1] as f64 / w[0] as f64).ln() * 1e9).round() as i64)
        .collect()
}

fn volatility(executions: &[(u64, f64, i64)]) -> f64 {
    let prices: Vec<u64> = executions.iter().map(|e| e.0).collect();
    calculate_volatility(&prices, &log_returns(&prices)) as f64
}

fn t_optimal(spread_pct: f64, sigma_1s: f64, min_ms: u64, max_ms: u64) -> u64 {
    calculate_t_optimal(ppb(spread_pct), ppb(sigma_1s), min_ms, max_ms)
}

fn tape(executions: &[(u64, f64, i64)]) -> Vec<Execution> {
    executions
        .iter()
        .map(|e| Execution { price: e.0, size: units(e.1) as i64, timestamp: e.2 as u64 })
        .collect()
}

fn level(rate: u64) -> FloatingExp {
    FloatingExp { base: 10, exp: -5, rate }
}

fn fill_probability(grid: &QuoteGrid, rate: u64) -> f64 {
    let i = grid.find_rate(rate).unwrap();
    grid.levels[i].estimator.calc_average() as f64 / PPB as f64
}

fn order_info(size: f64, side: OrderSide, is_close: bool) -> OrderInfo {
    OrderInfo {
        price: 6_500_000,
        size: units(size),
        side,
        timestamp: 0,
        is_close,
        mid_price: 6_500_000,
        t_optimal_ms: 3000,
        sigma_1s: ppb(0.0001),
        spread_pct: ppb(0.005),
        level: 0,
        p_fill: 0,
        best_ev: 0,
        single_leg_ev: 0,
    }
}

#[test]
fn test_position_tracking_both_sides() {
    let response = vec![
        PositionLine { side: OrderSide::BUY, size: units(0.002), price: 0 },
        PositionLine { side: OrderSide::BUY, size: units(0.002), price: 0 },
        PositionLine { side: OrderSide::SELL, size: units(0.003), price: 0 },
        PositionLine { side: OrderSide::SELL, size: units(0.001), price: 0 },
    ];
    let pos = aggregate_positions(&response).unwrap();
    assert_eq!(pos.long_size as f64 / 1e8, 0.004, "long_size should track gross BUY positions");
    assert_eq!(pos.short_size as f64 / 1e8, 0.004, "short_size should track gross SELL positions");
}

#[test]
fn test_position_tracking_net_vs_gross_regression() {
    let response = vec![
        PositionLine { side: OrderSide::BUY, size: units(0.004), price: 0 },
        PositionLine { side: OrderSide::SELL, size: units(0.004), price: 0 },
    ];
    let pos = aggregate_positions(&response).unwrap();
    assert_ne!(pos.long_size, 0, "gross tracking should NOT zero out equal positions");
    assert_eq!(pos.long_size as f64 / 1e8, 0.004);
    assert_eq!(pos.short_size as f64 / 1e8, 0.004);
}

#[test]
fn test_position_tracking_one_side_only() {
    let response = vec![
        PositionLine { side: OrderSide::BUY, size: units(0.001), price: 0 },
        PositionLine { side: OrderSide::BUY, size: units(0.001), price: 0 },
    ];
    let pos = aggregate_positions(&response).unwrap();
    assert_eq!(pos.long_size as f64 / 1e8, 0.002);
    assert_eq!(pos.short_size as f64 / 1e8, 0.0);
}

#[test]
fn test_order_size_at_max_position_returns_zero() {
    let (buy_size, _sell_size) = order_sizes(0.002, 0.0, 0.002, 0.001, 0.001, 0.9);
    assert_eq!(buy_size, 0.0, "buy_size should be 0 when at max position");
}

#[test]
fn test_order_size_above_max_position_returns_zero() {
    let (buy_size, sell_size) = order_sizes(0.004, 0.004, 0.002, 0.001, 0.001, 0.9);
    assert_eq!(buy_size, 0.0, "buy_size should be 0 when above max position");
    assert_eq!(sell_size, 0.0, "sell_size should be 0 when above max position");
}

#[test]
fn test_order_size_below_max_returns_min_lot() {
    let min_lot = 0.001;
    let (buy_size, sell_size) = order_sizes(0.0, 0.0, 0.002, min_lot, 0.001, 0.9);
    assert_eq!(buy_size, min_lot, "buy_size should be min_lot when no position");
    assert_eq!(sell_size, min_lot, "sell_size should be min_lot when no position");
}

#[test]
fn test_order_size_caps_at_remaining() {
    let max_position_size = 0.002;
    let long_size = 0.001;
    let (buy_size, _) = order_sizes(long_size, 0.0, max_position_size, 0.001, 0.001, 0.9);
    let remaining = max_position_size - long_size;
    assert!(
        buy_size <= remaining,
        "buy_size {} should not exceed remaining capacity {}",
        buy_size,
        remaining
    );
}

#[test]
fn test_spread_adj_neutral_position() {
    let (buy_adj, sell_adj) = spread_adjustment(0.0, 0.0, 0.002);
    assert_eq!(buy_adj, 1.0);
    assert_eq!(sell_adj, 1.0);
}

#[test]
fn test_spread_adj_long_heavy() {
    let (buy_adj, sell_adj) = spread_adjustment(0.002, 0.0, 0.002);
    assert!(buy_adj > 1.0, "buy spread should widen when long-heavy, got {}", buy_adj);
    assert!(sell_adj <= buy_adj, "sell adj should not exceed buy adj when long-heavy");
}

#[test]
fn test_spread_adj_equal_positions_should_widen() {
    let (buy_adj, sell_adj) = spread_adjustment(0.004, 0.004, 0.002);
    assert!(buy_adj > 1.0, "buy spread should widen with high total exposure, got {}", buy_adj);
    assert!(sell_adj > 1.0, "sell spread should widen with high total exposure, got {}", sell_adj);
}

#[test]
fn test_spread_adj_half_max_meaningful_penalty() {
    let (buy_adj, sell_adj) = spread_adjustment(0.001, 0.001, 0.002);
    assert!(buy_adj > 1.05, "half-max exposure should have meaningful penalty, got {}", buy_adj);
    assert!(sell_adj > 1.05, "half-max exposure should have meaningful penalty, got {}", sell_adj);
    assert_eq!(buy_adj, 1.1);
    assert_eq!(sell_adj, 1.1);
}

#[test]
fn test_order_prices_penalty_direction_long_heavy() {
    let mid_price = 10_000_000.0;
    let best_pair = (FloatingExp::new(10, -4, 1), FloatingExp::new(10, -4, 1));
    let min_lot = 0.001;

    let (neutral_buy, neutral_sell) = order_prices(mid_price, &best_pair, 0.0, 0.0, 50.0, min_lot);
    let (long_buy, long_sell) = order_prices(mid_price, &best_pair, 0.002, 0.0, 50.0, min_lot);

    assert!(
        long_buy < neutral_buy,
        "buy price should decrease when long-heavy: {} should be < {}",
        long_buy,
        neutral_buy
    );
    assert!(long_sell <= neutral_sell, "sell price should not increase when long-heavy");
    assert_eq!(neutral_buy, 9_999_000.0);
    assert_eq!(neutral_sell, 10_001_000.0);
    assert_eq!(long_buy, 9_998_900.0);
    assert_eq!(long_sell, 10_000_900.0);
}

#[test]
fn test_order_prices_penalty_direction_short_heavy() {
    let mid_price = 10_000_000.0;
    let best_pair = (FloatingExp::new(10, -4, 1), FloatingExp::new(10, -4, 1));
    let min_lot = 0.001;

    let (_neutral_buy, neutral_sell) = order_prices(mid_price, &best_pair, 0.0, 0.0, 50.0, min_lot);
    let (_short_buy, short_sell) = order_prices(mid_price, &best_pair, 0.0, 0.002, 50.0, min_lot);

    assert!(
        short_sell > neutral_sell,
        "sell price should increase when short-heavy: {} should be > {}",
        short_sell,
        neutral_sell
    );
}

#[test]
fn test_close_order_size_at_max_position() {
    let min_lot = 0.001;
    let (buy_size, sell_size) = order_sizes(0.01, 0.01, 0.01, min_lot, 0.001, 0.9);
    assert_eq!(buy_size, 0.0);
    assert_eq!(sell_size, 0.0);

    let close_buy_size = effective_order_size(units(buy_size), true, units(min_lot));
    let close_sell_size = effective_order_size(units(sell_size), true, units(min_lot));
    assert_eq!(close_buy_size, units(min_lot), "close buy should use min_lot even when open size is 0");
    assert_eq!(close_sell_size, units(min_lot), "close sell should use min_lot even when open size is 0");
}

#[test]
fn test_asymmetric_max_position() {
    let min_lot = 0.001;
    let (buy_size, sell_size) = order_sizes(0.01, 0.002, 0.01, min_lot, 0.001, 0.9);

    assert_eq!(buy_size, 0.0, "buy should be 0 at max long");
    assert!(sell_size >= min_lot, "sell should have positive size: {}", sell_size);

    let eff_buy = effective_order_size(units(buy_size), true, units(min_lot));
    assert_eq!(eff_buy, units(min_lot), "close buy should fallback to min_lot");

    let eff_sell = effective_order_size(units(sell_size), true, units(min_lot));
    assert_eq!(eff_sell, units(sell_size), "close sell should use calculated size");
}

#[test]
fn test_open_order_size_uses_calculated() {
    let min_lot = 0.001;
    let (buy_size, _sell_size) = order_sizes(0.002, 0.0, 0.01, min_lot, 0.001, 0.9);
    let open_size = effective_order_size(units(buy_size), false, units(min_lot));
    assert_eq!(open_size, units(buy_size), "open order should use calculated size");
}

#[test]
fn test_volatility_empty_executions_returns_floor() {
    let executions: Vec<(u64, f64, i64)> = vec![];
    let vol = volatility(&executions);
    assert!(vol > 0.0, "empty executions should return volatility floor, got {}", vol);
    assert_eq!(vol, 325.0);
}

#[test]
fn test_volatility_single_execution_returns_floor() {
    let executions = vec![(6_500_000u64, 0.001, 1i64)];
    let vol = volatility(&executions);
    assert!(vol > 0.0, "single execution should return volatility floor, got {}", vol);
    assert_eq!(vol, 325.0);
}

#[test]
fn test_volatility_same_price_returns_floor() {
    let executions = vec![
        (6_500_000u64, 0.001, 1i64),
        (6_500_000, 0.001, 2),
        (6_500_000, 0.001, 3),
        (6_500_000, 0.001, 4),
        (6_500_000, 0.001, 5),
    ];
    let vol = volatility(&executions);
    assert!(vol > 0.0, "same-price executions should return volatility floor, got {}", vol);
    assert_eq!(vol, 325.0);
}

#[test]
fn test_volatility_varying_prices_returns_positive() {
    let executions = vec![
        (6_500_000u64, 0.001, 1i64),
        (6_501_000, 0.001, 2),
        (6_499_000, 0.001, 3),
        (6_502_000, 0.001, 4),
        (6_498_000, 0.001, 5),
    ];
    let vol = volatility(&executions);
    assert!(vol > 0.0, "varying prices should have positive volatility");
    assert!(vol < 6_502_000.0, "volatility should be reasonable");
}

#[test]
fn test_volatility_increases_with_larger_moves() {
    let small_moves = vec![
        (6_500_000u64, 0.001, 1i64),
        (6_500_100, 0.001, 2),
        (6_500_200, 0.001, 3),
        (6_500_100, 0.001, 4),
        (6_500_000, 0.001, 5),
    ];
    let large_moves = vec![
        (6_500_000u64, 0.001, 1i64),
        (6_510_000, 0.001, 2),
        (6_490_000, 0.001, 3),
        (6_510_000, 0.001, 4),
        (6_500_000, 0.001, 5),
    ];
    let vol_small = volatility(&small_moves);
    let vol_large = volatility(&large_moves);
    assert!(
        vol_large > vol_small,
        "larger moves should produce larger volatility: {} vs {}",
        vol_large,
        vol_small
    );
}

#[test]
fn test_volatility_is_in_price_units() {
    let executions = vec![
        (6_500_000u64, 0.001, 1i64),
        (6_501_000, 0.001, 2),
        (6_499_000, 0.001, 3),
        (6_500_500, 0.001, 4),
        (6_499_500, 0.001, 5),
    ];
    let vol = volatility(&executions);
    assert!(vol > 100.0, "volatility should be > 100 for ±1000 price moves, got {}", vol);
    assert!(vol < 100_000.0, "volatility should be < 100K, got {}", vol);
}

#[test]
fn test_pending_open_size_counts_open_orders_only() {
    let mut orders = OpenOrders::new();
    orders.insert("ord-1".to_string(), order_info(0.001, OrderSide::BUY, false));
    orders.insert("ord-2".to_string(), order_info(0.001, OrderSide::BUY, true));
    orders.insert("ord-3".to_string(), order_info(0.001, OrderSide::SELL, false));

    let buy_pending = pending_open_size(&orders, &OrderSide::BUY);
    let sell_pending = pending_open_size(&orders, &OrderSide::SELL);

    assert_eq!(buy_pending as f64 / 1e8, 0.001, "only open buy orders count: {}", buy_pending);
    assert_eq!(sell_pending as f64 / 1e8, 0.001, "only open sell orders count: {}", sell_pending);
}

#[test]
fn test_pending_open_size_empty_orders() {
    let orders = OpenOrders::new();
    assert_eq!(pending_open_size(&orders, &OrderSide::BUY), 0);
    assert_eq!(pending_open_size(&orders, &OrderSide::SELL), 0);
}

/// The inputs of a cycle with a flat market around ten million yen.
fn quote_inputs(
    long_size: f64,
    pending_buy: f64,
    max_position: f64,
    tapered_buy: f64,
) -> QuoteInputs {
    QuoteInputs {
        mid_price: 10_000_000,
        best_bid: 9_999_900,
        best_ask: 10_000_100,
        buy: level(5),
        sell: level(5),
        position: position(long_size, 0.0),
        pending_buy: units(pending_buy) as u128,
        pending_sell: 0,
        tapered_buy: units(tapered_buy),
        tapered_sell: units(0.001),
        min_lot: units(0.001),
        max_position: units(max_position),
        close_spread_factor: ppb(0.5),
        utc_hour: 3,
    }
}

#[test]
fn test_effective_position_blocks_when_at_max() {
    let current_long = 0.001;
    let pending_buy = 0.001;
    let max_position = 0.002;
    let buy_size = 0.001;

    let plan = plan_orders(
        &quote_inputs(current_long, pending_buy, max_position, buy_size),
        &RiskStateMachine::new(),
        0,
    );
    let can_open = plan.buy.map_or(false, |o| !o.is_close);
    assert!(
        !can_open,
        "should block when effective position {} + order {} > max {}",
        current_long + pending_buy,
        buy_size,
        max_position
    );
}

#[test]
fn test_effective_position_allows_when_room() {
    let current_long = 0.0;
    let pending_buy = 0.0;
    let max_position = 0.002;
    let buy_size = 0.001;

    let plan = plan_orders(
        &quote_inputs(current_long, pending_buy, max_position, buy_size),
        &RiskStateMachine::new(),
        0,
    );
    let order = plan.buy.unwrap();
    assert!(!order.is_close, "should allow when effective position leaves room");
    assert_eq!(order.size, units(buy_size));
    assert_eq!(order.side, OrderSide::BUY);
}

#[test]
fn test_effective_position_with_stale_data() {
    let current_long = 0.001;
    let pending_buy = 0.001;
    let max_position = 0.002;
    let buy_size = 0.001;

    let plan = plan_orders(
        &quote_inputs(current_long, pending_buy, max_position, buy_size),
        &RiskStateMachine::new(),
        0,
    );
    assert!(
        plan.buy.is_none(),
        "with stale position and pending orders, should still block: effective={} + buy={} vs max={}",
        current_long + pending_buy,
        buy_size,
        max_position
    );
}

#[test]
fn test_single_slot_blocks_second_open() {
    let min_lot = 0.001;
    let (buy_size, sell_size) = order_sizes(0.001, 0.0, 0.001, min_lot, 0.001, 0.9);
    assert_eq!(buy_size, 0.0, "single-slot: should block second buy when holding 1 long");
    assert_eq!(sell_size, min_lot, "single-slot: sell should be available");
}

#[test]
fn test_single_slot_close_still_works() {
    let min_lot = 0.001;
    let (buy_size, sell_size) = order_sizes(0.001, 0.001, 0.001, min_lot, 0.001, 0.9);
    assert_eq!(buy_size, 0.0);
    assert_eq!(sell_size, 0.0);

    let close_buy = effective_order_size(units(buy_size), true, units(min_lot));
    let close_sell = effective_order_size(units(sell_size), true, units(min_lot));
    assert_eq!(close_buy, units(min_lot), "close buy should work at single-slot max");
    assert_eq!(close_sell, units(min_lot), "close sell should work at single-slot max");
}

#[test]
fn test_single_slot_effective_position_blocks() {
    let current_long = 0.0;
    let pending_buy = 0.001;
    let max_position = 0.001;
    let buy_size = 0.001;

    let plan = plan_orders(
        &quote_inputs(current_long, pending_buy, max_position, buy_size),
        &RiskStateMachine::new(),
        0,
    );
    assert!(
        plan.buy.is_none(),
        "single-slot: pending order should block new buy: eff={} + size={} > max={}",
        current_long + pending_buy,
        buy_size,
        max_position
    );
}

#[test]
fn test_single_slot_empty_allows_one() {
    let min_lot = 0.001;
    let max_position_size = 0.001;
    let (buy_size, sell_size) = order_sizes(0.0, 0.0, max_position_size, min_lot, 0.001, 0.9);
    assert_eq!(buy_size, min_lot, "single-slot: should allow 1 buy when empty");
    assert_eq!(sell_size, min_lot, "single-slot: should allow 1 sell when empty");

    let plan = plan_orders(
        &quote_inputs(0.0, 0.0, max_position_size, 0.001),
        &RiskStateMachine::new(),
        0,
    );
    assert!(plan.buy.is_some(), "single-slot: first order should pass position check");
}

#[test]
fn test_single_slot_spread_adjustment() {
    let (buy_adj, sell_adj) = spread_adjustment(0.001, 0.0, 0.001);
    assert!(buy_adj > 1.0, "single-slot long: buy spread should widen, got {}", buy_adj);
    assert!(sell_adj <= buy_adj, "single-slot long: sell adj should not exceed buy adj");
}

#[test]
fn test_bayesian_update_differentiates_levels() {
    let mid_price = 10_000_000;
    let prior = BetaDistribution::new(0, 1);

    let mut buy_probs = QuoteGrid::new();
    assert!(buy_probs.add_level(level(1), prior, 300_000));
    assert!(buy_probs.add_level(level(25), prior, 300_000));

    update_order_prices(&mut buy_probs, mid_price, true);

    let price1 = buy_probs.levels[buy_probs.find_rate(1).unwrap()].price;
    let price25 = buy_probs.levels[buy_probs.find_rate(25).unwrap()].price;
    assert_eq!(price1, 9_999_900, "level 1 price: {}", price1);
    assert_eq!(price25, 9_997_500, "level 25 price: {}", price25);

    let executions = tape(&[(9_999_850, 0.001, 1)]);
    update_probabilities(&mut buy_probs, &executions, true, 1);

    let prob1 = fill_probability(&buy_probs, 1);
    let prob25 = fill_probability(&buy_probs, 25);
    assert!(
        prob1 > prob25,
        "tight spread should have higher fill prob than wide: {} vs {}",
        prob1,
        prob25
    );
    assert_eq!(prob1, 0.5);
    assert_eq!(prob25, 0.0);
}

#[test]
fn test_bayesian_update_no_executions_all_decrease() {
    let mid_price = 10_000_000;
    let mut sell_probs = QuoteGrid::new();
    assert!(sell_probs.add_level(level(1), BetaDistribution::new(0, 1), 300_000));

    update_order_prices(&mut sell_probs, mid_price, false);

    let executions = tape(&[]);
    update_probabilities(&mut sell_probs, &executions, false, 1);

    let prob = fill_probability(&sell_probs, 1);
    assert!(prob < 0.5, "probability should decrease with no fills: {}", prob);
}

#[test]
fn test_bayesian_update_sell_side_differentiates() {
    let mid_price = 10_000_000;
    let prior = BetaDistribution::new(0, 1);

    let mut sell_probs = QuoteGrid::new();
    assert!(sell_probs.add_level(level(1), prior, 300_000));
    assert!(sell_probs.add_level(level(25), prior, 300_000));

    update_order_prices(&mut sell_probs, mid_price, false);

    let executions = tape(&[(10_000_200, 0.001, 1)]);
    update_probabilities(&mut sell_probs, &executions, false, 1);

    let prob1 = fill_probability(&sell_probs, 1);
    let prob25 = fill_probability(&sell_probs, 25);
    assert!(
        prob1 > prob25,
        "tight sell spread should have higher fill prob: {} vs {}",
        prob1,
        prob25
    );
}

#[test]
fn test_calculate_t_optimal_level5_normal_vol() {
    let t = t_optimal(0.00005, 0.00003, 2000, 30000);
    assert!(t >= 2000 && t <= 3000, "Level 5 normal vol should be ~2780ms, got {}ms", t);
    assert_eq!(t, 2777);
}

#[test]
fn test_calculate_t_optimal_level10_normal_vol() {
    let t = t_optimal(0.0001, 0.00003, 2000, 30000);
    assert!(t >= 10000 && t <= 12000, "Level 10 normal vol should be ~11111ms, got {}ms", t);
    assert_eq!(t, 11111);
}

#[test]
fn test_calculate_t_optimal_clamps_to_min() {
    let t = t_optimal(0.00001, 0.0001, 2000, 30000);
    assert_eq!(t, 2000, "should clamp to min 2000ms, got {}ms", t);
}

#[test]
fn test_calculate_t_optimal_clamps_to_max() {
    let t = t_optimal(0.00025, 0.000001, 2000, 30000);
    assert_eq!(t, 30000, "should clamp to max 30000ms, got {}ms", t);
}

#[test]
fn test_calculate_t_optimal_zero_sigma_returns_max() {
    let t = t_optimal(0.00005, 0.0, 2000, 30000);
    assert_eq!(t, 30000, "zero sigma should return max, got {}ms", t);
}

#[test]
fn test_calculate_sigma_1s() {
    let volatility = 1000;
    let mid_price = 10_000_000;
    let (sigma, _) = order_lifetime(mid_price, volatility, ppb(0.00005), ppb(0.00005), 2000, 30000);
    let sigma_1s = sigma as f64 / 1e9;
    assert!((sigma_1s - 0.0001).abs() < 1e-10, "sigma_1s should be 0.0001, got {}", sigma_1s);
}

#[test]
fn test_penalty_affects_close_direction_long_held() {
    let mid_price = 10_000_000.0;
    let best_pair = (FloatingExp::new(10, -5, 5), FloatingExp::new(10, -5, 5));
    let (_buy_price, sell_price) = order_prices(mid_price, &best_pair, 0.001, 0.0, 50.0, 0.001);

    let base_ask = mid_price + best_pair.1.calc() as f64 / 1e9 * mid_price;
    assert!(
        sell_price != base_ask,
        "sell price should have penalty applied when long is held, sell={} base_ask={}",
        sell_price,
        base_ask
    );
}

#[test]
fn test_penalty_affects_close_direction_short_held() {
    let mid_price = 10_000_000.0;
    let best_pair = (FloatingExp::new(10, -5, 5), FloatingExp::new(10, -5, 5));
    let (buy_price, _sell_price) = order_prices(mid_price, &best_pair, 0.0, 0.001, 50.0, 0.001);

    let base_bid = mid_price - best_pair.0.calc() as f64 / 1e9 * mid_price;
    assert!(
        buy_price != base_bid,
        "buy price should have penalty applied when short is held, buy={} base_bid={}",
        buy_price,
        base_bid
    );
}

#[test]
fn test_penalty_zero_when_no_position() {
    let mid_price = 10_000_000.0;
    let best_pair = (FloatingExp::new(10, -5, 5), FloatingExp::new(10, -5, 5));
    let (buy_price, sell_price) = order_prices(mid_price, &best_pair, 0.0, 0.0, 50.0, 0.001);

    let base_bid = mid_price - best_pair.0.calc() as f64 / 1e9 * mid_price;
    let base_ask = mid_price + best_pair.1.calc() as f64 / 1e9 * mid_price;

    assert!(
        (buy_price - base_bid).abs() < 1e-6,
        "no position: buy should equal base_bid, buy={} base_bid={}",
        buy_price,
        base_bid
    );
    assert!(
        (sell_price - base_ask).abs() < 1e-6,
        "no position: sell should equal base_ask, sell={} base_ask={}",
        sell_price,
        base_ask
    );
}

/// Thousandths of a yen.
fn milli_yen(yen: f64) -> u64 {
    (yen * 1000.0).round() as u64
}

#[test]
fn test_stop_loss_pnl_long_position() {
    let pos = Position {
        long_size: units(0.001),
        short_size: 0,
        long_open_price: 14_000_000,
        short_open_price: 0,
    };
    let plan = evaluate_stop_loss(&pos, 13_995_000, units(0.001), milli_yen(4.9)).unwrap();
    let pnl = plan.unrealized_pnl as f64 / 1e8;
    assert!((pnl - (-5.0)).abs() < 0.01, "expected ~-5.0 JPY, got {}", pnl);
    assert_eq!(plan.close_side, OrderSide::SELL);
    assert_eq!(plan.close_size, units(0.001));
    assert_eq!(plan.open_price, 14_000_000);
}

#[test]
fn test_stop_loss_pnl_short_position() {
    let pos = Position {
        long_size: 0,
        short_size: units(0.001),
        long_open_price: 0,
        short_open_price: 14_000_000,
    };
    let plan = evaluate_stop_loss(&pos, 14_005_000, units(0.001), milli_yen(4.9)).unwrap();
    let pnl = plan.unrealized_pnl as f64 / 1e8;
    assert!((pnl - (-5.0)).abs() < 0.01, "expected ~-5.0 JPY, got {}", pnl);
    assert_eq!(plan.close_side, OrderSide::BUY);
}

#[test]
fn test_stop_loss_both_sides_closes_worse_side() {
    // long losing 4 JPY, short losing 2 JPY: 6 JPY in all, beyond 5 JPY
    let pos = Position {
        long_size: units(0.001),
        short_size: units(0.001),
        long_open_price: 14_004_000,
        short_open_price: 13_998_000,
    };
    let plan = evaluate_stop_loss(&pos, 14_000_000, units(0.001), milli_yen(5.0)).unwrap();
    let total = plan.unrealized_pnl as f64 / 1e8;
    assert!(total < -5.0, "total pnl should trigger stop-loss");
    assert_eq!(total, -6.0);
    assert_eq!(plan.close_side, OrderSide::SELL, "long should be worse");
    assert_eq!(plan.open_price, 14_004_000);
}

#[test]
fn test_stop_loss_no_trigger_within_threshold() {
    let pos = Position {
        long_size: units(0.001),
        short_size: 0,
        long_open_price: 14_000_000,
        short_open_price: 0,
    };
    let threshold = 5.0;
    let plan = evaluate_stop_loss(&pos, 13_997_000, units(0.001), milli_yen(threshold));
    assert!(plan.is_none(), "pnl of -3 should NOT trigger stop-loss (threshold={})", threshold);
}

#[test]
fn test_stop_loss_zero_open_price_skips() {
    let pos = Position {
        long_size: units(0.001),
        short_size: 0,
        long_open_price: 0,
        short_open_price: 0,
    };
    let plan = evaluate_stop_loss(&pos, 13_000_000, units(0.001), milli_yen(5.0));
    assert!(plan.is_none(), "zero open_price should yield 0 pnl");
}

/// Inputs whose bid and ask lie `spread` yen from a mid price of fourteen million.
fn close_inputs(rate: u64, long_size: f64, short_size: f64) -> QuoteInputs {
    QuoteInputs {
        mid_price: 14_000_000,
        best_bid: 13_999_990,
        best_ask: 14_000_010,
        buy: FloatingExp { base: 10, exp: -9, rate },
        sell: FloatingExp { base: 10, exp: -9, rate },
        position: position(long_size, short_size),
        pending_buy: 0,
        pending_sell: 0,
        tapered_buy: units(0.001),
        tapered_sell: units(0.001),
        min_lot: units(0.001),
        max_position: units(1.0),
        close_spread_factor: ppb(0.5),
        utc_hour: 3,
    }
}

#[test]
fn test_close_pricing_more_aggressive_than_open() {
    let mid_price = 14_000_000;
    // both sides held alike: no inventory shift, a spread of 100 JPY either way
    let held = close_inputs(7143, 0.001, 0.001);
    let flat = close_inputs(7143, 0.0, 0.0);
    let risk = RiskStateMachine::new();

    let close = plan_orders(&held, &risk, 0);
    let open = plan_orders(&flat, &risk, 0);
    let close_buy = close.buy.unwrap();
    let close_sell = close.sell.unwrap();
    let open_buy = open.buy.unwrap();
    let open_sell = open.sell.unwrap();
    assert!(close_buy.is_close && close_sell.is_close);
    assert!(!open_buy.is_close && !open_sell.is_close);

    assert!(
        close_buy.price > open_buy.price,
        "close buy should be closer to mid: close={} open={}",
        close_buy.price,
        open_buy.price
    );
    assert!(
        close_sell.price < open_sell.price,
        "close sell should be closer to mid: close={} open={}",
        close_sell.price,
        open_sell.price
    );
    assert!(close_buy.price < mid_price, "close buy should be below mid");
    assert!(close_sell.price > mid_price, "close sell should be above mid");
    assert_eq!(open_buy.price, 13_999_900);
    assert_eq!(open_sell.price, 14_000_100);
    assert_eq!(close_buy.price, 13_999_950);
    assert_eq!(close_sell.price, 14_000_050);
}

#[test]
fn test_close_pricing_safety_clamp() {
    let mid_price = 14_000_000;
    // a spread of less than one yen
    let held = close_inputs(36, 0.001, 0.001);
    let plan = plan_orders(&held, &RiskStateMachine::new(), 0);
    let close_buy = plan.buy.unwrap().price;
    let close_sell = plan.sell.unwrap().price;

    assert!(
        close_buy <= mid_price - 1,
        "close buy should be at least 1 JPY below mid: {}",
        close_buy
    );
    assert!(
        close_sell >= mid_price + 1,
        "close sell should be at least 1 JPY above mid: {}",
        close_sell
    );
}

#[test]
fn test_position_open_price_weighted_average() {
    let lines = vec![
        PositionLine { side: OrderSide::BUY, size: units(0.001), price: 14_000_000 },
        PositionLine { side: OrderSide::BUY, size: units(0.001), price: 14_010_000 },
    ];
    let pos = aggregate_positions(&lines).unwrap();
    let avg_price = pos.long_open_price as f64;
    assert!(
        (avg_price - 14_005_000.0_f64).abs() < 0.01,
        "weighted avg should be 14,005,000, got {}",
        avg_price
    );
    assert_eq!(pos.long_size, units(0.002));
}

#[test]
fn test_position_open_price_zero_when_no_position() {
    let lines = vec![PositionLine { side: OrderSide::SELL, size: units(0.001), price: 14_000_000 }];
    let pos = aggregate_positions(&lines).unwrap();
    assert_eq!(pos.long_open_price, 0, "no position should have open_price 0");
    assert_eq!(pos.short_open_price, 14_000_000);
}

#[test]
fn test_err_no_open_position_constant() {
    assert_eq!(ERR_NO_OPEN_POSITION, "ERR-422");
}

#[test]
fn test_order_result_has_no_open_position_variant() {
    let result = OrderResult::NoOpenPosition;
    assert!(matches!(result, OrderResult::NoOpenPosition));
    assert!(!matches!(result, OrderResult::MarginInsufficient));
    assert!(!matches!(result, OrderResult::Success));
}

#[test]
fn test_ghost_position_reset_logic() {
    let mut position = Position {
        long_size: units(0.001),
        short_size: 0,
        long_open_price: 14_000_000,
        short_open_price: 0,
    };
    reset_position(&mut position);
    assert_eq!(position.long_size, 0, "ghost reset: long_size should be 0");
    assert_eq!(position.short_size, 0, "ghost reset: short_size should be 0");
    assert_eq!(position.long_open_price, 0, "ghost reset: long_open_price should be 0");
    assert_eq!(position.short_open_price, 0, "ghost reset: short_open_price should be 0");
}

fn message(code: &str) -> ApiErrorMessage {
    ApiErrorMessage { message_code: code.to_string(), message_string: String::new() }
}

#[test]
fn test_order_result_no_open_position_priority() {
    // a refusal that names both the missing position and the margin
    let mut orders = OpenOrders::new();
    let outcome = SubmitOutcome::Rejected {
        messages: vec![message("ERR-201"), message("ERR-422")],
        detail: "both".to_string(),
    };
    let report = settle_submission(&mut orders, order_info(0.001, OrderSide::SELL, true), outcome);
    assert!(matches!(report.result, OrderResult::NoOpenPosition));
    assert_eq!(orders.len(), 0);
}

#[test]
fn test_ghost_cooldown_extended_to_60s() {
    assert_eq!(GHOST_POSITION_COOLDOWN_SECS, 60);
    assert!(
        GHOST_POSITION_COOLDOWN_SECS > STOP_LOSS_COOLDOWN_SECS,
        "ghost cooldown {}s should exceed stop-loss cooldown 10s",
        GHOST_POSITION_COOLDOWN_SECS
    );
    assert_eq!(STOP_LOSS_COOLDOWN_SECS, 10);
}

#[test]
fn test_ewma_volatility_basic() {
    let executions: Vec<(u64, f64, i64)> =
        vec![(14_000_000, 0.001, 1000), (14_000_100, 0.001, 2000), (14_000_050, 0.001, 3000)];
    let vol = volatility(&executions);
    assert!(vol > 0.0, "volatility should be positive");
    assert!(vol < 1000.0, "volatility should be reasonable for small moves");
}

#[test]
fn test_ewma_volatility_recency_weight() {
    let base = 14_000_000u64;
    let calm_jitter = [
        0i64, 50, -30, 20, -10, 40, -20, 60, -50, 30, 10, -40, 25, -15, 35, -25, 45, -35, 55, -45,
    ];

    let mut early_volatile: Vec<(u64, f64, i64)> = Vec::new();
    let mut ts = 1000i64;
    early_volatile.push((base, 0.001, ts));
    ts += 100;
    early_volatile.push((base + 10_000, 0.001, ts));
    ts += 100;
    early_volatile.push((base, 0.001, ts));
    ts += 100;
    for j in &calm_jitter {
        early_volatile.push(((base as i64 + j) as u64, 0.001, ts));
        ts += 100;
    }

    let mut late_volatile: Vec<(u64, f64, i64)> = Vec::new();
    ts = 1000;
    late_volatile.push((base, 0.001, ts));
    ts += 100;
    for j in &calm_jitter {
        late_volatile.push(((base as i64 + j) as u64, 0.001, ts));
        ts += 100;
    }
    late_volatile.push((base + 10_000, 0.001, ts));
    ts += 100;
    late_volatile.push((base, 0.001, ts));

    let vol_early = volatility(&early_volatile);
    let vol_late = volatility(&late_volatile);

    assert!(
        vol_late > vol_early,
        "EWMA should weight recent volatility higher: late={} early={}",
        vol_late,
        vol_early
    );
}

#[test]
fn test_ewma_volatility_minimum_floor() {
    let executions: Vec<(u64, f64, i64)> =
        vec![(14_000_000, 0.001, 1000), (14_000_000, 0.001, 2000), (14_000_000, 0.001, 3000)];
    let vol = volatility(&executions);
    let min_vol = 14_000_000.0 * (MIN_VOLATILITY_BPS as f64 / 1e9);
    assert!(vol >= min_vol, "volatility {} should be >= floor {}", vol, min_vol);
    assert_eq!(vol, 700.0);
}

#[test]
fn test_ewma_volatility_single_point() {
    let executions: Vec<(u64, f64, i64)> = vec![(14_000_000, 0.001, 1000)];
    let vol = volatility(&executions);
    assert!(vol > 0.0);
}

#[test]
fn test_ewma_volatility_empty() {
    let executions: Vec<(u64, f64, i64)> = vec![];
    let vol = volatility(&executions);
    assert!(vol > 0.0);
}

#[test]
fn test_trading_hours_utc_0_to_14() {
    for hour in 0..15 {
        assert!(is_trading_hour(hour), "UTC {} should be in trading hours", hour);
    }
}

#[test]
fn test_no_trading_utc_15_to_23() {
    for hour in 15..24 {
        assert!(!is_trading_hour(hour), "UTC {} should NOT be in trading hours", hour);
    }
}

#[test]
fn test_trading_hour_boundary() {
    assert!(is_trading_hour(14), "UTC 14 = last trading hour");
    assert!(!is_trading_hour(15), "UTC 15 = first blocked hour");
    assert!(!is_trading_hour(24), "out-of-range hour should be blocked");
}

fn held_long() -> Position {
    Position {
        long_size: units(0.001),
        short_size: 0,
        long_open_price: 14_000_000,
        short_open_price: 0,
    }
}

/// Whether the cycle plans an order that closes the long position.
fn plans_close_long(position: Position, risk: &RiskStateMachine, now: u64) -> bool {
    let mut inputs = close_inputs(7143, 0.0, 0.0);
    inputs.position = position;
    plan_orders(&inputs, risk, now).sell.map_or(false, |o| o.is_close)
}

fn plans_close_short(position: Position, risk: &RiskStateMachine, now: u64) -> bool {
    let mut inputs = close_inputs(7143, 0.0, 0.0);
    inputs.position = position;
    plan_orders(&inputs, risk, now).buy.map_or(false, |o| o.is_close)
}

#[test]
fn test_close_order_suppressed_during_ghost_cooldown() {
    let now = 1_000_000;
    let mut risk = RiskStateMachine::new();
    let until = risk.enter_ghost_cooldown(now, 60);
    assert_eq!(until, now + 60_000);
    assert!(!risk.can_close(now), "ghost cooldown should be active");

    let current_position = held_long();
    assert!(
        !plans_close_long(current_position, &risk, now),
        "close_long should be suppressed during ghost cooldown"
    );
    assert!(
        !plans_close_short(current_position, &risk, now),
        "close_short should be suppressed (no position)"
    );
}

#[test]
fn test_close_order_allowed_during_sl_cooldown_without_ghost() {
    let now = 1_000_000;
    let mut risk = RiskStateMachine::new();
    risk.enter_stop_loss_cooldown(now);
    assert!(risk.can_close(now), "ghost cooldown should NOT be active");
    assert!(!risk.can_evaluate_stop_loss(now));
    assert!(risk.can_evaluate_stop_loss(now + 10_000));

    assert!(
        plans_close_long(held_long(), &risk, now),
        "close should be allowed during SL-only cooldown"
    );
}

#[test]
fn test_close_order_allowed_after_ghost_cooldown() {
    let risk = RiskStateMachine::new();
    assert!(risk.can_close(0), "no cooldown should be active");
    assert!(plans_close_long(held_long(), &risk, 0), "close should be allowed when no cooldown active");
}

#[test]
fn test_close_order_allowed_with_expired_cooldown() {
    let now = 1_000_000;
    let mut risk = RiskStateMachine::new();
    risk.enter_ghost_cooldown(now - 61_000, 60);
    assert!(risk.can_close(now), "expired cooldown should not be active");

    let current_position = Position {
        long_size: 0,
        short_size: units(0.001),
        long_open_price: 0,
        short_open_price: 14_000_000,
    };
    assert!(
        plans_close_short(current_position, &risk, now),
        "close_short should be allowed after expired cooldown"
    );
}

#[test]
fn test_ghost_suppression_type() {
    let now = 1_000_000;
    let mut risk = RiskStateMachine::new();
    let mut position = held_long();
    assert!(risk.ghost_until.is_none());

    let until = activate_ghost_protection(&mut position, &mut risk, now, 60);
    assert!(risk.ghost_until.is_some());
    assert!(now < until, "should be within suppression window");
    assert_eq!(position.long_size, 0);

    // an empty listing within the window is passed over
    let empty: Vec<PositionLine> = vec![];
    assert_eq!(poll_position(&mut position, &mut risk, now + 5_000, &empty), PollVerdict::Skipped);
    assert_eq!(position.long_size, 0);
    assert!(risk.ghost_until.is_some());
}

#[test]
fn test_ghost_suppression_expired() {
    let now = 1_000_000;
    let mut risk = RiskStateMachine::new();
    let mut position = held_long();
    let until = activate_ghost_protection(&mut position, &mut risk, now - 61_000, 60);
    assert!(now >= until, "suppression should have expired");

    let empty: Vec<PositionLine> = vec![];
    assert_eq!(poll_position(&mut position, &mut risk, now, &empty), PollVerdict::Written);
    assert!(risk.ghost_until.is_none());
}

#[test]
fn test_order_size_calculation() {
    let long_size: f64 = 0.0;
    let max_position_size: f64 = 0.02;
    let min_lot: f64 = 0.01;
    let max_lot: f64 = 0.01;
    let position_ratio: f64 = 0.9;

    let (buy_size, _) =
        order_sizes(long_size, 0.0, max_position_size, min_lot, max_lot, position_ratio);

    assert_eq!(buy_size, 0.01);
}

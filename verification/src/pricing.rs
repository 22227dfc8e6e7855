//! Order prices and order lifetime: how far from the mid price a quote is
//! placed once inventory is taken into account, and how long it may rest.

use crate::bayes_prob::PPB;
use crate::model::{FloatingExp, Position, MAX_FACTOR, MAX_PRICE};
use crate::quote::{level_offset, offset_of};
use vstd::arithmetic::div_mod::{
    lemma_div_is_ordered, lemma_div_multiples_vanish, lemma_div_pos_is_pos,
    lemma_fundamental_div_mod, lemma_mod_pos_bound,
};
use vstd::arithmetic::mul::lemma_mul_inequality_converse;
use vstd::prelude::*;

verus! {

/// The share of the spread, in parts per billion, by which inventory may
/// widen or narrow a quote: one fifth.
pub const INVENTORY_SPREAD_ADJUSTMENT: u64 = 200_000_000;

/// The gross exposure, in size units, below which the inventory skew is
/// measured against this floor instead: a thousandth of a coin.
pub const MIN_EXPOSURE: u64 = 100_000;

/// Yen by which one minimum lot of inventory shifts both quotes.
pub const POSITION_PENALTY: u64 = 50;

/// The first hour of the day, UTC, in which no position is opened.
pub const TRADING_HOURS_END: u32 = 15;

/// Opening orders are placed from 00:00 to 14:59 UTC only.
pub fn is_trading_hour(utc_hour: u32) -> (open: bool)
    ensures
        open == (utc_hour < TRADING_HOURS_END),
{
    utc_hour < 15
}

/// `(spread / sigma)^2` seconds, in milliseconds, rounded down.
pub open spec fn raw_lifetime_ms(spread_pct: u64, sigma_1s: u64) -> int {
    (1000 * (spread_pct * spread_pct)) / (sigma_1s * sigma_1s)
}

/// The lifetime of an order: the raw lifetime held within `min_ms` and
/// `max_ms`, and `max_ms` where the spread or the volatility is zero.
pub open spec fn t_optimal_of(spread_pct: u64, sigma_1s: u64, min_ms: u64, max_ms: u64) -> int {
    if sigma_1s == 0 || spread_pct == 0 {
        max_ms as int
    } else {
        let raw = raw_lifetime_ms(spread_pct, sigma_1s);
        if raw < min_ms {
            min_ms as int
        } else if raw > max_ms {
            max_ms as int
        } else {
            raw
        }
    }
}

proof fn lemma_square_ordered(x: int, y: int)
    by (nonlinear_arith)
    requires
        0 <= x <= y,
    ensures
        x * x <= y * y,
{
}

/// Floors of fractions are ordered as the fractions are.
proof fn lemma_quotients_ordered(a: int, b: int, c: int, d: int)
    requires
        0 <= a,
        0 <= c,
        0 < b,
        0 < d,
        a * d <= c * b,
    ensures
        a / b <= c / d,
{
    let q = a / b;
    lemma_fundamental_div_mod(a, b);
    lemma_mod_pos_bound(a, b);
    lemma_div_pos_is_pos(a, b);
    assert(q * b <= a) by (nonlinear_arith)
        requires
            a == b * q + a % b,
            a % b >= 0,
    ;
    assert((q * d) * b <= c * b) by (nonlinear_arith)
        requires
            q * b <= a,
            a * d <= c * b,
            d > 0,
    ;
    lemma_mul_inequality_converse(q * d, c, b);
    lemma_div_is_ordered(q * d, c, d);
    assert(q * d == d * q) by (nonlinear_arith);
    lemma_div_multiples_vanish(q, d);
}

/// An order may rest longer the wider its spread is against the
/// volatility: the lifetime never falls when the ratio of spread to
/// volatility rises, both being positive.
pub proof fn lemma_t_optimal_monotone(
    spread_a: u64,
    sigma_a: u64,
    spread_b: u64,
    sigma_b: u64,
    min_ms: u64,
    max_ms: u64,
)
    requires
        min_ms <= max_ms,
        spread_a > 0,
        sigma_a > 0,
        spread_b > 0,
        sigma_b > 0,
        spread_a * sigma_b <= spread_b * sigma_a,
    ensures
        t_optimal_of(spread_a, sigma_a, min_ms, max_ms) <= t_optimal_of(
            spread_b,
            sigma_b,
            min_ms,
            max_ms,
        ),
{
    let x = spread_a * sigma_b;
    let y = spread_b * sigma_a;
    assert(0 <= x) by (nonlinear_arith)
        requires
            x == spread_a * sigma_b,
    ;
    lemma_square_ordered(x, y);
    let a = 1000 * (spread_a * spread_a);
    let b = sigma_a * sigma_a;
    let c = 1000 * (spread_b * spread_b);
    let d = sigma_b * sigma_b;
    assert(a * d == 1000 * (x * x)) by (nonlinear_arith)
        requires
            a == 1000 * (spread_a * spread_a),
            d == sigma_b * sigma_b,
            x == spread_a * sigma_b,
    ;
    assert(c * b == 1000 * (y * y)) by (nonlinear_arith)
        requires
            c == 1000 * (spread_b * spread_b),
            b == sigma_a * sigma_a,
            y == spread_b * sigma_a,
    ;
    assert(0 <= a && 0 <= c && 0 < b && 0 < d) by (nonlinear_arith)
        requires
            a == 1000 * (spread_a * spread_a),
            b == sigma_a * sigma_a,
            c == 1000 * (spread_b * spread_b),
            d == sigma_b * sigma_b,
            sigma_a > 0,
            sigma_b > 0,
    ;
    lemma_quotients_ordered(a, b, c, d);
}

/// The lifetime of an order in milliseconds, from its relative spread and
/// the volatility as a fraction of the mid price, both in parts per billion.
pub fn calculate_t_optimal(spread_pct: u64, sigma_1s: u64, min_ms: u64, max_ms: u64) -> (t: u64)
    requires
        min_ms <= max_ms,
        spread_pct <= MAX_FACTOR,
    ensures
        t == t_optimal_of(spread_pct, sigma_1s, min_ms, max_ms),
        min_ms <= t <= max_ms,
        sigma_1s == 0 ==> t == max_ms,
{
    if sigma_1s == 0 || spread_pct == 0 {
        return max_ms;
    }
    proof {
        lemma_square_ordered(spread_pct as int, 1_000_000_000_000);
        lemma_square_ordered(sigma_1s as int, u64::MAX as int);
        lemma_square_ordered(1, sigma_1s as int);
        lemma_square_ordered(0, spread_pct as int);
    }
    let s2: u128 = spread_pct as u128 * spread_pct as u128;
    let d2: u128 = sigma_1s as u128 * sigma_1s as u128;
    let raw: u128 = (1000 * s2) / d2;
    if raw < min_ms as u128 {
        min_ms
    } else if raw > max_ms as u128 {
        max_ms
    } else {
        raw as u64
    }
}

/// `magnitude * factor`, the factor in parts per billion, rounded down.
pub open spec fn scaled_of(magnitude: int, factor: int) -> int {
    (magnitude * factor) / (PPB as int)
}

/// `magnitude * factor / PPB`, rounded down.
pub fn scale(magnitude: u64, factor: u64) -> (r: u128)
    ensures
        r == scaled_of(magnitude as int, factor as int),
{
    assert(0 <= magnitude * factor <= u64::MAX * u64::MAX) by (nonlinear_arith)
        requires
            0 <= magnitude <= u64::MAX,
            0 <= factor <= u64::MAX,
    ;
    let product: u128 = magnitude as u128 * factor as u128;
    product / (PPB as u128)
}

/// How one-sided the inventory is, as a share of the adjustment: the net
/// position over the gross exposure (or over `MIN_EXPOSURE`, if that is
/// more), times one fifth; positive when long. Parts per billion.
pub open spec fn skew_of(position: Position) -> int {
    let total = position.long_size + position.short_size;
    let floor = if total > MIN_EXPOSURE {
        total
    } else {
        MIN_EXPOSURE as int
    };
    if position.long_size >= position.short_size {
        ((position.long_size - position.short_size) * INVENTORY_SPREAD_ADJUSTMENT) / floor
    } else {
        -(((position.short_size - position.long_size) * INVENTORY_SPREAD_ADJUSTMENT) / floor)
    }
}

/// How much both spreads widen for gross exposure: the larger side over
/// the largest position allowed, times one fifth, and at most one fifth.
pub open spec fn exposure_penalty_of(position: Position, max_position_size: u64) -> int {
    let larger = if position.long_size >= position.short_size {
        position.long_size
    } else {
        position.short_size
    };
    if max_position_size == 0 {
        0
    } else {
        let share = (larger * INVENTORY_SPREAD_ADJUSTMENT) / (max_position_size as int);
        if share > INVENTORY_SPREAD_ADJUSTMENT {
            INVENTORY_SPREAD_ADJUSTMENT as int
        } else {
            share
        }
    }
}

/// The factor on the bid's spread: above one when long or heavily exposed.
pub open spec fn buy_adjustment_of(position: Position, max_position_size: u64) -> int {
    PPB + skew_of(position) + exposure_penalty_of(position, max_position_size)
}

/// The factor on the ask's spread: above one when short or heavily exposed.
pub open spec fn sell_adjustment_of(position: Position, max_position_size: u64) -> int {
    PPB - skew_of(position) + exposure_penalty_of(position, max_position_size)
}

/// The skew is at most a fifth either way, the penalty between nothing and a fifth.
pub proof fn lemma_adjustment_bounds(position: Position, max_position_size: u64)
    ensures
        -INVENTORY_SPREAD_ADJUSTMENT <= skew_of(position) <= INVENTORY_SPREAD_ADJUSTMENT,
        position.long_size >= position.short_size ==> skew_of(position) >= 0,
        position.long_size <= position.short_size ==> skew_of(position) <= 0,
        0 <= exposure_penalty_of(position, max_position_size) <= INVENTORY_SPREAD_ADJUSTMENT,
        sell_adjustment_of(position, max_position_size) <= buy_adjustment_of(
            position,
            max_position_size,
        ) <==> skew_of(position) >= 0,
{
    let total = position.long_size + position.short_size;
    let floor = if total > MIN_EXPOSURE {
        total
    } else {
        MIN_EXPOSURE as int
    };
    let net = if position.long_size >= position.short_size {
        position.long_size - position.short_size
    } else {
        position.short_size - position.long_size
    };
    let adj = INVENTORY_SPREAD_ADJUSTMENT as int;
    assert(0 <= net * adj <= floor * adj) by (nonlinear_arith)
        requires
            0 <= net <= floor,
            adj >= 0,
    ;
    lemma_div_pos_is_pos(net * adj, floor);
    lemma_div_is_ordered(net * adj, floor * adj, floor);
    lemma_div_multiples_vanish(adj, floor);
    if max_position_size > 0 {
        let larger = if position.long_size >= position.short_size {
            position.long_size
        } else {
            position.short_size
        };
        assert(0 <= larger * adj) by (nonlinear_arith)
            requires
                0 <= larger,
                adj >= 0,
        ;
        lemma_div_pos_is_pos(larger * adj, max_position_size as int);
    }
}

/// The factors by which inventory scales the bid's and the ask's spread,
/// in parts per billion: `(buy, sell)`.
pub fn calculate_spread_adjustment(position: &Position, max_position_size: u64) -> (adj: (u64, u64))
    ensures
        adj.0 == buy_adjustment_of(*position, max_position_size),
        adj.1 == sell_adjustment_of(*position, max_position_size),
        800_000_000 <= adj.0 <= 1_400_000_000,
        800_000_000 <= adj.1 <= 1_400_000_000,
{
    proof {
        lemma_adjustment_bounds(*position, max_position_size);
    }
    let total: u128 = position.long_size as u128 + position.short_size as u128;
    let floor: u128 = if total > 100_000 {
        total
    } else {
        100_000
    };
    let long_heavy: bool = position.long_size >= position.short_size;
    let net: u128 = if long_heavy {
        (position.long_size - position.short_size) as u128
    } else {
        (position.short_size - position.long_size) as u128
    };
    let skew: u128 = (net * 200_000_000) / floor;
    let larger: u128 = if long_heavy {
        position.long_size as u128
    } else {
        position.short_size as u128
    };
    let penalty: u128 = if max_position_size == 0 {
        0
    } else {
        let share: u128 = (larger * 200_000_000) / (max_position_size as u128);
        if share > 200_000_000 {
            200_000_000
        } else {
            share
        }
    };
    let one: u128 = 1_000_000_000;
    if long_heavy {
        ((one + skew + penalty) as u64, (one - skew + penalty) as u64)
    } else {
        ((one - skew + penalty) as u64, (one + skew + penalty) as u64)
    }
}

/// Yen by which inventory shifts both quotes: `penalty` per minimum lot
/// held, upwards when short, downwards when long; rounded towards zero.
pub open spec fn inventory_shift_of(position: Position, penalty: u64, min_lot: u64) -> int {
    if position.short_size >= position.long_size {
        (penalty * (position.short_size - position.long_size)) / (min_lot as int)
    } else {
        -((penalty * (position.long_size - position.short_size)) / (min_lot as int))
    }
}

/// The bid before the spread adjustment: the level's price shifted by inventory.
pub open spec fn base_buy_price_of(
    mid: u64,
    buy_value: u64,
    position: Position,
    penalty: u64,
    min_lot: u64,
) -> int {
    mid - offset_of(mid, buy_value) + inventory_shift_of(position, penalty, min_lot)
}

/// The ask before the spread adjustment: the level's price shifted by inventory.
pub open spec fn base_sell_price_of(
    mid: u64,
    sell_value: u64,
    position: Position,
    penalty: u64,
    min_lot: u64,
) -> int {
    mid + offset_of(mid, sell_value) + inventory_shift_of(position, penalty, min_lot)
}

/// The shift of both quotes for the inventory held.
pub fn inventory_shift(position: &Position, penalty: u64, min_lot: u64) -> (shift: i128)
    requires
        min_lot > 0,
        penalty <= MAX_PRICE,
    ensures
        shift == inventory_shift_of(*position, penalty, min_lot),
        -18_446_744_073_709_551_615_000_000_000_000 <= shift
            <= 18_446_744_073_709_551_615_000_000_000_000,
        position.short_size >= position.long_size ==> shift <= penalty * (position.short_size
            - position.long_size),
        position.long_size >= position.short_size ==> -shift <= penalty * (position.long_size
            - position.short_size),
        position.long_size == position.short_size ==> shift == 0,
        position.long_size > position.short_size ==> shift <= 0,
        position.long_size < position.short_size ==> shift >= 0,
{
    let short_heavy: bool = position.short_size >= position.long_size;
    let net: u64 = if short_heavy {
        position.short_size - position.long_size
    } else {
        position.long_size - position.short_size
    };
    assert(0 <= penalty * net <= 1_000_000_000_000 * u64::MAX) by (nonlinear_arith)
        requires
            0 <= penalty <= 1_000_000_000_000,
            0 <= net <= u64::MAX,
    ;
    let product: u128 = penalty as u128 * net as u128;
    let magnitude: u128 = product / (min_lot as u128);
    proof {
        lemma_div_pos_is_pos(product as int, min_lot as int);
        lemma_div_is_ordered(0, product as int, min_lot as int);
        vstd::arithmetic::div_mod::lemma_div_is_ordered_by_denominator(
            product as int,
            1,
            min_lot as int,
        );
        if net == 0 {
            assert(product == 0) by (nonlinear_arith)
                requires
                    product == penalty * net,
                    net == 0,
            ;
        }
    }
    if short_heavy {
        magnitude as i128
    } else {
        -(magnitude as i128)
    }
}

/// The prices of the bid and the ask before the spread adjustment: the
/// prices of the chosen levels, both shifted against the inventory held.
pub fn calculate_order_prices(
    mid_price: u64,
    best_pair: &(FloatingExp, FloatingExp),
    position: &Position,
    position_penalty: u64,
    min_lot: u64,
) -> (prices: (i128, i128))
    requires
        mid_price <= MAX_PRICE,
        position_penalty <= MAX_PRICE,
        min_lot > 0,
        best_pair.0.representable() && best_pair.0.value_ppb() <= PPB,
        best_pair.1.representable() && best_pair.1.value_ppb() <= PPB,
    ensures
        prices.0 == base_buy_price_of(
            mid_price,
            best_pair.0.value_ppb() as u64,
            *position,
            position_penalty,
            min_lot,
        ),
        prices.1 == base_sell_price_of(
            mid_price,
            best_pair.1.value_ppb() as u64,
            *position,
            position_penalty,
            min_lot,
        ),
        prices.0 <= prices.1,
{
    let buy_value: u64 = best_pair.0.calc();
    let sell_value: u64 = best_pair.1.calc();
    let bid: u64 = mid_price - level_offset(mid_price, buy_value);
    let ask: u64 = mid_price + level_offset(mid_price, sell_value);
    let shift: i128 = inventory_shift(position, position_penalty, min_lot);
    (bid as i128 + shift, ask as i128 + shift)
}

} // verus!

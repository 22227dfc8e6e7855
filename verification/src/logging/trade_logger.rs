//! What happens to orders, one row of seventeen columns per event.

use crate::bayes_prob::PPB;
use crate::model::{OrderInfo, SIZE_SCALE};
use crate::risk::StopLossPlan;
use crate::util::{
    bool_string, bool_text_of, decimal_of, decimal_string, fixed_point_of, fixed_point_string,
    magnitude, padded, padded_of, rounded_of, rounded_string, signed, signed_of,
};
use vstd::prelude::*;
use vstd::string::StringExecFns;

verus! {

/// How many events may wait to be written before events are dropped.
pub const CHANNEL_BUFFER_SIZE: usize = 1000;

/// The columns of a row.
pub const CSV_HEADER: [&'static str; 17] = [
    "timestamp",
    "event",
    "order_id",
    "side",
    "price",
    "size",
    "is_close",
    "error",
    "order_age_ms",
    "mid_price",
    "t_optimal_ms",
    "sigma_1s",
    "spread_pct",
    "level",
    "p_fill",
    "best_ev",
    "single_leg_ev",
];

/// An event of the trade log. Prices are in yen, sizes in size units,
/// fractions in parts per billion, expected values in yen scaled by
/// `PPB * PPB`, a profit in yen times size units.
#[derive(Debug, Clone)]
pub enum TradeEvent {
    OrderSent {
        timestamp: String,
        order_id: String,
        side: String,
        price: u64,
        size: u64,
        is_close: bool,
        mid_price: u64,
        t_optimal_ms: u64,
        sigma_1s: u64,
        spread_pct: u64,
        level: u32,
        p_fill: u64,
        best_ev: i128,
        single_leg_ev: i128,
    },
    OrderCancelled {
        timestamp: String,
        order_id: String,
        order_age_ms: u64,
        level: u32,
        side: String,
        is_close: bool,
    },
    OrderFilled {
        timestamp: String,
        order_id: String,
        side: String,
        price: u64,
        size: u64,
        order_age_ms: u64,
        is_close: bool,
        mid_price: u64,
        t_optimal_ms: u64,
        sigma_1s: u64,
        spread_pct: u64,
        level: u32,
        p_fill: u64,
        best_ev: i128,
        single_leg_ev: i128,
    },
    OrderFailed {
        timestamp: String,
        side: String,
        price: u64,
        size: u64,
        error: String,
        mid_price: u64,
        t_optimal_ms: u64,
        sigma_1s: u64,
        spread_pct: u64,
    },
    StopLossTriggered {
        timestamp: String,
        side: String,
        size: u64,
        unrealized_pnl: i128,
        mid_price: u64,
        open_price: u64,
    },
}

/// The event of an order that the exchange accepted.
pub fn sent_event(timestamp: String, order_id: String, info: &OrderInfo) -> (event: TradeEvent)
    ensures
        event matches TradeEvent::OrderSent {
            timestamp: t,
            order_id: id,
            side,
            price,
            size,
            is_close,
            mid_price,
            t_optimal_ms,
            sigma_1s,
            spread_pct,
            level,
            p_fill,
            best_ev,
            single_leg_ev,
        } && t@ == timestamp@ && id@ == order_id@ && side@ == info.side.name() && price
            == info.price && size == info.size && is_close == info.is_close && mid_price
            == info.mid_price && t_optimal_ms == info.t_optimal_ms && sigma_1s == info.sigma_1s
            && spread_pct == info.spread_pct && level == info.level && p_fill == info.p_fill
            && best_ev == info.best_ev && single_leg_ev == info.single_leg_ev,
{
    TradeEvent::OrderSent {
        timestamp,
        order_id,
        side: info.side.to_string(),
        price: info.price,
        size: info.size,
        is_close: info.is_close,
        mid_price: info.mid_price,
        t_optimal_ms: info.t_optimal_ms,
        sigma_1s: info.sigma_1s,
        spread_pct: info.spread_pct,
        level: info.level,
        p_fill: info.p_fill,
        best_ev: info.best_ev,
        single_leg_ev: info.single_leg_ev,
    }
}

/// The event of an order that was refused or did not get through.
pub fn failed_event(timestamp: String, error: String, info: &OrderInfo) -> (event: TradeEvent)
    ensures
        event matches TradeEvent::OrderFailed {
            timestamp: t,
            side,
            price,
            size,
            error: e,
            mid_price,
            t_optimal_ms,
            sigma_1s,
            spread_pct,
        } && t@ == timestamp@ && e@ == error@ && side@ == info.side.name() && price
            == info.price && size == info.size && mid_price == info.mid_price && t_optimal_ms
            == info.t_optimal_ms && sigma_1s == info.sigma_1s && spread_pct == info.spread_pct,
{
    TradeEvent::OrderFailed {
        timestamp,
        side: info.side.to_string(),
        price: info.price,
        size: info.size,
        error,
        mid_price: info.mid_price,
        t_optimal_ms: info.t_optimal_ms,
        sigma_1s: info.sigma_1s,
        spread_pct: info.spread_pct,
    }
}

/// How long an order rested, seen from `now`.
pub open spec fn rested_ms(now: u64, info: OrderInfo) -> u64 {
    if now >= info.timestamp {
        (now - info.timestamp) as u64
    } else {
        0
    }
}

/// The event of an order that was cancelled at the instant `now`.
pub fn cancelled_event(timestamp: String, order_id: String, info: &OrderInfo, now: u64) -> (event:
    TradeEvent)
    ensures
        event matches TradeEvent::OrderCancelled {
            timestamp: t,
            order_id: id,
            order_age_ms,
            level,
            side,
            is_close,
        } && t@ == timestamp@ && id@ == order_id@ && order_age_ms == rested_ms(now, *info)
            && level == info.level && side@ == info.side.name() && is_close == info.is_close,
{
    TradeEvent::OrderCancelled {
        timestamp,
        order_id,
        order_age_ms: if now >= info.timestamp {
            now - info.timestamp
        } else {
            0
        },
        level: info.level,
        side: info.side.to_string(),
        is_close: info.is_close,
    }
}

/// The event of an order that had reached a final state when its
/// cancellation was asked for at the instant `now`: it counts as filled.
pub fn filled_event(timestamp: String, order_id: String, info: &OrderInfo, now: u64) -> (event:
    TradeEvent)
    ensures
        event matches TradeEvent::OrderFilled {
            timestamp: t,
            order_id: id,
            side,
            price,
            size,
            order_age_ms,
            is_close,
            mid_price,
            t_optimal_ms,
            sigma_1s,
            spread_pct,
            level,
            p_fill,
            best_ev,
            single_leg_ev,
        } && t@ == timestamp@ && id@ == order_id@ && side@ == info.side.name() && price
            == info.price && size == info.size && order_age_ms == rested_ms(now, *info)
            && is_close == info.is_close && mid_price == info.mid_price && t_optimal_ms
            == info.t_optimal_ms && sigma_1s == info.sigma_1s && spread_pct == info.spread_pct
            && level == info.level && p_fill == info.p_fill && best_ev == info.best_ev
            && single_leg_ev == info.single_leg_ev,
{
    TradeEvent::OrderFilled {
        timestamp,
        order_id,
        side: info.side.to_string(),
        price: info.price,
        size: info.size,
        order_age_ms: if now >= info.timestamp {
            now - info.timestamp
        } else {
            0
        },
        is_close: info.is_close,
        mid_price: info.mid_price,
        t_optimal_ms: info.t_optimal_ms,
        sigma_1s: info.sigma_1s,
        spread_pct: info.spread_pct,
        level: info.level,
        p_fill: info.p_fill,
        best_ev: info.best_ev,
        single_leg_ev: info.single_leg_ev,
    }
}

/// The event of a stop-loss order that went out.
pub fn stop_loss_event(timestamp: String, plan: &StopLossPlan) -> (event: TradeEvent)
    ensures
        event matches TradeEvent::StopLossTriggered {
            timestamp: t,
            side,
            size,
            unrealized_pnl,
            mid_price,
            open_price,
        } && t@ == timestamp@ && side@ == plan.close_side.name() && size == plan.close_size
            && unrealized_pnl == plan.unrealized_pnl && mid_price == plan.mid_price && open_price
            == plan.open_price,
{
    TradeEvent::StopLossTriggered {
        timestamp,
        side: plan.close_side.to_string(),
        size: plan.close_size,
        unrealized_pnl: plan.unrealized_pnl,
        mid_price: plan.mid_price,
        open_price: plan.open_price,
    }
}

/// A size in coins, as short as it can be written.
pub open spec fn size_field(size: u64) -> Seq<char> {
    fixed_point_of(size as nat, SIZE_SCALE as nat, 8)
}

/// A fraction, as short as it can be written.
pub open spec fn fraction_field(ppb: u64) -> Seq<char> {
    fixed_point_of(ppb as nat, PPB as nat, 9)
}

/// A probability with six decimals.
pub open spec fn probability_field(ppb: u64) -> Seq<char> {
    rounded_of(ppb as nat, 1000, 1_000_000, 6)
}

/// An expected value in yen with six decimals.
pub open spec fn ev_field(ev: i128) -> Seq<char> {
    signed_of(
        ev < 0,
        rounded_of((if ev < 0 { -ev } else { ev as int }) as nat, 1_000_000_000_000, 1_000_000, 6),
    )
}

/// A profit in yen with three decimals, after its name.
pub open spec fn pnl_field(pnl: i128) -> Seq<char> {
    "unrealized_pnl="@ + signed_of(
        pnl < 0,
        rounded_of((if pnl < 0 { -pnl } else { pnl as int }) as nat, 100_000, 1000, 3),
    )
}

/// The seventeen fields of an event's row, in the order of the header. A
/// field that an event does not have is empty.
pub open spec fn row_of(event: TradeEvent) -> Seq<Seq<char>> {
    let none = Seq::<char>::empty();
    match event {
        TradeEvent::OrderSent {
            timestamp,
            order_id,
            side,
            price,
            size,
            is_close,
            mid_price,
            t_optimal_ms,
            sigma_1s,
            spread_pct,
            level,
            p_fill,
            best_ev,
            single_leg_ev,
        } => seq![
            timestamp@,
            "ORDER_SENT"@,
            order_id@,
            side@,
            decimal_of(price as nat),
            size_field(size),
            bool_text_of(is_close),
            none,
            none,
            decimal_of(mid_price as nat),
            decimal_of(t_optimal_ms as nat),
            fraction_field(sigma_1s),
            fraction_field(spread_pct),
            decimal_of(level as nat),
            probability_field(p_fill),
            ev_field(best_ev),
            ev_field(single_leg_ev),
        ],
        TradeEvent::OrderCancelled { timestamp, order_id, order_age_ms, level, side, is_close } => seq![
            timestamp@,
            "ORDER_CANCELLED"@,
            order_id@,
            side@,
            none,
            none,
            bool_text_of(is_close),
            none,
            decimal_of(order_age_ms as nat),
            none,
            none,
            none,
            none,
            decimal_of(level as nat),
            none,
            none,
            none,
        ],
        TradeEvent::OrderFilled {
            timestamp,
            order_id,
            side,
            price,
            size,
            order_age_ms,
            is_close,
            mid_price,
            t_optimal_ms,
            sigma_1s,
            spread_pct,
            level,
            p_fill,
            best_ev,
            single_leg_ev,
        } => seq![
            timestamp@,
            "ORDER_FILLED"@,
            order_id@,
            side@,
            decimal_of(price as nat),
            size_field(size),
            bool_text_of(is_close),
            none,
            decimal_of(order_age_ms as nat),
            decimal_of(mid_price as nat),
            decimal_of(t_optimal_ms as nat),
            fraction_field(sigma_1s),
            fraction_field(spread_pct),
            decimal_of(level as nat),
            probability_field(p_fill),
            ev_field(best_ev),
            ev_field(single_leg_ev),
        ],
        TradeEvent::OrderFailed {
            timestamp,
            side,
            price,
            size,
            error,
            mid_price,
            t_optimal_ms,
            sigma_1s,
            spread_pct,
        } => seq![
            timestamp@,
            "ORDER_FAILED"@,
            none,
            side@,
            decimal_of(price as nat),
            size_field(size),
            none,
            error@,
            none,
            decimal_of(mid_price as nat),
            decimal_of(t_optimal_ms as nat),
            fraction_field(sigma_1s),
            fraction_field(spread_pct),
            none,
            none,
            none,
            none,
        ],
        TradeEvent::StopLossTriggered {
            timestamp,
            side,
            size,
            unrealized_pnl,
            mid_price,
            open_price,
        } => seq![
            timestamp@,
            "STOP_LOSS_TRIGGERED"@,
            none,
            side@,
            decimal_of(open_price as nat),
            size_field(size),
            "true"@,
            pnl_field(unrealized_pnl),
            none,
            decimal_of(mid_price as nat),
            none,
            none,
            none,
            none,
            none,
            none,
            none,
        ],
    }
}

fn size_string(size: u64) -> (s: String)
    ensures
        s@ == size_field(size),
{
    fixed_point_string(size, 100_000_000, 8)
}

fn fraction_string(ppb: u64) -> (s: String)
    ensures
        s@ == fraction_field(ppb),
{
    fixed_point_string(ppb, 1_000_000_000, 9)
}

fn probability_string(ppb: u64) -> (s: String)
    ensures
        s@ == probability_field(ppb),
{
    rounded_string(ppb as u128, 1000, 1_000_000, 6)
}

fn ev_string(ev: i128) -> (s: String)
    ensures
        s@ == ev_field(ev),
{
    signed(ev < 0, rounded_string(magnitude(ev), 1_000_000_000_000, 1_000_000, 6))
}

fn pnl_string(pnl: i128) -> (s: String)
    ensures
        s@ == pnl_field(pnl),
{
    let number = signed(pnl < 0, rounded_string(magnitude(pnl), 100_000, 1000, 3));
    "unrealized_pnl=".to_owned().concat(number.as_str())
}

/// Whether `row` holds the fields `fields`.
pub open spec fn row_holds(row: Seq<String>, fields: Seq<Seq<char>>) -> bool {
    row.len() == fields.len() && forall|i: int| 0 <= i < row.len() ==> (#[trigger] row[i])@ == fields[i]
}

impl TradeEvent {
    /// The row of the event: seventeen fields in the order of the header.
    pub fn to_csv_row(&self) -> (row: Vec<String>)
        ensures
            row@.len() == 17,
            row_holds(row@, row_of(*self)),
    {
        let mut row: Vec<String> = Vec::new();
        match self {
            TradeEvent::OrderSent {
                timestamp,
                order_id,
                side,
                price,
                size,
                is_close,
                mid_price,
                t_optimal_ms,
                sigma_1s,
                spread_pct,
                level,
                p_fill,
                best_ev,
                single_leg_ev,
            } => {
                row.push(timestamp.clone());
                row.push("ORDER_SENT".to_owned());
                row.push(order_id.clone());
                row.push(side.clone());
                row.push(decimal_string(*price));
                row.push(size_string(*size));
                row.push(bool_string(*is_close));
                row.push(String::new());
                row.push(String::new());
                row.push(decimal_string(*mid_price));
                row.push(decimal_string(*t_optimal_ms));
                row.push(fraction_string(*sigma_1s));
                row.push(fraction_string(*spread_pct));
                row.push(decimal_string(*level as u64));
                row.push(probability_string(*p_fill));
                row.push(ev_string(*best_ev));
                row.push(ev_string(*single_leg_ev));
            },
            TradeEvent::OrderCancelled {
                timestamp,
                order_id,
                order_age_ms,
                level,
                side,
                is_close,
            } => {
                row.push(timestamp.clone());
                row.push("ORDER_CANCELLED".to_owned());
                row.push(order_id.clone());
                row.push(side.clone());
                row.push(String::new());
                row.push(String::new());
                row.push(bool_string(*is_close));
                row.push(String::new());
                row.push(decimal_string(*order_age_ms));
                row.push(String::new());
                row.push(String::new());
                row.push(String::new());
                row.push(String::new());
                row.push(decimal_string(*level as u64));
                row.push(String::new());
                row.push(String::new());
                row.push(String::new());
            },
            TradeEvent::OrderFilled {
                timestamp,
                order_id,
                side,
                price,
                size,
                order_age_ms,
                is_close,
                mid_price,
                t_optimal_ms,
                sigma_1s,
                spread_pct,
                level,
                p_fill,
                best_ev,
                single_leg_ev,
            } => {
                row.push(timestamp.clone());
                row.push("ORDER_FILLED".to_owned());
                row.push(order_id.clone());
                row.push(side.clone());
                row.push(decimal_string(*price));
                row.push(size_string(*size));
                row.push(bool_string(*is_close));
                row.push(String::new());
                row.push(decimal_string(*order_age_ms));
                row.push(decimal_string(*mid_price));
                row.push(decimal_string(*t_optimal_ms));
                row.push(fraction_string(*sigma_1s));
                row.push(fraction_string(*spread_pct));
                row.push(decimal_string(*level as u64));
                row.push(probability_string(*p_fill));
                row.push(ev_string(*best_ev));
                row.push(ev_string(*single_leg_ev));
            },
            TradeEvent::OrderFailed {
                timestamp,
                side,
                price,
                size,
                error,
                mid_price,
                t_optimal_ms,
                sigma_1s,
                spread_pct,
            } => {
                row.push(timestamp.clone());
                row.push("ORDER_FAILED".to_owned());
                row.push(String::new());
                row.push(side.clone());
                row.push(decimal_string(*price));
                row.push(size_string(*size));
                row.push(String::new());
                row.push(error.clone());
                row.push(String::new());
                row.push(decimal_string(*mid_price));
                row.push(decimal_string(*t_optimal_ms));
                row.push(fraction_string(*sigma_1s));
                row.push(fraction_string(*spread_pct));
                row.push(String::new());
                row.push(String::new());
                row.push(String::new());
                row.push(String::new());
            },
            TradeEvent::StopLossTriggered {
                timestamp,
                side,
                size,
                unrealized_pnl,
                mid_price,
                open_price,
            } => {
                row.push(timestamp.clone());
                row.push("STOP_LOSS_TRIGGERED".to_owned());
                row.push(String::new());
                row.push(side.clone());
                row.push(decimal_string(*open_price));
                row.push(size_string(*size));
                row.push("true".to_owned());
                row.push(pnl_string(*unrealized_pnl));
                row.push(String::new());
                row.push(decimal_string(*mid_price));
                row.push(String::new());
                row.push(String::new());
                row.push(String::new());
                row.push(String::new());
                row.push(String::new());
                row.push(String::new());
                row.push(String::new());
            },
        }
        row
    }
}

/// The name of a day's file: `prefix-YYYY-MM-DD.csv`.
pub open spec fn file_name_of(prefix: Seq<char>, year: u32, month: u32, day: u32) -> Seq<char> {
    prefix + seq!['-'] + padded_of(year as nat, 4) + seq!['-'] + padded_of(month as nat, 2) + seq![
        '-',
    ] + padded_of(day as nat, 2) + ".csv"@
}

/// The name of the file that holds the rows of one day.
pub fn day_file_name(prefix: &str, year: u32, month: u32, day: u32) -> (name: String)
    ensures
        name@ == file_name_of(prefix@, year, month, day),
{
    proof {
        reveal_strlit("-");
    }
    let name = prefix.to_owned().concat("-").concat(padded(year as u128, 4).as_str()).concat(
        "-",
    ).concat(padded(month as u128, 2).as_str()).concat("-").concat(
        padded(day as u128, 2).as_str(),
    ).concat(".csv");
    assert(name@ =~= file_name_of(prefix@, year, month, day));
    name
}

/// The name of the file that holds the trade events of one day.
pub fn csv_file_name(year: u32, month: u32, day: u32) -> (name: String)
    ensures
        name@ == file_name_of("trades"@, year, month, day),
{
    day_file_name("trades", year, month, day)
}

} // verus!

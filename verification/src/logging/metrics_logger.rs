//! The state of the market and of the engine, one row of sixteen columns
//! per decision cycle.

use crate::bayes_prob::PPB;
use crate::logging::trade_logger::{day_file_name, file_name_of, row_holds};
use crate::model::SIZE_SCALE;
use crate::util::{
    decimal_of, decimal_string, decimal_string_wide, fixed_point_of, fixed_point_string,
    fixed_point_string_wide, magnitude, signed, signed_of,
};
use vstd::prelude::*;

verus! {

/// How many snapshots may wait to be written before snapshots are dropped.
pub const CHANNEL_BUFFER_SIZE: usize = 1000;

/// The columns of a row.
pub const CSV_HEADER: [&'static str; 16] = [
    "timestamp",
    "mid_price",
    "best_bid",
    "best_ask",
    "spread",
    "volatility",
    "best_ev",
    "buy_spread_pct",
    "sell_spread_pct",
    "long_size",
    "short_size",
    "collateral",
    "buy_prob_avg",
    "sell_prob_avg",
    "sigma_1s",
    "t_optimal_ms",
];

/// One snapshot. Prices and the collateral are in yen, sizes in size
/// units, probabilities and the volatility per second in parts per
/// billion, the spreads of the chosen levels in billionths of a percent,
/// the expected value in yen scaled by `PPB * PPB`.
#[derive(Debug, Clone)]
pub struct MetricsSnapshot {
    pub timestamp: String,
    pub mid_price: u64,
    pub best_bid: u64,
    pub best_ask: u64,
    pub spread: i128,
    pub volatility: u64,
    pub best_ev: i128,
    pub buy_spread_pct: u64,
    pub sell_spread_pct: u64,
    pub long_size: u64,
    pub short_size: u64,
    pub collateral: i64,
    pub buy_prob_avg: u64,
    pub sell_prob_avg: u64,
    pub sigma_1s: u64,
    pub t_optimal_ms: u64,
}

/// A whole number with its sign.
pub open spec fn integer_field(x: int) -> Seq<char> {
    signed_of(x < 0, decimal_of((if x < 0 { -x } else { x }) as nat))
}

/// An expected value in yen, as short as it can be written.
pub open spec fn scaled_field(x: i128) -> Seq<char> {
    signed_of(
        x < 0,
        fixed_point_of(
            (if x < 0 { -x } else { x as int }) as nat,
            1_000_000_000_000_000_000,
            18,
        ),
    )
}

/// The sixteen fields of a snapshot's row, in the order of the header.
pub open spec fn row_of(snapshot: MetricsSnapshot) -> Seq<Seq<char>> {
    seq![
        snapshot.timestamp@,
        decimal_of(snapshot.mid_price as nat),
        decimal_of(snapshot.best_bid as nat),
        decimal_of(snapshot.best_ask as nat),
        integer_field(snapshot.spread as int),
        decimal_of(snapshot.volatility as nat),
        scaled_field(snapshot.best_ev),
        fixed_point_of(snapshot.buy_spread_pct as nat, PPB as nat, 9),
        fixed_point_of(snapshot.sell_spread_pct as nat, PPB as nat, 9),
        fixed_point_of(snapshot.long_size as nat, SIZE_SCALE as nat, 8),
        fixed_point_of(snapshot.short_size as nat, SIZE_SCALE as nat, 8),
        integer_field(snapshot.collateral as int),
        fixed_point_of(snapshot.buy_prob_avg as nat, PPB as nat, 9),
        fixed_point_of(snapshot.sell_prob_avg as nat, PPB as nat, 9),
        fixed_point_of(snapshot.sigma_1s as nat, PPB as nat, 9),
        decimal_of(snapshot.t_optimal_ms as nat),
    ]
}

fn integer_string(x: i128) -> (s: String)
    ensures
        s@ == integer_field(x as int),
{
    signed(x < 0, decimal_string_wide(magnitude(x)))
}

fn scaled_string(x: i128) -> (s: String)
    ensures
        s@ == scaled_field(x),
{
    signed(x < 0, fixed_point_string_wide(magnitude(x), 1_000_000_000_000_000_000, 18))
}

impl MetricsSnapshot {
    /// The row of the snapshot: sixteen fields in the order of the header.
    pub fn to_csv_row(&self) -> (row: Vec<String>)
        ensures
            row@.len() == 16,
            row_holds(row@, row_of(*self)),
    {
        let mut row: Vec<String> = Vec::new();
        row.push(self.timestamp.clone());
        row.push(decimal_string(self.mid_price));
        row.push(decimal_string(self.best_bid));
        row.push(decimal_string(self.best_ask));
        row.push(integer_string(self.spread));
        row.push(decimal_string(self.volatility));
        row.push(scaled_string(self.best_ev));
        row.push(fixed_point_string(self.buy_spread_pct, 1_000_000_000, 9));
        row.push(fixed_point_string(self.sell_spread_pct, 1_000_000_000, 9));
        row.push(fixed_point_string(self.long_size, 100_000_000, 8));
        row.push(fixed_point_string(self.short_size, 100_000_000, 8));
        row.push(integer_string(self.collateral as i128));
        row.push(fixed_point_string(self.buy_prob_avg, 1_000_000_000, 9));
        row.push(fixed_point_string(self.sell_prob_avg, 1_000_000_000, 9));
        row.push(fixed_point_string(self.sigma_1s, 1_000_000_000, 9));
        row.push(decimal_string(self.t_optimal_ms));
        row
    }
}

/// The name of the file that holds the snapshots of one day.
pub fn csv_file_name(year: u32, month: u32, day: u32) -> (name: String)
    ensures
        name@ == file_name_of("metrics"@, year, month, day),
{
    day_file_name("metrics", year, month, day)
}

} // verus!

//! The listing of open positions.

use crate::ledger::PositionLine;
use crate::model::OrderSide;
use crate::util::str_eq;
use vstd::prelude::*;

verus! {

pub const PATH: &'static str = "/v1/me/getpositions";

/// One open position as the exchange lists it. Sizes are in size units,
/// amounts in yen.
#[derive(Debug, Clone)]
pub struct PositionDetail {
    pub product_code: String,
    pub side: String,
    pub price: u64,
    pub size: u64,
    pub commission: i64,
    pub open_date: String,
    pub swap_point_accumulate: i64,
    pub require_collateral: i64,
    pub leverage: u64,
    pub pnl: i64,
    pub sfd: i64,
}

/// A listed position as a line of the ledger: bought if its side reads
/// BUY, sold otherwise.
pub open spec fn line_of(detail: PositionDetail) -> PositionLine {
    PositionLine {
        side: if detail.side@ == "BUY"@ {
            OrderSide::BUY
        } else {
            OrderSide::SELL
        },
        size: detail.size,
        price: detail.price,
    }
}

/// Whether a listing shows any open position.
pub fn has_open_position(details: &Vec<PositionDetail>) -> (any: bool)
    ensures
        any == (details@.len() > 0),
{
    details.len() > 0
}

/// The lines of the ledger that a listing amounts to, in its order.
pub fn position_lines(details: &Vec<PositionDetail>) -> (lines: Vec<PositionLine>)
    ensures
        lines@ == details@.map_values(|d: PositionDetail| line_of(d)),
{
    let mut lines: Vec<PositionLine> = Vec::new();
    let mut i: usize = 0;
    while i < details.len()
        invariant
            i <= details@.len(),
            lines@.len() == i,
            forall|k: int| 0 <= k < i ==> lines@[k] == line_of(details@[k]),
        decreases details@.len() - i,
    {
        let d = &details[i];
        let side = if str_eq(d.side.as_str(), "BUY") {
            OrderSide::BUY
        } else {
            OrderSide::SELL
        };
        lines.push(PositionLine { side, size: d.size, price: d.price });
        i += 1;
    }
    assert(lines@ =~= details@.map_values(|d: PositionDetail| line_of(d)));
    lines
}

} // verus!

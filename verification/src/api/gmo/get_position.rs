//! The listing of open positions.

use crate::ledger::PositionLine;
use crate::model::OrderSide;
use crate::util::str_eq;
use vstd::prelude::*;

verus! {

pub const PATH: &'static str = "/v1/openPositions";

#[derive(Debug, Clone, Copy)]
pub struct Pagination {
    pub current_page: u32,
    pub count: u32,
}

/// One open position as the exchange lists it.
#[derive(Debug, Clone)]
pub struct Position {
    pub position_id: u64,
    pub symbol: String,
    pub side: String,
    /// Size units.
    pub size: u64,
    /// Yen.
    pub price: u64,
    pub leverage: u32,
    pub timestamp: String,
}

#[derive(Debug, Clone)]
pub struct PositionData {
    pub pagination: Option<Pagination>,
    pub list: Option<Vec<Position>>,
}

#[derive(Debug, Clone)]
pub struct PositionResponse {
    pub status: u32,
    pub data: Option<PositionData>,
    pub responsetime: String,
}

/// The positions that a response lists; none where data or list is absent.
pub open spec fn listed(response: PositionResponse) -> Seq<Position> {
    match response.data {
        Some(data) => match data.list {
            Some(list) => list@,
            None => Seq::<Position>::empty(),
        },
        None => Seq::<Position>::empty(),
    }
}

/// A listed position as a line of the ledger: bought if its side reads
/// BUY, sold otherwise.
pub open spec fn line_of(position: Position) -> PositionLine {
    PositionLine {
        side: if position.side@ == "BUY"@ {
            OrderSide::BUY
        } else {
            OrderSide::SELL
        },
        size: position.size,
        price: position.price,
    }
}

/// Whether a response shows any open position.
pub fn has_open_position(response: &PositionResponse) -> (any: bool)
    ensures
        any == (listed(*response).len() > 0),
{
    match &response.data {
        Some(data) => match &data.list {
            Some(list) => list.len() > 0,
            None => false,
        },
        None => false,
    }
}

/// The lines of the ledger that a response amounts to, in its order.
pub fn position_lines(response: &PositionResponse) -> (lines: Vec<PositionLine>)
    ensures
        lines@ == listed(*response).map_values(|p: Position| line_of(p)),
{
    let mut lines: Vec<PositionLine> = Vec::new();
    match &response.data {
        Some(data) => match &data.list {
            Some(list) => {
                let mut i: usize = 0;
                while i < list.len()
                    invariant
                        i <= list@.len(),
                        lines@.len() == i,
                        forall|k: int| 0 <= k < i ==> lines@[k] == line_of(list@[k]),
                    decreases list@.len() - i,
                {
                    let p = &list[i];
                    let side = if str_eq(p.side.as_str(), "BUY") {
                        OrderSide::BUY
                    } else {
                        OrderSide::SELL
                    };
                    lines.push(PositionLine { side, size: p.size, price: p.price });
                    i += 1;
                }
                assert(lines@ =~= list@.map_values(|p: Position| line_of(p)));
            },
            None => {
                assert(lines@ =~= listed(*response).map_values(|p: Position| line_of(p)));
            },
        },
        None => {
            assert(lines@ =~= listed(*response).map_values(|p: Position| line_of(p)));
        },
    }
    lines
}

} // verus!

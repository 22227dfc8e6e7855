//! Placing an order that opens a position.

use crate::api::gmo::api::{ChildOrderType, Symbol, TimeInForce};
use crate::model::{OrderSide, SIZE_SCALE};
use crate::util::{decimal_of, decimal_string, fixed_point_of, fixed_point_string};
use vstd::prelude::*;

verus! {

pub const PATH: &'static str = "/v1/order";

/// The exchange answers with the id of the order.
#[derive(Debug, Clone)]
pub struct ChildOrderResponse {
    pub data: String,
}

#[derive(Debug, Clone)]
pub struct ChildOrderParameter {
    pub symbol: Symbol,
    pub side: OrderSide,
    pub execution_type: ChildOrderType,
    pub price: Option<String>,
    pub size: String,
    pub time_in_force: Option<TimeInForce>,
}

/// A size in coins, as short as it can be written.
pub open spec fn size_text_of(size: u64) -> Seq<char> {
    fixed_point_of(size as nat, SIZE_SCALE as nat, 8)
}

/// Writes a size in coins.
pub fn size_text(size: u64) -> (s: String)
    ensures
        s@ == size_text_of(size),
{
    fixed_point_string(size, 100_000_000, 8)
}

/// The limit order that opens a position.
pub fn limit_order(side: OrderSide, price: u64, size: u64) -> (parameter: ChildOrderParameter)
    ensures
        parameter.symbol == Symbol::BTC_JPY,
        parameter.side == side,
        parameter.execution_type == ChildOrderType::LIMIT,
        parameter.price matches Some(p) && p@ == decimal_of(price as nat),
        parameter.size@ == size_text_of(size),
        parameter.time_in_force is None,
{
    ChildOrderParameter {
        symbol: Symbol::BTC_JPY,
        side,
        execution_type: ChildOrderType::LIMIT,
        price: Some(decimal_string(price)),
        size: size_text(size),
        time_in_force: None,
    }
}

} // verus!

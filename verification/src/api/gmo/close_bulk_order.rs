//! Placing an order that closes whatever is open on the other side.

use crate::api::gmo::api::{ChildOrderType, Symbol, TimeInForce};
use crate::api::gmo::send_order::{size_text, size_text_of};
use crate::model::OrderSide;
use crate::util::{decimal_of, decimal_string};
use vstd::prelude::*;

verus! {

pub const PATH: &'static str = "/v1/closeBulkOrder";

/// The exchange answers with the id of the order.
#[derive(Debug, Clone)]
pub struct CloseBulkOrderResponse {
    pub data: String,
}

#[derive(Debug, Clone)]
pub struct CloseBulkOrderParameter {
    pub symbol: Symbol,
    pub side: OrderSide,
    pub execution_type: ChildOrderType,
    pub price: Option<String>,
    pub size: String,
    pub time_in_force: Option<TimeInForce>,
}

/// The limit order that closes a position.
pub fn limit_close(side: OrderSide, price: u64, size: u64) -> (parameter: CloseBulkOrderParameter)
    ensures
        parameter.symbol == Symbol::BTC_JPY,
        parameter.side == side,
        parameter.execution_type == ChildOrderType::LIMIT,
        parameter.price matches Some(p) && p@ == decimal_of(price as nat),
        parameter.size@ == size_text_of(size),
        parameter.time_in_force is None,
{
    CloseBulkOrderParameter {
        symbol: Symbol::BTC_JPY,
        side,
        execution_type: ChildOrderType::LIMIT,
        price: Some(decimal_string(price)),
        size: size_text(size),
        time_in_force: None,
    }
}

/// The market order that a stop-loss closes a position with.
pub fn market_close(side: OrderSide, size: u64) -> (parameter: CloseBulkOrderParameter)
    ensures
        parameter.symbol == Symbol::BTC_JPY,
        parameter.side == side,
        parameter.execution_type == ChildOrderType::MARKET,
        parameter.price is None,
        parameter.size@ == size_text_of(size),
        parameter.time_in_force is None,
{
    CloseBulkOrderParameter {
        symbol: Symbol::BTC_JPY,
        side,
        execution_type: ChildOrderType::MARKET,
        price: None,
        size: size_text(size),
        time_in_force: None,
    }
}

} // verus!

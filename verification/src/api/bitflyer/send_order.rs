//! Placing an order.

use crate::api::bitflyer::api::{ChildOrderType, ProductCode};
use crate::model::OrderSide;
use vstd::prelude::*;

verus! {

pub const PATH: &'static str = "/v1/me/sendchildorder";

/// The exchange answers with the id under which it accepted the order.
#[derive(Debug, Clone)]
pub struct ChildOrderResponse {
    pub child_order_acceptance_id: String,
}

#[derive(Debug, Clone, Copy)]
pub struct ChildOrderParameter {
    pub product_code: ProductCode,
    pub child_order_type: ChildOrderType,
    pub side: OrderSide,
    /// Yen.
    pub price: Option<u64>,
    /// Size units.
    pub size: u64,
    pub minute_to_expire: u32,
}

/// The limit order that the engine places: good for one minute.
pub fn limit_order(side: OrderSide, price: u64, size: u64) -> (parameter: ChildOrderParameter)
    ensures
        parameter == (ChildOrderParameter {
            product_code: ProductCode::FX_BTC_JPY,
            child_order_type: ChildOrderType::LIMIT,
            side,
            price: Some(price),
            size,
            minute_to_expire: 1,
        }),
{
    ChildOrderParameter {
        product_code: ProductCode::FX_BTC_JPY,
        child_order_type: ChildOrderType::LIMIT,
        side,
        price: Some(price),
        size,
        minute_to_expire: 1,
    }
}

/// The market order that a stop-loss closes a position with.
pub fn market_order(side: OrderSide, size: u64) -> (parameter: ChildOrderParameter)
    ensures
        parameter == (ChildOrderParameter {
            product_code: ProductCode::FX_BTC_JPY,
            child_order_type: ChildOrderType::MARKET,
            side,
            price: None,
            size,
            minute_to_expire: 1,
        }),
{
    ChildOrderParameter {
        product_code: ProductCode::FX_BTC_JPY,
        child_order_type: ChildOrderType::MARKET,
        side,
        price: None,
        size,
        minute_to_expire: 1,
    }
}

} // verus!

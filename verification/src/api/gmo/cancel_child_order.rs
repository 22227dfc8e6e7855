//! Cancelling a resting order.

use vstd::prelude::*;

verus! {

pub const PATH: &'static str = "/v1/cancelOrder";

/// The exchange confirms a cancellation with an empty body.
#[derive(Debug, Clone, Copy)]
pub struct CancelOrderResponse {}

#[derive(Debug, Clone)]
pub struct CancelOrderParameter {
    pub order_id: String,
}

/// The request that cancels the order `order_id`.
pub fn cancel_request(order_id: &str) -> (parameter: CancelOrderParameter)
    ensures
        parameter.order_id@ == order_id@,
{
    CancelOrderParameter { order_id: order_id.to_owned() }
}

} // verus!

//! Cancelling a resting order.

use crate::api::bitflyer::api::ProductCode;
use vstd::prelude::*;

verus! {

pub const PATH: &'static str = "/v1/me/cancelchildorder";

#[derive(Debug, Clone)]
pub struct CancelChildOrderParameter {
    pub product_code: ProductCode,
    pub child_order_acceptance_id: String,
}

/// The request that cancels the order accepted under `acceptance_id`.
pub fn cancel_request(acceptance_id: &str) -> (parameter: CancelChildOrderParameter)
    ensures
        parameter.product_code == ProductCode::FX_BTC_JPY,
        parameter.child_order_acceptance_id@ == acceptance_id@,
{
    CancelChildOrderParameter {
        product_code: ProductCode::FX_BTC_JPY,
        child_order_acceptance_id: acceptance_id.to_owned(),
    }
}

} // verus!

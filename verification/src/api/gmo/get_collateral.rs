//! The margin account.

use vstd::prelude::*;

verus! {

pub const PATH: &'static str = "/v1/account/margin";

#[derive(Debug, Clone)]
pub struct Collateral {
    pub data: CollateralDetail,
}

/// Amounts are in yen.
#[derive(Debug, Clone)]
pub struct CollateralDetail {
    pub actual_profit_loss: i64,
    pub available_amount: i64,
    pub margin: i64,
    pub profit_loss: i64,
    pub margin_call_status: String,
}

} // verus!

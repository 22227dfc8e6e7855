//! The balances.

use vstd::prelude::*;

verus! {

pub const PATH: &'static str = "/v1/me/getbalance";

#[derive(Debug, Clone)]
pub struct BalanceDetail {
    pub currency_code: String,
    /// In hundred-millionths of the currency's unit.
    pub amount: u64,
    pub available: u64,
}

} // verus!

//! The wallet.

use vstd::prelude::*;

verus! {

pub const PATH: &'static str = "/v1/wallet";

#[derive(Debug, Clone)]
pub struct BalanceDetail {
    pub currency: String,
    /// In hundred-millionths of the currency's unit.
    pub amount: u64,
    pub available: u64,
}

#[derive(Debug, Clone)]
pub struct BalanceResponse {
    pub data: Vec<BalanceDetail>,
}

} // verus!

//! The margin account.

use vstd::prelude::*;

verus! {

pub const PATH: &'static str = "/v1/me/getcollateral";

/// Amounts are in yen, the keep rate in parts per billion.
#[derive(Debug, Clone, Copy)]
pub struct Collateral {
    pub collateral: i64,
    pub require_collateral: i64,
    pub open_position_pnl: i64,
    pub keep_rate: u64,
}

} // verus!

//! Decision engine of an automated market maker: fill estimation over a
//! sliding time window, expected-value quote selection, order sizing and
//! pricing, position bookkeeping and the cooldown rules that protect it.
//!
//! All quantities are integers. Prices are whole yen, sizes are counted in
//! units of 10^-8 coin, and fractions (probabilities, relative spreads,
//! risk coefficients) are parts per billion. Instants are milliseconds
//! since the Unix epoch.
//!
//! The engine decides and never waits: whoever runs the loops reads the
//! clock and the exchange and hands the answers in. `trade::decide_cycle`
//! is one cycle of the decision loop; `orders` settles what the exchange
//! answers to submissions and cancellations, `risk` what it means for the
//! cooldowns, `ledger` and `risk::poll_position` take in the listing of
//! positions, `market` and `order_book` the market data, and `backoff`
//! says how long to wait before the feed is connected again.

pub mod api;
pub mod backoff;
pub mod bayes_prob;
pub mod clock;
pub mod crypto;
pub mod ledger;
pub mod logging;
pub mod market;
pub mod model;
pub mod order_book;
pub mod orders;
pub mod pricing;
pub mod quote;
pub mod risk;
pub mod sizing;
pub mod time_queue;
pub mod trade;
pub mod util;
pub mod volatility;

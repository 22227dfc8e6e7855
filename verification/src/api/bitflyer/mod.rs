//! The spot and futures exchange.

pub mod api;
pub mod auth;
pub mod cancel_child_order;
pub mod get_balance;
pub mod get_collateral;
pub mod get_health;
pub mod get_position;
pub mod send_order;
pub mod ws;

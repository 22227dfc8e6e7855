//! The margin exchange that the engine quotes on.

pub mod api;
pub mod auth;
pub mod cancel_child_order;
pub mod close_bulk_order;
pub mod get_balance;
pub mod get_collateral;
pub mod get_position;
pub mod send_order;
pub mod ws;

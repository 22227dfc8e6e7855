//! The rows that the audit logs are made of.

pub mod metrics_logger;
pub mod trade_logger;

//! What crosses the wire to and from the exchanges.

pub mod bitflyer;
pub mod gmo;

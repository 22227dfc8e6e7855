//! How busy the exchange is.

use crate::util::str_eq;
use std::str::FromStr;
use vstd::prelude::*;

verus! {

pub const PATH: &'static str = "/v1/gethealth";

#[derive(Debug, Clone, Copy)]
pub struct HealthStatus {
    pub status: HealthStatusEnum,
}

#[derive(Debug, Clone, Copy, PartialEq, Eq, Structural)]
pub enum HealthStatusEnum {
    Normal,
    Busy,
    VeryBusy,
    SuperBusy,
    NoOrder,
    Stop,
    Unknown,
}

impl HealthStatusEnum {
    /// The state that a name stands for; a name that is not known stands
    /// for `Unknown`.
    pub open spec fn named(s: Seq<char>) -> HealthStatusEnum {
        if s == "NORMAL"@ {
            HealthStatusEnum::Normal
        } else if s == "BUSY"@ {
            HealthStatusEnum::Busy
        } else if s == "VERY BUSY"@ {
            HealthStatusEnum::VeryBusy
        } else if s == "SUPER BUSY"@ {
            HealthStatusEnum::SuperBusy
        } else if s == "NO ORDER"@ {
            HealthStatusEnum::NoOrder
        } else if s == "STOP"@ {
            HealthStatusEnum::Stop
        } else {
            HealthStatusEnum::Unknown
        }
    }

    pub fn parse(s: &str) -> (status: HealthStatusEnum)
        ensures
            status == HealthStatusEnum::named(s@),
    {
        if str_eq(s, "NORMAL") {
            HealthStatusEnum::Normal
        } else if str_eq(s, "BUSY") {
            HealthStatusEnum::Busy
        } else if str_eq(s, "VERY BUSY") {
            HealthStatusEnum::VeryBusy
        } else if str_eq(s, "SUPER BUSY") {
            HealthStatusEnum::SuperBusy
        } else if str_eq(s, "NO ORDER") {
            HealthStatusEnum::NoOrder
        } else if str_eq(s, "STOP") {
            HealthStatusEnum::Stop
        } else {
            HealthStatusEnum::Unknown
        }
    }
}

impl FromStr for HealthStatusEnum {
    type Err = ();

    /// Every name stands for a state; one that is not known stands for `Unknown`.
    fn from_str(s: &str) -> (r: Result<Self, Self::Err>)
        ensures
            r == Ok::<HealthStatusEnum, ()>(HealthStatusEnum::named(s@)),
    {
        Ok(HealthStatusEnum::parse(s))
    }
}

} // verus!

//! Names common to all endpoints.

use crate::api::bitflyer::auth::CredentialError;
use crate::util::str_eq;
use std::str::FromStr;
use vstd::prelude::*;

verus! {

pub const ENDPOINT: &'static str = "https://api.bitflyer.com";

#[allow(non_camel_case_types)]
#[derive(Debug, Clone, Copy, PartialEq, Eq, Structural)]
pub enum ProductCode {
    Unknown,
    FX_BTC_JPY,
    BTC_JPY,
}

impl ProductCode {
    pub open spec fn name(self) -> Seq<char> {
        match self {
            ProductCode::FX_BTC_JPY => "FX_BTC_JPY"@,
            ProductCode::BTC_JPY => "BTC_JPY"@,
            ProductCode::Unknown => "Unknown"@,
        }
    }

    pub open spec fn named(s: Seq<char>) -> Option<ProductCode> {
        if s == "FX_BTC_JPY"@ {
            Some(ProductCode::FX_BTC_JPY)
        } else if s == "BTC_JPY"@ {
            Some(ProductCode::BTC_JPY)
        } else {
            None
        }
    }

    pub fn to_string(&self) -> (s: String)
        ensures
            s@ == self.name(),
    {
        match self {
            ProductCode::FX_BTC_JPY => "FX_BTC_JPY".to_owned(),
            ProductCode::BTC_JPY => "BTC_JPY".to_owned(),
            ProductCode::Unknown => "Unknown".to_owned(),
        }
    }

    pub fn parse(s: &str) -> (code: Option<ProductCode>)
        ensures
            code == ProductCode::named(s@),
    {
        if str_eq(s, "FX_BTC_JPY") {
            Some(ProductCode::FX_BTC_JPY)
        } else if str_eq(s, "BTC_JPY") {
            Some(ProductCode::BTC_JPY)
        } else {
            None
        }
    }
}

impl FromStr for ProductCode {
    type Err = ();

    /// The value that the name stands for, or an error if it stands for none.
    fn from_str(s: &str) -> (r: Result<Self, Self::Err>)
        ensures
            r == match ProductCode::named(s@) {
                Some(value) => Ok::<ProductCode, ()>(value),
                None => Err(()),
            },
    {
        match ProductCode::parse(s) {
            Some(code) => Ok(code),
            None => Err(()),
        }
    }
}

/// Why a request to the exchange came to nothing. What the transport
/// reported is held as text.
#[derive(Debug, Clone)]
pub enum ApiResponseError {
    /// The request could not be signed.
    Credential(CredentialError),
    /// The request did not get through, or ran out of time.
    Reqwest(String),
    /// The exchange answered with this HTTP status.
    StatusCode(u16),
    /// The address of the endpoint is not one.
    UrlParse(String),
}

#[allow(clippy::upper_case_acronyms)]
#[derive(Debug, Clone, Copy, PartialEq, Eq, Structural)]
pub enum ChildOrderType {
    Unknown,
    LIMIT,
    MARKET,
}

impl ChildOrderType {
    pub open spec fn name(self) -> Seq<char> {
        match self {
            ChildOrderType::LIMIT => "LIMIT"@,
            ChildOrderType::MARKET => "MARKET"@,
            ChildOrderType::Unknown => "Unknown"@,
        }
    }

    pub open spec fn named(s: Seq<char>) -> Option<ChildOrderType> {
        if s == "LIMIT"@ {
            Some(ChildOrderType::LIMIT)
        } else if s == "MARKET"@ {
            Some(ChildOrderType::MARKET)
        } else {
            None
        }
    }

    pub fn to_string(&self) -> (s: String)
        ensures
            s@ == self.name(),
    {
        match self {
            ChildOrderType::LIMIT => "LIMIT".to_owned(),
            ChildOrderType::MARKET => "MARKET".to_owned(),
            ChildOrderType::Unknown => "Unknown".to_owned(),
        }
    }

    pub fn parse(s: &str) -> (kind: Option<ChildOrderType>)
        ensures
            kind == ChildOrderType::named(s@),
    {
        if str_eq(s, "LIMIT") {
            Some(ChildOrderType::LIMIT)
        } else if str_eq(s, "MARKET") {
            Some(ChildOrderType::MARKET)
        } else {
            None
        }
    }
}

impl FromStr for ChildOrderType {
    type Err = ();

    /// The value that the name stands for, or an error if it stands for none.
    fn from_str(s: &str) -> (r: Result<Self, Self::Err>)
        ensures
            r == match ChildOrderType::named(s@) {
                Some(value) => Ok::<ChildOrderType, ()>(value),
                None => Err(()),
            },
    {
        match ChildOrderType::parse(s) {
            Some(kind) => Ok(kind),
            None => Err(()),
        }
    }
}

} // verus!

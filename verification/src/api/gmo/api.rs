//! Names and envelopes common to all private endpoints.

use crate::api::gmo::auth::CredentialError;
use crate::util::{
    decimal_of, decimal_string, decimal_string_wide, decimal_value, magnitude, parse_decimal,
    signed, signed_of, str_eq,
};
use vstd::string::StringExecFns;
use std::str::FromStr;
use vstd::prelude::*;

verus! {

#[allow(non_camel_case_types)]
#[derive(Debug, Clone, Copy, PartialEq, Eq, Structural)]
pub enum Symbol {
    Unknown,
    BTC_JPY,
}

impl Symbol {
    pub open spec fn name(self) -> Seq<char> {
        match self {
            Symbol::BTC_JPY => "BTC_JPY"@,
            Symbol::Unknown => "Unknown"@,
        }
    }

    pub open spec fn named(s: Seq<char>) -> Option<Symbol> {
        if s == "BTC_JPY"@ {
            Some(Symbol::BTC_JPY)
        } else {
            None
        }
    }

    pub fn to_string(&self) -> (s: String)
        ensures
            s@ == self.name(),
    {
        match self {
            Symbol::BTC_JPY => "BTC_JPY".to_owned(),
            Symbol::Unknown => "Unknown".to_owned(),
        }
    }

    pub fn parse(s: &str) -> (symbol: Option<Symbol>)
        ensures
            symbol == Symbol::named(s@),
    {
        if str_eq(s, "BTC_JPY") {
            Some(Symbol::BTC_JPY)
        } else {
            None
        }
    }
}

impl FromStr for Symbol {
    type Err = ();

    /// The value that the name stands for, or an error if it stands for none.
    fn from_str(s: &str) -> (r: Result<Self, Self::Err>)
        ensures
            r == match Symbol::named(s@) {
                Some(value) => Ok::<Symbol, ()>(value),
                None => Err(()),
            },
    {
        match Symbol::parse(s) {
            Some(symbol) => Ok(symbol),
            None => Err(()),
        }
    }
}

#[allow(clippy::upper_case_acronyms)]
#[derive(Debug, Clone, Copy, PartialEq, Eq, Structural)]
pub enum ChildOrderType {
    Unknown,
    LIMIT,
    MARKET,
}

impl ChildOrderType {
    pub open spec fn name(self) -> Seq<char> {
        match self {
            ChildOrderType::LIMIT => "LIMIT"@,
            ChildOrderType::MARKET => "MARKET"@,
            ChildOrderType::Unknown => "Unknown"@,
        }
    }

    pub open spec fn named(s: Seq<char>) -> Option<ChildOrderType> {
        if s == "LIMIT"@ {
            Some(ChildOrderType::LIMIT)
        } else if s == "MARKET"@ {
            Some(ChildOrderType::MARKET)
        } else {
            None
        }
    }

    pub fn to_string(&self) -> (s: String)
        ensures
            s@ == self.name(),
    {
        match self {
            ChildOrderType::LIMIT => "LIMIT".to_owned(),
            ChildOrderType::MARKET => "MARKET".to_owned(),
            ChildOrderType::Unknown => "Unknown".to_owned(),
        }
    }

    pub fn parse(s: &str) -> (kind: Option<ChildOrderType>)
        ensures
            kind == ChildOrderType::named(s@),
    {
        if str_eq(s, "LIMIT") {
            Some(ChildOrderType::LIMIT)
        } else if str_eq(s, "MARKET") {
            Some(ChildOrderType::MARKET)
        } else {
            None
        }
    }
}

impl FromStr for ChildOrderType {
    type Err = ();

    /// The value that the name stands for, or an error if it stands for none.
    fn from_str(s: &str) -> (r: Result<Self, Self::Err>)
        ensures
            r == match ChildOrderType::named(s@) {
                Some(value) => Ok::<ChildOrderType, ()>(value),
                None => Err(()),
            },
    {
        match ChildOrderType::parse(s) {
            Some(kind) => Ok(kind),
            None => Err(()),
        }
    }
}

#[allow(clippy::upper_case_acronyms)]
#[derive(Debug, Clone, Copy, PartialEq, Eq, Structural)]
pub enum TimeInForce {
    SOK,
    FAK,
    FAS,
    FOK,
}

/// One message of an envelope whose status is not zero.
#[derive(Debug, Clone)]
pub struct ApiErrorMessage {
    pub message_code: String,
    pub message_string: String,
}

impl ApiErrorMessage {
    /// `[code] text`.
    pub open spec fn text(&self) -> Seq<char> {
        seq!['['] + self.message_code@ + seq![']', ' '] + self.message_string@
    }

    pub fn to_string(&self) -> (s: String)
        ensures
            s@ == self.text(),
    {
        proof {
            reveal_strlit("[");
            reveal_strlit("] ");
        }
        let s = "[".to_owned().concat(self.message_code.as_str()).concat("] ").concat(
            self.message_string.as_str(),
        );
        assert(s@ =~= self.text());
        s
    }
}

/// The texts of the first `k` messages, with a comma and a blank between them.
pub open spec fn joined_texts(messages: Seq<ApiErrorMessage>, k: int) -> Seq<char>
    decreases k,
{
    if k <= 0 {
        Seq::<char>::empty()
    } else if k == 1 {
        messages[0].text()
    } else {
        joined_texts(messages, k - 1) + seq![',', ' '] + messages[k - 1].text()
    }
}

/// Why a request to the exchange came to nothing. What the transport or a
/// parser reported is held as text.
#[derive(Debug, Clone)]
pub enum ApiResponseError {
    /// The request could not be signed.
    Credential(CredentialError),
    /// The request did not get through, or ran out of time.
    Reqwest(String),
    /// The exchange answered with this HTTP status.
    StatusCode(u16),
    /// The address of the endpoint is not one.
    UrlParse(String),
    /// The answer could not be read.
    Deserialize(String),
    /// The exchange refused the request.
    ApiError(Vec<ApiErrorMessage>),
}

impl ApiResponseError {
    /// The error in words.
    pub open spec fn text(&self) -> Seq<char> {
        match self {
            ApiResponseError::Credential(e) => "Credential error: "@ + e.name(),
            ApiResponseError::Reqwest(detail) => "Request error: "@ + detail@,
            ApiResponseError::StatusCode(status) => "HTTP status: "@ + decimal_of(*status as nat),
            ApiResponseError::UrlParse(detail) => "URL parse error: "@ + detail@,
            ApiResponseError::Deserialize(detail) => "Deserialize error: "@ + detail@,
            ApiResponseError::ApiError(messages) => "API error: "@ + joined_texts(
                messages@,
                messages@.len() as int,
            ),
        }
    }

    pub fn to_string(&self) -> (s: String)
        ensures
            s@ == self.text(),
    {
        match self {
            ApiResponseError::Credential(e) => "Credential error: ".to_owned().concat(
                e.to_string().as_str(),
            ),
            ApiResponseError::Reqwest(detail) => "Request error: ".to_owned().concat(
                detail.as_str(),
            ),
            ApiResponseError::StatusCode(status) => "HTTP status: ".to_owned().concat(
                decimal_string(*status as u64).as_str(),
            ),
            ApiResponseError::UrlParse(detail) => "URL parse error: ".to_owned().concat(
                detail.as_str(),
            ),
            ApiResponseError::Deserialize(detail) => "Deserialize error: ".to_owned().concat(
                detail.as_str(),
            ),
            ApiResponseError::ApiError(messages) => {
                proof {
                    reveal_strlit(", ");
                }
                let mut joined = String::new();
                let mut i: usize = 0;
                while i < messages.len()
                    invariant
                        i <= messages@.len(),
                        joined@ == joined_texts(messages@, i as int),
                        ", "@ == seq![',', ' '],
                    decreases messages@.len() - i,
                {
                    if i > 0 {
                        joined = joined.concat(", ");
                    }
                    joined = joined.concat(messages[i].to_string().as_str());
                    assert(joined@ =~= joined_texts(messages@, i + 1));
                    i += 1;
                }
                "API error: ".to_owned().concat(joined.as_str())
            },
        }
    }
}

/// The number that the exchange writes as a string, in units of ten to
/// the power of minus `width`; `None` if the string is no plain decimal
/// number or the number is beyond 64 bits.
pub fn deserialize_number_from_string(s: &str, width: u32) -> (number: Option<u64>)
    ensures
        match number {
            Some(v) => decimal_value(s@, width as nat) == Some(v as nat),
            None => decimal_value(s@, width as nat) is None,
        },
{
    parse_decimal(s, width)
}

/// What is reported where the exchange refuses a request without saying why.
pub open spec fn unknown_failure_text(status: i32) -> Seq<char> {
    "API returned status "@ + signed_of(
        status < 0,
        decimal_of((if status < 0 { -status } else { status as int }) as nat),
    )
}

/// What an envelope says of a request: nothing if its status is zero,
/// else the messages it carries, or one message of its own making if it
/// carries none.
pub fn envelope_error(status: i32, messages: Option<Vec<ApiErrorMessage>>) -> (refusal: Option<
    Vec<ApiErrorMessage>,
>)
    ensures
        refusal is None <==> status == 0,
        status != 0 ==> match messages {
            Some(carried) => refusal == Some(carried),
            None => {
                &&& refusal matches Some(made)
                &&& made@.len() == 1
                &&& made@[0].message_code@ == "UNKNOWN"@
                &&& made@[0].message_string@ == unknown_failure_text(status)
            },
        },
{
    if status == 0 {
        return None;
    }
    match messages {
        Some(carried) => Some(carried),
        None => {
            let number = signed(status < 0, decimal_string_wide(magnitude(status as i128)));
            let text = "API returned status ".to_owned().concat(number.as_str());
            let mut made: Vec<ApiErrorMessage> = Vec::new();
            made.push(ApiErrorMessage { message_code: "UNKNOWN".to_owned(), message_string: text });
            Some(made)
        },
    }
}

/// Whether any message carries the code `code`.
pub open spec fn has_code(messages: Seq<ApiErrorMessage>, code: Seq<char>) -> bool {
    exists|i: int| 0 <= i < messages.len() && (#[trigger] messages[i]).message_code@ == code
}

/// Whether any message of a rejection carries the code `code`.
pub fn any_code(messages: &Vec<ApiErrorMessage>, code: &str) -> (found: bool)
    ensures
        found == has_code(messages@, code@),
{
    let mut i: usize = 0;
    while i < messages.len()
        invariant
            i <= messages@.len(),
            forall|k: int| 0 <= k < i ==> (#[trigger] messages@[k]).message_code@ != code@,
        decreases messages@.len() - i,
    {
        if str_eq(messages[i].message_code.as_str(), code) {
            return true;
        }
        i += 1;
    }
    false
}

} // verus!

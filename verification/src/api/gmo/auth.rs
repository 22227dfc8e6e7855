//! The three headers that sign a request to a private endpoint.

use crate::crypto::{hex_of, hmac_sha256_of, sign_hex, to_uppercase, uppercase_of, MAX_HMAC_INPUT};
use crate::util::{decimal_of, decimal_string};
use vstd::prelude::*;
use vstd::string::StringExecFns;
use vstd::utf8::encode_utf8;

verus! {

/// The variable that holds the key.
pub const API_KEY: &'static str = "GMO_API_KEY";

/// The variable that holds the secret.
pub const API_SECRET: &'static str = "GMO_API_SECRET";

/// Why a request cannot be signed.
#[derive(Debug, Clone, Copy, PartialEq, Eq, Structural)]
pub enum CredentialError {
    /// The key is not configured.
    MissingKey,
    /// The secret is not configured.
    MissingSecret,
    /// The secret or the request is longer than can be signed.
    TooLong,
}

impl CredentialError {
    /// The error's name.
    pub open spec fn name(self) -> Seq<char> {
        match self {
            CredentialError::MissingKey => "MissingKey"@,
            CredentialError::MissingSecret => "MissingSecret"@,
            CredentialError::TooLong => "TooLong"@,
        }
    }

    pub fn to_string(&self) -> (s: String)
        ensures
            s@ == self.name(),
    {
        match self {
            CredentialError::MissingKey => "MissingKey".to_owned(),
            CredentialError::MissingSecret => "MissingSecret".to_owned(),
            CredentialError::TooLong => "TooLong".to_owned(),
        }
    }
}

/// One header of a request.
#[derive(Debug, Clone)]
pub struct Header {
    pub name: String,
    pub value: String,
}

/// What is signed: the timestamp in decimal, the method in upper case,
/// the path and the body, one after the other.
pub open spec fn signed_text(method: Seq<char>, path: Seq<char>, body: Seq<char>, timestamp: u64) -> Seq<
    char,
> {
    decimal_of(timestamp as nat) + uppercase_of(method) + path + body
}

/// The signature of a request: the HMAC-SHA256 of the signed text under
/// the secret, in hexadecimal.
pub open spec fn access_sign_of(
    method: Seq<char>,
    path: Seq<char>,
    body: Seq<char>,
    timestamp: u64,
    secret: Seq<char>,
) -> Seq<char> {
    hex_of(
        hmac_sha256_of(encode_utf8(secret), encode_utf8(signed_text(method, path, body, timestamp))),
    )
}

/// Whether secret and request are short enough to be signed.
pub open spec fn signable(
    method: Seq<char>,
    path: Seq<char>,
    body: Seq<char>,
    timestamp: u64,
    secret: Seq<char>,
) -> bool {
    encode_utf8(secret).len() <= MAX_HMAC_INPUT && encode_utf8(
        signed_text(method, path, body, timestamp),
    ).len() <= MAX_HMAC_INPUT
}

/// Signs a request. `None` if the secret or the request is too long.
pub fn get_access_sign(method: &str, path: &str, body: &str, timestamp: &u64, secret: &str) -> (sign:
    Option<String>)
    ensures
        sign is Some <==> signable(method@, path@, body@, *timestamp, secret@),
        sign matches Some(s) ==> s@ == access_sign_of(method@, path@, body@, *timestamp, secret@)
            && s@.len() == 64,
{
    let upper = to_uppercase(method);
    let text = decimal_string(*timestamp).concat(upper.as_str()).concat(path).concat(body);
    sign_hex(secret, text.as_str())
}

/// The headers of a signed request, in this order: the key, the
/// timestamp, the signature.
pub fn get_credential(
    api_key: Option<String>,
    api_secret: Option<String>,
    method: &str,
    path: &str,
    body: &str,
    timestamp: u64,
) -> (r: Result<Vec<Header>, CredentialError>)
    ensures
        match r {
            Ok(headers) => {
                &&& api_key matches Some(key)
                &&& api_secret matches Some(secret)
                &&& signable(method@, path@, body@, timestamp, secret@)
                &&& headers@.len() == 3
                &&& headers@[0].name@ == "API-KEY"@
                &&& headers@[0].value@ == key@
                &&& headers@[1].name@ == "API-TIMESTAMP"@
                &&& headers@[1].value@ == decimal_of(timestamp as nat)
                &&& headers@[2].name@ == "API-SIGN"@
                &&& headers@[2].value@ == access_sign_of(method@, path@, body@, timestamp, secret@)
            },
            Err(CredentialError::MissingKey) => api_key is None,
            Err(CredentialError::MissingSecret) => api_key is Some && api_secret is None,
            Err(CredentialError::TooLong) => {
                &&& api_key is Some
                &&& api_secret matches Some(secret)
                &&& !signable(method@, path@, body@, timestamp, secret@)
            },
        },
{
    let key = match api_key {
        Some(key) => key,
        None => {
            return Err(CredentialError::MissingKey);
        },
    };
    let secret = match api_secret {
        Some(secret) => secret,
        None => {
            return Err(CredentialError::MissingSecret);
        },
    };
    let sign = match get_access_sign(method, path, body, &timestamp, secret.as_str()) {
        Some(sign) => sign,
        None => {
            return Err(CredentialError::TooLong);
        },
    };
    let mut headers: Vec<Header> = Vec::new();
    headers.push(Header { name: "API-KEY".to_owned(), value: key });
    headers.push(Header { name: "API-TIMESTAMP".to_owned(), value: decimal_string(timestamp) });
    headers.push(Header { name: "API-SIGN".to_owned(), value: sign });
    Ok(headers)
}

} // verus!

//! The three headers that sign a request to a private endpoint.

use crate::api::gmo::auth::Header;
use crate::crypto::{hex_of, hmac_sha256_of, sign_hex, MAX_HMAC_INPUT};
use vstd::prelude::*;
use vstd::string::StringExecFns;
use vstd::utf8::encode_utf8;

verus! {

/// The variable that holds the key.
pub const API_KEY: &'static str = "BITFLYER_API_KEY";

/// The variable that holds the secret.
pub const API_SECRET: &'static str = "BITFLYER_API_SECRET";

/// Why a request cannot be signed.
#[derive(Debug, Clone, Copy, PartialEq, Eq, Structural)]
pub enum CredentialError {
    /// The key is not configured.
    MissingKey,
    /// The secret is not configured.
    MissingSecret,
    /// The secret or the request is longer than can be signed.
    TooLong,
}

/// What is signed: timestamp, method, path and body, one after the other.
pub open spec fn signed_text(
    method: Seq<char>,
    path: Seq<char>,
    body: Seq<char>,
    timestamp: Seq<char>,
) -> Seq<char> {
    timestamp + method + path + body
}

/// The signature of a request: the HMAC-SHA256 of the signed text under
/// the secret, in hexadecimal.
pub open spec fn access_sign_of(
    method: Seq<char>,
    path: Seq<char>,
    body: Seq<char>,
    timestamp: Seq<char>,
    secret: Seq<char>,
) -> Seq<char> {
    hex_of(
        hmac_sha256_of(encode_utf8(secret), encode_utf8(signed_text(method, path, body, timestamp))),
    )
}

/// Whether secret and request are short enough to be signed.
pub open spec fn signable(
    method: Seq<char>,
    path: Seq<char>,
    body: Seq<char>,
    timestamp: Seq<char>,
    secret: Seq<char>,
) -> bool {
    encode_utf8(secret).len() <= MAX_HMAC_INPUT && encode_utf8(
        signed_text(method, path, body, timestamp),
    ).len() <= MAX_HMAC_INPUT
}

/// Signs a request. `None` if the secret or the request is too long.
pub fn get_access_sign(method: &str, path: &str, body: &str, timestamp: &str, secret: &str) -> (sign:
    Option<String>)
    ensures
        sign is Some <==> signable(method@, path@, body@, timestamp@, secret@),
        sign matches Some(s) ==> s@ == access_sign_of(method@, path@, body@, timestamp@, secret@)
            && s@.len() == 64,
{
    let text = timestamp.to_owned().concat(method).concat(path).concat(body);
    sign_hex(secret, text.as_str())
}

/// The headers of a signed request, in this order: the key, the
/// timestamp, the signature.
pub fn get_credential(
    api_key: Option<String>,
    api_secret: Option<String>,
    method: &str,
    path: &str,
    body: &str,
    timestamp: &str,
) -> (r: Result<Vec<Header>, CredentialError>)
    ensures
        match r {
            Ok(headers) => {
                &&& api_key matches Some(key)
                &&& api_secret matches Some(secret)
                &&& signable(method@, path@, body@, timestamp@, secret@)
                &&& headers@.len() == 3
                &&& headers@[0].name@ == "ACCESS-KEY"@
                &&& headers@[0].value@ == key@
                &&& headers@[1].name@ == "ACCESS-TIMESTAMP"@
                &&& headers@[1].value@ == timestamp@
                &&& headers@[2].name@ == "ACCESS-SIGN"@
                &&& headers@[2].value@ == access_sign_of(
                    method@,
                    path@,
                    body@,
                    timestamp@,
                    secret@,
                )
            },
            Err(CredentialError::MissingKey) => api_key is None,
            Err(CredentialError::MissingSecret) => api_key is Some && api_secret is None,
            Err(CredentialError::TooLong) => {
                &&& api_key is Some
                &&& api_secret matches Some(secret)
                &&& !signable(method@, path@, body@, timestamp@, secret@)
            },
        },
{
    let key = match api_key {
        Some(key) => key,
        None => {
            return Err(CredentialError::MissingKey);
        },
    };
    let secret = match api_secret {
        Some(secret) => secret,
        None => {
            return Err(CredentialError::MissingSecret);
        },
    };
    let sign = match get_access_sign(method, path, body, timestamp, secret.as_str()) {
        Some(sign) => sign,
        None => {
            return Err(CredentialError::TooLong);
        },
    };
    let mut headers: Vec<Header> = Vec::new();
    headers.push(Header { name: "ACCESS-KEY".to_owned(), value: key });
    headers.push(Header { name: "ACCESS-TIMESTAMP".to_owned(), value: timestamp.to_owned() });
    headers.push(Header { name: "ACCESS-SIGN".to_owned(), value: sign });
    Ok(headers)
}

} // verus!

//! Message authentication for the private endpoints: HMAC-SHA256 tags,
//! written in hexadecimal.

use vstd::prelude::*;
use vstd::utf8::encode_utf8;

verus! {

/// The longest key or message, in bytes, that is signed: one mebibyte.
/// The HMAC itself takes far more (ring gives out only at 2^61 bytes).
/// The limit is set low on purpose: a request to these endpoints is a few
/// hundred bytes, and one that has grown beyond a mebibyte is a fault of
/// its maker, which is better refused than signed and sent.
pub const MAX_HMAC_INPUT: usize = 1_048_576;

/// The HMAC-SHA256 tag of `message` under `key`.
pub uninterp spec fn hmac_sha256_of(key: Seq<u8>, message: Seq<u8>) -> Seq<u8>;

/// The upper-case form of a string.
pub uninterp spec fn uppercase_of(s: Seq<char>) -> Seq<char>;

/// The lower-case hexadecimal digit for a value below 16.
pub open spec fn hex_digit_of(nibble: int) -> char {
    if nibble < 10 {
        ((48 + nibble) as u8) as char
    } else {
        ((87 + nibble) as u8) as char
    }
}

/// Two lower-case hexadecimal digits for each byte, the high half first.
pub open spec fn hex_of(bytes: Seq<u8>) -> Seq<char> {
    Seq::new(
        2 * bytes.len(),
        |i: int|
            if i % 2 == 0 {
                hex_digit_of(bytes[i / 2] as int / 16)
            } else {
                hex_digit_of(bytes[i / 2] as int % 16)
            },
    )
}

/// Whether `c` is one of `0`-`9`, `a`-`f`.
pub open spec fn is_lower_hex(c: char) -> bool {
    ('0' <= c && c <= '9') || ('a' <= c && c <= 'f')
}

/// A hexadecimal string has two digits per byte and nothing else.
pub proof fn lemma_hex_shape(bytes: Seq<u8>)
    ensures
        hex_of(bytes).len() == 2 * bytes.len(),
        forall|i: int| 0 <= i < hex_of(bytes).len() ==> is_lower_hex(#[trigger] hex_of(bytes)[i]),
{
    assert forall|i: int| 0 <= i < hex_of(bytes).len() implies is_lower_hex(
        #[trigger] hex_of(bytes)[i],
    ) by {
        let b = bytes[i / 2] as int;
        assert(0 <= b / 16 < 16);
        assert(0 <= b % 16 < 16);
    }
}

/// Builds a key with `ring::hmac::Key::new` for `HMAC_SHA256` and signs
/// `message` with `ring::hmac::sign`. The tag is a function of key and
/// message alone, and SHA-256 gives it 32 bytes; that is all that is
/// claimed. ring panics on inputs of 2^61 bytes and more, which the bound
/// on the lengths keeps far away.
#[verifier::external_body]
pub(crate) fn hmac_sha256(key: &[u8], message: &[u8]) -> (tag: Vec<u8>)
    requires
        key@.len() <= MAX_HMAC_INPUT,
        message@.len() <= MAX_HMAC_INPUT,
    ensures
        tag@ == hmac_sha256_of(key@, message@),
        tag@.len() == 32,
{
    let key = ring::hmac::Key::new(ring::hmac::HMAC_SHA256, key);
    ring::hmac::sign(&key, message).as_ref().to_vec()
}

/// `hex::encode`: every byte becomes two characters of
/// `0123456789abcdef`, the high four bits first.
#[verifier::external_body]
pub(crate) fn hex_encode(bytes: &[u8]) -> (s: String)
    ensures
        s@ == hex_of(bytes@),
{
    hex::encode(bytes)
}

/// `str::to_uppercase`. The result is a function of the string alone; no
/// more is claimed of it.
#[verifier::external_body]
pub(crate) fn to_uppercase(s: &str) -> (upper: String)
    ensures
        upper@ == uppercase_of(s@),
{
    s.to_uppercase()
}

/// The tag of `message` under `secret`, in hexadecimal. `None` if either
/// is longer than `MAX_HMAC_INPUT` bytes.
pub fn sign_hex(secret: &str, message: &str) -> (sign: Option<String>)
    ensures
        sign is Some <==> encode_utf8(secret@).len() <= MAX_HMAC_INPUT && encode_utf8(message@).len()
            <= MAX_HMAC_INPUT,
        sign matches Some(s) ==> s@ == hex_of(
            hmac_sha256_of(encode_utf8(secret@), encode_utf8(message@)),
        ) && s@.len() == 64,
{
    let key = secret.as_bytes();
    let text = message.as_bytes();
    if key.len() > MAX_HMAC_INPUT || text.len() > MAX_HMAC_INPUT {
        return None;
    }
    let tag = hmac_sha256(key, text);
    proof {
        lemma_hex_shape(tag@);
    }
    Some(hex_encode(tag.as_slice()))
}

} // verus!

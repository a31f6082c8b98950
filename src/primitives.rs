//! The calls this library makes into hashing, encoding, URL-parsing, clock
//! and identifier crates, each with the contract it is trusted to meet.

use vstd::prelude::*;
use sha2::Digest;
use base64::Engine;

verus! {

/// The SHA-256 digest of a byte sequence.
pub uninterp spec fn sha256_of(data: Seq<u8>) -> Seq<u8>;

/// The unpadded base-64 text of a byte sequence over the URL-safe alphabet.
pub uninterp spec fn b64url_of(data: Seq<u8>) -> Seq<char>;

/// The scheme that URL parsing finds in a text, or `None` when it is no URL.
pub uninterp spec fn url_scheme_of(text: Seq<char>) -> Option<Seq<char>>;

/// A character of the URL-safe base-64 alphabet: `A-Z`, `a-z`, `0-9`, `-`, `_`.
pub open spec fn is_b64url_char(c: char) -> bool {
    ('A' <= c && c <= 'Z') || ('a' <= c && c <= 'z') || ('0' <= c && c <= '9') || c == '-' || c
        == '_'
}

/// Length of the unpadded base-64 text of `n` bytes.
pub open spec fn b64_unpadded_len(n: nat) -> nat {
    4 * (n / 3) + if n % 3 == 1 {
        2nat
    } else if n % 3 == 2 {
        3nat
    } else {
        0nat
    }
}

/// Relies on `sha2::Sha256::digest`: the 32-byte SHA-256 digest of `data`.
#[verifier::external_body]
pub(crate) fn sha256(data: &[u8]) -> (r: Vec<u8>)
    ensures
        r@ == sha256_of(data@),
        r@.len() == 32,
{
    sha2::Sha256::digest(data).to_vec()
}

/// Relies on `base64::engine::general_purpose::URL_SAFE_NO_PAD.encode`: the text is
/// four characters per three bytes (two or three for a trailing group), with no
/// padding, drawn from the URL-safe alphabet. It panics when that length
/// overflows `usize`, which `requires` leaves out.
#[verifier::external_body]
pub(crate) fn b64url(data: &[u8]) -> (r: String)
    requires
        4 * (data@.len() / 3) + 3 <= usize::MAX,
    ensures
        r@ == b64url_of(data@),
        r@.len() == b64_unpadded_len(data@.len()),
        forall|i: int| 0 <= i < r@.len() ==> is_b64url_char(#[trigger] r@[i]),
{
    base64::engine::general_purpose::URL_SAFE_NO_PAD.encode(data)
}

/// Relies on `url::Url::parse` and `Url::scheme`: the scheme of the parsed URL,
/// or `None` when parsing fails.
#[verifier::external_body]
pub(crate) fn parse_url_scheme(text: &str) -> (r: Option<String>)
    ensures
        match r {
            Some(s) => url_scheme_of(text@) == Some(s@),
            None => url_scheme_of(text@) is None,
        },
{
    match url::Url::parse(text) {
        Ok(u) => Some(u.scheme().to_string()),
        Err(_) => None,
    }
}

/// Relies on `time::OffsetDateTime::now_utc` and `unix_timestamp_nanos`: the wall
/// clock in nanoseconds since the Unix epoch. Nothing is promised of its value.
#[verifier::external_body]
pub(crate) fn unix_time_nanos() -> (r: i128) {
    time::OffsetDateTime::now_utc().unix_timestamp_nanos()
}

/// Relies on `uuid::Uuid::new_v4` and `Uuid::as_u128`: a random version-4
/// identifier. Nothing is promised of its value.
#[verifier::external_body]
pub(crate) fn random_uuid() -> (r: u128) {
    uuid::Uuid::new_v4().as_u128()
}

} // verus!

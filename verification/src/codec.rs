//! Encodings and digests that the library takes from other crates. Each
//! function here only hands a value to the outside function and back; what is
//! claimed of it is believed, not proved.

use std::fmt::Write;
use vstd::prelude::*;

verus! {

/// The padded, URL-safe base64 text of `data`.
pub uninterp spec fn base64url_text(data: Seq<u8>) -> Seq<char>;

/// The bytes that `text` stands for as padded, URL-safe base64, where it is such a text.
pub uninterp spec fn base64url_bytes(text: Seq<char>) -> Option<Seq<u8>>;

/// The SHA-256 digest of `data`.
pub uninterp spec fn sha256_digest(data: Seq<u8>) -> Seq<u8>;

/// The identifier that `text` writes, where it is one of the UUID notations.
pub uninterp spec fn uuid_of_text(text: Seq<char>) -> Option<u128>;

/// The hyphenated lower-case notation of the identifier `id`.
pub uninterp spec fn uuid_text(id: u128) -> Seq<char>;

/// The instant `millis` milliseconds after the Unix epoch, seen `offset`
/// seconds east of UTC and written after the pattern `format`; `None` where
/// the instant, the offset or the pattern is out of range.
pub uninterp spec fn clock_text(millis: i64, offset: i32, format: Seq<char>) -> Option<Seq<char>>;

/// An ASCII letter or digit.
pub open spec fn is_alphanumeric(c: char) -> bool {
    ('0' <= c && c <= '9') || ('a' <= c && c <= 'z') || ('A' <= c && c <= 'Z')
}

/// `Engine::encode` of base64's `URL_SAFE` engine. The result is named
/// `base64url_text`, and the same engine decodes it to the bytes that
/// were encoded.
#[verifier::external_body]
pub(crate) fn base64url_encode(data: &[u8]) -> (r: String)
    ensures
        r@ == base64url_text(data@),
        base64url_bytes(r@) == Some(data@),
{
    base64::Engine::encode(&base64::engine::general_purpose::URL_SAFE, data)
}

/// `Engine::decode` of base64's `URL_SAFE` engine. The decoded bytes are
/// named `base64url_bytes`; a text the engine refuses gives `None`.
#[verifier::external_body]
pub(crate) fn base64url_decode(text: &str) -> (r: Option<Vec<u8>>)
    ensures
        match r {
            Some(bytes) => base64url_bytes(text@) == Some(bytes@),
            None => base64url_bytes(text@) is None,
        },
{
    base64::Engine::decode(&base64::engine::general_purpose::URL_SAFE, text).ok()
}

/// `Digest::digest` of sha2's `Sha256`. The 32 bytes are named `sha256_digest`.
#[verifier::external_body]
pub(crate) fn sha256(data: &[u8]) -> (r: [u8; 32])
    ensures
        r@ == sha256_digest(data@),
{
    <sha2::Sha256 as sha2::Digest>::digest(data).into()
}

/// `Uuid::parse_str` of uuid. The identifier is named `uuid_of_text`; a text
/// the parser refuses gives `None`.
#[verifier::external_body]
pub(crate) fn uuid_parse(text: &str) -> (r: Option<u128>)
    ensures
        r == uuid_of_text(text@),
{
    match uuid::Uuid::parse_str(text) {
        Ok(id) => Some(id.as_u128()),
        Err(_) => None,
    }
}

/// `Display` of uuid's `Uuid`, the hyphenated lower-case notation. The text
/// is named `uuid_text`, and the crate's parser reads it back as `id`.
#[verifier::external_body]
pub(crate) fn uuid_render(id: u128) -> (r: String)
    ensures
        r@ == uuid_text(id),
        uuid_of_text(r@) == Some(id),
{
    uuid::Uuid::from_u128(id).to_string()
}

/// `DateTime::format` of chrono, on the instant `millis` in the fixed offset
/// `offset`. The text is named `clock_text`; `None` where chrono has no such
/// offset or instant, or refuses the pattern.
#[verifier::external_body]
pub(crate) fn clock_format(millis: i64, offset: i32, format: &str) -> (r: Option<String>)
    ensures
        match r {
            Some(text) => clock_text(millis, offset, format@) == Some(text@),
            None => clock_text(millis, offset, format@) is None,
        },
{
    let zone = chrono::FixedOffset::east_opt(offset)?;
    let when = chrono::TimeZone::timestamp_millis_opt(&zone, millis).single()?;
    let mut out = String::new();
    write!(out, "{}", when.format(format)).ok()?;
    Some(out)
}

/// `SampleString::sample_string` of rand's `Alphanumeric`, on the thread's
/// generator: `len` characters, each an ASCII letter or digit. Which ones is
/// left open.
#[verifier::external_body]
pub(crate) fn random_alphanumeric(len: usize) -> (r: String)
    ensures
        r@.len() == len,
        forall|i: int| 0 <= i < r@.len() ==> is_alphanumeric(#[trigger] r@[i]),
{
    rand::distr::SampleString::sample_string(&rand::distr::Alphanumeric, &mut rand::rng(), len)
}

} // verus!

//! Content types of request bodies.

use vstd::prelude::*;
use vstd::utf8::encode_utf8;
use crate::error::Error;
use crate::specs::buffers::bytes_of;
use crate::specs::codecs::{form_encoded, form_urlencode};
use crate::text::pair_texts;

verus! {

/// Content type for request bodies.
#[derive(Debug, Clone, Copy, PartialEq, Eq, Hash, Structural)]
pub enum ContentType {
    /// JSON content type (`application/json`).
    Json,
    /// Form URL-encoded content type (`application/x-www-form-urlencoded`).
    FormUrlEncoded,
    /// Plain text content type (`text/plain`).
    PlainText,
    /// Binary content type (`application/octet-stream`).
    OctetStream,
}

impl ContentType {
    /// The MIME type.
    pub open spec fn mime(self) -> Seq<char> {
        match self {
            ContentType::Json => "application/json"@,
            ContentType::FormUrlEncoded => "application/x-www-form-urlencoded"@,
            ContentType::PlainText => "text/plain"@,
            ContentType::OctetStream => "application/octet-stream"@,
        }
    }

    /// Get the MIME type string.
    #[must_use]
    pub fn as_str(&self) -> (r: &'static str)
        ensures
            r@ == self.mime(),
    {
        match self {
            ContentType::Json => "application/json",
            ContentType::FormUrlEncoded => "application/x-www-form-urlencoded",
            ContentType::PlainText => "text/plain",
            ContentType::OctetStream => "application/octet-stream",
        }
    }

    /// The MIME type as an owned string.
    #[must_use]
    pub fn to_string(&self) -> (r: String)
        ensures
            r@ == self.mime(),
    {
        self.as_str().to_owned()
    }
}

/// Serialize name/value pairs to a query string: the pairs form-urlencoded
/// and joined by `&`. Where the encoder refuses the pairs, its message is the
/// error.
pub fn to_query_string(pairs: &Vec<(String, String)>) -> (r: Result<String, Error>)
    ensures
        match form_encoded(pair_texts(pairs@)) {
            Ok(text) => r matches Ok(s) && s@ == text,
            Err(message) => r matches Err(Error::QuerySerialization(m)) && m@ == message,
        },
{
    match form_urlencode(pairs) {
        Ok(text) => Ok(text),
        Err(message) => Err(Error::QuerySerialization(message)),
    }
}

/// Serialize name/value pairs to form URL-encoded bytes: the bytes of their
/// query string.
pub fn to_form(pairs: &Vec<(String, String)>) -> (r: Result<bytes::Bytes, Error>)
    ensures
        match form_encoded(pair_texts(pairs@)) {
            Ok(text) => r matches Ok(b) && bytes_of(b) == encode_utf8(text),
            Err(message) => r matches Err(Error::QuerySerialization(m)) && m@ == message,
        },
{
    match to_query_string(pairs) {
        Ok(text) => Ok(bytes::Bytes::from(text.as_str().as_bytes_vec())),
        Err(e) => Err(e),
    }
}

} // verus!

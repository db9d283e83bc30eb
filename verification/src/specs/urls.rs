//! Contracts for the `url` crate.
//!
//! A `url::Url` is opaque here: what parsing, joining and query building return is
//! named, not described.

use vstd::prelude::*;
use vstd::utf8::encode_utf8;

verus! {

/// `url::Url`: a parsed URL.
#[verifier::external_type_specification]
#[verifier::external_body]
pub struct ExUrl(url::Url);

/// `url::ParseError`: why a text is no URL.
#[verifier::external_type_specification]
#[verifier::external_body]
pub struct ExParseError(url::ParseError);

/// What `url::Url::parse` returns for a text.
pub uninterp spec fn url_parsed(input: Seq<char>) -> std::result::Result<url::Url, url::ParseError>;

/// What `url::Url::join` returns: `input` resolved against `base` as a relative reference.
pub uninterp spec fn url_joined(base: url::Url, input: Seq<char>) -> std::result::Result<url::Url, url::ParseError>;

/// The serialization of a URL, as `url::Url::as_str` returns it.
pub uninterp spec fn url_text(u: url::Url) -> Seq<char>;

/// The URL after `url::Url::query_pairs_mut` was called and its serializer dropped unused.
pub uninterp spec fn url_query_opened(u: url::Url) -> url::Url;

/// The URL after one name/value pair was appended to its query.
pub uninterp spec fn url_pair_appended(u: url::Url, name: Seq<char>, value: Seq<char>) -> url::Url;

/// The message that `url::ParseError` displays.
pub uninterp spec fn parse_error_text(e: url::ParseError) -> Seq<char>;

/// The length of a URL's serialization in bytes.
pub open spec fn url_len(u: url::Url) -> nat {
    encode_utf8(url_text(u)).len()
}

/// `url::Url::parse`; its result is named.
pub assume_specification[ url::Url::parse ](input: &str) -> (r: std::result::Result<url::Url, url::ParseError>)
    ensures
        r == url_parsed(input@),
;

/// `url::Url::join`; its result is named.
pub assume_specification[ url::Url::join ](base: &url::Url, input: &str) -> (r: std::result::Result<url::Url, url::ParseError>)
    ensures
        r == url_joined(*base, input@),
;

/// `url::Url::as_str` gives the serialization.
pub assume_specification<'a>[ url::Url::as_str ](u: &'a url::Url) -> (r: &'a str)
    ensures
        r@ == url_text(*u),
;

/// Cloning a `url::Url` gives the same URL.
pub assume_specification[ <url::Url as Clone>::clone ](u: &url::Url) -> (r: url::Url)
    ensures
        r == *u,
;

/// Calls `url::Url::query_pairs_mut` and drops the serializer at once, which leaves
/// the URL with a query part. The crate panics where the serialization passes
/// 4 GiB, so longer URLs are kept out.
#[verifier::external_body]
pub(crate) fn open_query(u: &mut url::Url)
    requires
        url_len(*old(u)) < 0xFFFF_FFFF,
    ensures
        *final(u) == url_query_opened(*old(u)),
{
    u.query_pairs_mut();
}

/// Calls `url::Url::query_pairs_mut` and `Serializer::append_pair` once. The crate
/// panics where the serialization passes 4 GiB; each byte of the pair takes at
/// most three bytes, and two separators may come with it.
#[verifier::external_body]
pub(crate) fn append_query_pair(u: &mut url::Url, name: &str, value: &str)
    requires
        url_len(*old(u)) + 3 * (encode_utf8(name@).len() + encode_utf8(value@).len()) + 3
            <= 0xFFFF_FFFF,
    ensures
        *final(u) == url_pair_appended(*old(u), name@, value@),
{
    u.query_pairs_mut().append_pair(name, value);
}

/// Renders a `url::ParseError` with its `Display` impl.
#[verifier::external_body]
pub(crate) fn parse_error_message(e: &url::ParseError) -> (r: String)
    ensures
        r@ == parse_error_text(*e),
{
    e.to_string()
}

} // verus!

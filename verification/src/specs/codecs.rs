//! Contracts for the encoders of other crates.

use vstd::prelude::*;
use crate::text::pair_texts;

verus! {

/// The upper-case hexadecimal digit for a value below sixteen.
pub open spec fn hex_upper(d: int) -> char
    recommends
        0 <= d < 16,
{
    if d < 10 {
        ((48 + d) as u8) as char
    } else {
        ((55 + d) as u8) as char
    }
}

/// The percent-encoding of one byte: `%` and two upper-case hexadecimal digits.
pub open spec fn percent_triplet(b: u8) -> Seq<char> {
    seq!['%', hex_upper(b as int / 16), hex_upper(b as int % 16)]
}

/// Calls `percent_encoding::percent_encode_byte`, which looks the byte up in a
/// table of `%00` to `%FF`.
#[verifier::external_body]
pub(crate) fn percent_encode_byte(b: u8) -> (r: &'static str)
    ensures
        r@ == percent_triplet(b),
{
    percent_encoding::percent_encode_byte(b)
}

/// What `serde_html_form::to_string` returns for a sequence of name/value pairs:
/// their `application/x-www-form-urlencoded` form, or the message of its error.
pub uninterp spec fn form_encoded(pairs: Seq<(Seq<char>, Seq<char>)>) -> std::result::Result<
    Seq<char>,
    Seq<char>,
>;

/// The outcome of a call that yields a text or a message, each taken by its view.
pub open spec fn text_outcome(r: std::result::Result<String, String>) -> std::result::Result<
    Seq<char>,
    Seq<char>,
> {
    match r {
        Ok(s) => Ok(s@),
        Err(e) => Err(e@),
    }
}

/// Calls `serde_html_form::to_string` on the pairs and renders an error with
/// its `Display` impl; the result is named.
#[verifier::external_body]
pub(crate) fn form_urlencode(pairs: &Vec<(String, String)>) -> (r: std::result::Result<
    String,
    String,
>)
    ensures
        text_outcome(r) == form_encoded(pair_texts(pairs@)),
{
    serde_html_form::to_string(pairs).map_err(|e| e.to_string())
}

/// The base64 text of a run of bytes in the standard alphabet with padding,
/// as `base64::engine::general_purpose::STANDARD` encodes it.
pub uninterp spec fn base64_standard(bytes: Seq<u8>) -> Seq<char>;

/// Calls `Engine::encode` on `base64::engine::general_purpose::STANDARD`. The
/// crate panics where the length of the text would overflow, so the input is
/// kept to a gigabyte.
#[verifier::external_body]
pub(crate) fn base64_encode(bytes: &[u8]) -> (r: String)
    requires
        bytes@.len() <= 0x3FFF_FFFF,
    ensures
        r@ == base64_standard(bytes@),
{
    base64::Engine::encode(&base64::engine::general_purpose::STANDARD, bytes)
}

/// The outcome of a call that yields bytes or a message, each taken by its view.
pub open spec fn bytes_outcome(r: std::result::Result<Vec<u8>, String>) -> std::result::Result<
    Seq<u8>,
    Seq<char>,
> {
    match r {
        Ok(b) => Ok(b@),
        Err(e) => Err(e@),
    }
}

/// What reading a `flate2::read::GzDecoder` over the bytes to its end gives:
/// the decompressed bytes, or the message of the error.
pub uninterp spec fn gzip_decoded(data: Seq<u8>) -> std::result::Result<Seq<u8>, Seq<char>>;

/// What reading a `flate2::read::DeflateDecoder` over the bytes to its end
/// gives: the decompressed bytes, or the message of the error.
pub uninterp spec fn deflate_decoded(data: Seq<u8>) -> std::result::Result<Seq<u8>, Seq<char>>;

/// What `brotli::BrotliDecompress` writes for the bytes, or the message of its
/// error.
pub uninterp spec fn brotli_decoded(data: Seq<u8>) -> std::result::Result<Seq<u8>, Seq<char>>;

/// What `zstd::decode_all` returns for the bytes, or the message of its error.
pub uninterp spec fn zstd_decoded(data: Seq<u8>) -> std::result::Result<Seq<u8>, Seq<char>>;

/// Reads a `flate2::read::GzDecoder` over the bytes to its end.
#[verifier::external_body]
pub(crate) fn gzip_decode(data: &[u8]) -> (r: std::result::Result<Vec<u8>, String>)
    ensures
        bytes_outcome(r) == gzip_decoded(data@),
{
    let mut out = Vec::new();
    std::io::Read::read_to_end(&mut flate2::read::GzDecoder::new(data), &mut out)
        .map(|_| out)
        .map_err(|e| e.to_string())
}

/// Reads a `flate2::read::DeflateDecoder` over the bytes to its end.
#[verifier::external_body]
pub(crate) fn deflate_decode(data: &[u8]) -> (r: std::result::Result<Vec<u8>, String>)
    ensures
        bytes_outcome(r) == deflate_decoded(data@),
{
    let mut out = Vec::new();
    std::io::Read::read_to_end(&mut flate2::read::DeflateDecoder::new(data), &mut out)
        .map(|_| out)
        .map_err(|e| e.to_string())
}

/// Calls `brotli::BrotliDecompress` from the bytes into a vector.
#[verifier::external_body]
pub(crate) fn brotli_decode(data: &[u8]) -> (r: std::result::Result<Vec<u8>, String>)
    ensures
        bytes_outcome(r) == brotli_decoded(data@),
{
    let mut out = Vec::new();
    let mut source = data;
    brotli::BrotliDecompress(&mut source, &mut out).map(|_| out).map_err(|e| e.to_string())
}

/// Calls `zstd::decode_all` on the bytes.
#[verifier::external_body]
pub(crate) fn zstd_decode(data: &[u8]) -> (r: std::result::Result<Vec<u8>, String>)
    ensures
        bytes_outcome(r) == zstd_decoded(data@),
{
    zstd::decode_all(data).map_err(|e| e.to_string())
}

} // verus!

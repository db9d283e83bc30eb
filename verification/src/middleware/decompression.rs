//! Response decompression: requests announce the encodings that are
//! understood, and encoded responses are decoded.

use vstd::prelude::*;
use crate::error::{prefixed, Error};
use crate::headers::{inserted, lookup, without, Pair};
use crate::request::Request;
use crate::response::Response;
use crate::specs::buffers::bytes_of;
use crate::specs::codecs::{
    brotli_decode, brotli_decoded, deflate_decode, deflate_decoded, gzip_decode, gzip_decoded,
    zstd_decode, zstd_decoded,
};
use crate::text::{decimal_of, decimal_string};

verus! {

/// Layer that enables automatic response decompression.
#[derive(Debug, Clone, Copy)]
pub struct DecompressionLayer {
    _private: (),
}

/// Service that automatically decompresses HTTP responses.
#[derive(Debug)]
pub struct Decompression<S> {
    /// The wrapped service.
    pub inner: S,
}

impl Default for DecompressionLayer {
    fn default() -> Self {
        DecompressionLayer { _private: () }
    }
}

impl DecompressionLayer {
    /// Create a new decompression layer.
    #[must_use]
    pub fn new() -> Self {
        DecompressionLayer { _private: () }
    }

    /// Wraps a service.
    pub fn layer<S>(&self, inner: S) -> (r: Decompression<S>)
        ensures
            r.inner == inner,
    {
        Decompression { inner }
    }
}

/// What decoding a body under an encoding comes to: the decoded bytes, or the
/// message of the error. An encoding that is not known leaves the body as it is.
pub open spec fn decoded(encoding: Seq<char>, body: Seq<u8>) -> std::result::Result<
    Seq<u8>,
    Seq<char>,
> {
    if encoding == "gzip"@ || encoding == "x-gzip"@ {
        match gzip_decoded(body) {
            Ok(b) => Ok(b),
            Err(m) => Err("gzip decompression failed: "@ + m),
        }
    } else if encoding == "deflate"@ {
        match deflate_decoded(body) {
            Ok(b) => Ok(b),
            Err(m) => Err("deflate decompression failed: "@ + m),
        }
    } else if encoding == "br"@ {
        match brotli_decoded(body) {
            Ok(b) => Ok(b),
            Err(m) => Err("brotli decompression failed: "@ + m),
        }
    } else if encoding == "zstd"@ {
        match zstd_decoded(body) {
            Ok(b) => Ok(b),
            Err(m) => Err("zstd decompression failed: "@ + m),
        }
    } else {
        Ok(body)
    }
}

/// Decompress bytes based on encoding.
pub fn decompress(encoding: &str, body: bytes::Bytes) -> (r: Result<bytes::Bytes, Error>)
    ensures
        match decoded(encoding@, bytes_of(body)) {
            Ok(b) => r matches Ok(x) && bytes_of(x) == b,
            Err(m) => r matches Err(Error::InvalidRequest(x)) && x@ == m,
        },
{
    if encoding.eq("gzip") || encoding.eq("x-gzip") {
        match gzip_decode(&body) {
            Ok(b) => Ok(bytes::Bytes::from(b)),
            Err(m) => Err(
                Error::InvalidRequest(prefixed("gzip decompression failed: ", m.as_str())),
            ),
        }
    } else if encoding.eq("deflate") {
        match deflate_decode(&body) {
            Ok(b) => Ok(bytes::Bytes::from(b)),
            Err(m) => Err(
                Error::InvalidRequest(prefixed("deflate decompression failed: ", m.as_str())),
            ),
        }
    } else if encoding.eq("br") {
        match brotli_decode(&body) {
            Ok(b) => Ok(bytes::Bytes::from(b)),
            Err(m) => Err(
                Error::InvalidRequest(prefixed("brotli decompression failed: ", m.as_str())),
            ),
        }
    } else if encoding.eq("zstd") {
        match zstd_decode(&body) {
            Ok(b) => Ok(bytes::Bytes::from(b)),
            Err(m) => Err(
                Error::InvalidRequest(prefixed("zstd decompression failed: ", m.as_str())),
            ),
        }
    } else {
        Ok(body)
    }
}

/// The encodings that are announced.
pub open spec fn accepted_encodings() -> Seq<char> {
    "gzip, deflate, br, zstd"@
}

/// The headers of a request after the encodings were announced: a request
/// that names its encodings keeps them.
pub open spec fn announced(headers: Seq<Pair>) -> Seq<Pair> {
    if lookup(headers, "accept-encoding"@) is Some {
        headers
    } else {
        inserted(headers, "accept-encoding"@, accepted_encodings())
    }
}

/// The encoding of a response: its `content-encoding`, or the empty text.
pub open spec fn encoding_of(headers: Seq<Pair>) -> Seq<char> {
    match lookup(headers, "content-encoding"@) {
        Some(e) => e,
        None => Seq::empty(),
    }
}

/// True for a response that is handed on as it is.
pub open spec fn is_plain(headers: Seq<Pair>) -> bool {
    encoding_of(headers).len() == 0 || encoding_of(headers) == "identity"@
}

/// The headers of a decoded response: without the encoding, and with the
/// length of the decoded body.
pub open spec fn decoded_headers(headers: Seq<Pair>, length: nat) -> Seq<Pair> {
    inserted(without(headers, "content-encoding"@), "content-length"@, decimal_of(length))
}

/// True when `r` is what decoding the response owes.
pub open spec fn decodes(
    r: Result<Response<bytes::Bytes>, Error>,
    response: Response<bytes::Bytes>,
) -> bool {
    let headers = response.spec_headers();
    if is_plain(headers) {
        r matches Ok(x) && x.spec_status() == response.spec_status() && x.spec_headers()
            == headers && x.spec_body() == response.spec_body()
    } else {
        match decoded(encoding_of(headers), bytes_of(response.spec_body())) {
            Ok(b) => r matches Ok(x) && x.spec_status() == response.spec_status() && bytes_of(
                x.spec_body(),
            ) == b && x.spec_headers() == decoded_headers(headers, b.len()),
            Err(m) => r matches Err(Error::InvalidRequest(x)) && x@ == m,
        }
    }
}

impl<S> Decompression<S> {
    /// Create a new decompression service wrapping the given service.
    #[must_use]
    pub fn new(inner: S) -> (r: Self)
        ensures
            r.inner == inner,
    {
        Decompression { inner }
    }

    /// Announces the encodings that are understood, on a request that does
    /// not name any itself.
    pub fn announce(request: &mut Request<bytes::Bytes>)
        ensures
            final(request).spec_headers() == announced(old(request).spec_headers()),
            final(request).spec_method() == old(request).spec_method(),
            final(request).spec_url() == old(request).spec_url(),
            final(request).spec_body() == old(request).spec_body(),
            final(request).spec_extensions() == old(request).spec_extensions(),
    {
        if !request.headers().contains_key("accept-encoding") {
            request.set_header("accept-encoding".to_owned(), "gzip, deflate, br, zstd".to_owned());
        }
    }

    /// Decodes a response according to its `content-encoding`.
    pub fn decode(response: Response<bytes::Bytes>) -> (r: Result<Response<bytes::Bytes>, Error>)
        ensures
            decodes(r, response),
    {
        let encoding: String = match response.header("content-encoding") {
            Some(e) => e.to_owned(),
            None => String::new(),
        };
        if encoding.as_str().is_empty() || encoding.as_str().eq("identity") {
            return Ok(response);
        }
        let (status, mut headers, body) = response.into_parts();
        let decompressed = match decompress(encoding.as_str(), body) {
            Ok(b) => b,
            Err(e) => {
                return Err(e);
            },
        };
        headers.remove("content-encoding");
        headers.insert("content-length".to_owned(), decimal_string(decompressed.len() as u64));
        Ok(Response::new(status, headers, decompressed))
    }
}

} // verus!

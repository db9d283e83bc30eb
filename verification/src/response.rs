//! HTTP responses.

use vstd::prelude::*;
use vstd::utf8::{decode_utf8, valid_utf8};
use crate::headers::{lookup, Headers, Pair};
use crate::specs::buffers::bytes_of;
use crate::specs::strings::utf8_text;

verus! {

/// True for the status codes from `low` up to, but without, `high`.
pub open spec fn status_in(status: u16, low: int, high: int) -> bool {
    low <= status < high
}

/// HTTP response with status, headers, and body.
#[derive(Debug)]
pub struct Response<B = bytes::Bytes> {
    status: u16,
    headers: Headers,
    body: B,
}

impl<B> Response<B> {
    /// The status code.
    pub closed spec fn spec_status(&self) -> u16 {
        self.status
    }

    /// The headers.
    pub closed spec fn spec_headers(&self) -> Seq<Pair> {
        self.headers@
    }

    /// The body.
    pub closed spec fn spec_body(&self) -> B {
        self.body
    }

    /// Creates a new response.
    #[must_use]
    pub fn new(status: u16, headers: Headers, body: B) -> (r: Self)
        ensures
            r.spec_status() == status,
            r.spec_headers() == headers@,
            r.spec_body() == body,
    {
        Response { status, headers, body }
    }

    /// HTTP status code.
    #[must_use]
    pub fn status(&self) -> (r: u16)
        ensures
            r == self.spec_status(),
    {
        self.status
    }

    /// Response headers.
    #[must_use]
    pub fn headers(&self) -> (r: &Headers)
        ensures
            r@ == self.spec_headers(),
    {
        &self.headers
    }

    /// Single header value by name.
    #[must_use]
    pub fn header(&self, name: &str) -> (r: Option<&str>)
        ensures
            match lookup(self.spec_headers(), name@) {
                Some(v) => r is Some && r.unwrap()@ == v,
                None => r is None,
            },
    {
        self.headers.get(name)
    }

    /// Response body.
    #[must_use]
    pub fn body(&self) -> (r: &B)
        ensures
            *r == self.spec_body(),
    {
        &self.body
    }

    /// Consume into body.
    #[must_use]
    pub fn into_body(self) -> (r: B)
        ensures
            r == self.spec_body(),
    {
        self.body
    }

    /// Consume into (status, headers, body).
    #[must_use]
    pub fn into_parts(self) -> (r: (u16, Headers, B))
        ensures
            r.0 == self.spec_status(),
            r.1@ == self.spec_headers(),
            r.2 == self.spec_body(),
    {
        (self.status, self.headers, self.body)
    }

    /// Status is 2xx.
    #[must_use]
    pub fn is_success(&self) -> (r: bool)
        ensures
            r == status_in(self.spec_status(), 200, 300),
    {
        self.status >= 200 && self.status < 300
    }

    /// Status is 3xx.
    #[must_use]
    pub fn is_redirection(&self) -> (r: bool)
        ensures
            r == status_in(self.spec_status(), 300, 400),
    {
        self.status >= 300 && self.status < 400
    }

    /// Status is 4xx.
    #[must_use]
    pub fn is_client_error(&self) -> (r: bool)
        ensures
            r == status_in(self.spec_status(), 400, 500),
    {
        self.status >= 400 && self.status < 500
    }

    /// Status is 5xx.
    #[must_use]
    pub fn is_server_error(&self) -> (r: bool)
        ensures
            r == status_in(self.spec_status(), 500, 600),
    {
        self.status >= 500 && self.status < 600
    }

    /// Transform the body with a function.
    pub fn map_body<F, B2>(self, f: F) -> (r: Response<B2>) where F: FnOnce(B) -> B2
        requires
            f.requires((self.spec_body(),)),
        ensures
            r.spec_status() == self.spec_status(),
            r.spec_headers() == self.spec_headers(),
            f.ensures((self.spec_body(),), r.spec_body()),
    {
        Response { status: self.status, headers: self.headers, body: f(self.body) }
    }
}

impl Response<bytes::Bytes> {
    /// Get the response body as text; `None` where the body is not valid UTF-8.
    #[must_use]
    pub fn text(self) -> (r: Option<String>)
        ensures
            r is Some == valid_utf8(bytes_of(self.spec_body())),
            r is Some ==> r.unwrap()@ == decode_utf8(bytes_of(self.spec_body())),
    {
        utf8_text(&self.body)
    }
}

impl Clone for Response<bytes::Bytes> {
    fn clone(&self) -> (r: Self)
        ensures
            r.spec_status() == self.spec_status(),
            r.spec_headers() == self.spec_headers(),
            r.spec_body() == self.spec_body(),
    {
        Response { status: self.status, headers: self.headers.clone(), body: self.body.clone() }
    }
}

} // verus!

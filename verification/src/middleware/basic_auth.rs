//! Basic authentication: every request gets an
//! `Authorization: Basic <base64(user:pass)>` header.

use vstd::prelude::*;
use vstd::utf8::encode_utf8;
use crate::error::prefixed;
use crate::headers::inserted;
use crate::request::Request;
use crate::specs::codecs::{base64_encode, base64_standard};

verus! {

/// The credentials of a user: name, a colon, password.
pub open spec fn credentials(username: Seq<char>, password: Seq<char>) -> Seq<char> {
    username + ":"@ + password
}

/// The encoded credentials of a user.
pub open spec fn encoded_credentials(username: Seq<char>, password: Seq<char>) -> Seq<char> {
    base64_standard(encode_utf8(credentials(username, password)))
}

/// True when the credentials are short enough to be encoded: a gigabyte at most.
pub open spec fn encodable(username: Seq<char>, password: Seq<char>) -> bool {
    encode_utf8(credentials(username, password)).len() <= 0x3FFF_FFFF
}

/// The value of the authorization header for encoded credentials.
pub open spec fn basic_value(encoded: Seq<char>) -> Seq<char> {
    "Basic "@ + encoded
}

fn credentials_text(username: &str, password: &str) -> (r: String)
    ensures
        r@ == credentials(username@, password@),
{
    let mut text = username.to_owned();
    text.append(":");
    text.append(password);
    text
}

/// Encodes the credentials of a user; `None` where they are too long.
pub fn encode_credentials(username: &str, password: &str) -> (r: Option<String>)
    ensures
        encodable(username@, password@) ==> r is Some && r.unwrap()@ == encoded_credentials(
            username@,
            password@,
        ),
        !encodable(username@, password@) ==> r is None,
{
    let text = credentials_text(username, password);
    let bytes = text.as_str().as_bytes();
    if bytes.len() <= 0x3FFF_FFFF {
        Some(base64_encode(bytes))
    } else {
        None
    }
}

/// Layer that adds basic authentication to requests.
#[derive(Debug)]
pub struct BasicAuthLayer {
    encoded_credentials: String,
}

/// Service that adds basic authentication to requests.
#[derive(Debug)]
pub struct BasicAuth<S> {
    inner: S,
    encoded_credentials: String,
}

impl BasicAuthLayer {
    /// The encoded credentials.
    pub closed spec fn encoded(&self) -> Seq<char> {
        self.encoded_credentials@
    }

    /// Create a new basic auth layer with the given username and password.
    pub fn new(username: &str, password: &str) -> (r: Self)
        requires
            encodable(username@, password@),
        ensures
            r.encoded() == encoded_credentials(username@, password@),
    {
        let text = credentials_text(username, password);
        BasicAuthLayer { encoded_credentials: base64_encode(text.as_str().as_bytes()) }
    }

    /// The encoded credentials.
    pub fn encoded_credentials(&self) -> (r: &str)
        ensures
            r@ == self.encoded(),
    {
        self.encoded_credentials.as_str()
    }

    /// Wraps a service.
    pub fn layer<S>(&self, inner: S) -> (r: BasicAuth<S>)
        ensures
            r.encoded() == self.encoded(),
            r.spec_inner() == inner,
    {
        BasicAuth { inner, encoded_credentials: self.encoded_credentials.clone() }
    }
}

impl Clone for BasicAuthLayer {
    fn clone(&self) -> (r: Self)
        ensures
            r.encoded() == self.encoded(),
    {
        BasicAuthLayer { encoded_credentials: self.encoded_credentials.clone() }
    }
}

impl<S> BasicAuth<S> {
    /// The encoded credentials.
    pub closed spec fn encoded(&self) -> Seq<char> {
        self.encoded_credentials@
    }

    /// The wrapped service.
    pub closed spec fn spec_inner(&self) -> S {
        self.inner
    }

    /// Create a new basic auth service wrapping the given service.
    pub fn new(inner: S, username: &str, password: &str) -> (r: Self)
        requires
            encodable(username@, password@),
        ensures
            r.encoded() == encoded_credentials(username@, password@),
            r.spec_inner() == inner,
    {
        let text = credentials_text(username, password);
        BasicAuth { inner, encoded_credentials: base64_encode(text.as_str().as_bytes()) }
    }

    /// The wrapped service.
    pub fn inner(&self) -> (r: &S)
        ensures
            *r == self.spec_inner(),
    {
        &self.inner
    }

    /// Sets the authorization header on a request; nothing else changes.
    pub fn authorize(&self, request: &mut Request<bytes::Bytes>)
        ensures
            final(request).spec_headers() == inserted(
                old(request).spec_headers(),
                "Authorization"@,
                basic_value(self.encoded()),
            ),
            final(request).spec_method() == old(request).spec_method(),
            final(request).spec_url() == old(request).spec_url(),
            final(request).spec_body() == old(request).spec_body(),
            final(request).spec_extensions() == old(request).spec_extensions(),
    {
        request.set_header(
            "Authorization".to_owned(),
            prefixed("Basic ", self.encoded_credentials.as_str()),
        );
    }
}

} // verus!

//! Bearer token authentication: every request gets an
//! `Authorization: Bearer <token>` header.

use vstd::prelude::*;
use crate::error::prefixed;
use crate::headers::inserted;
use crate::request::Request;

verus! {

/// The value of the authorization header for a bearer token.
pub open spec fn bearer_value(token: Seq<char>) -> Seq<char> {
    "Bearer "@ + token
}

/// Layer that adds bearer token authentication to requests.
#[derive(Debug)]
pub struct BearerAuthLayer {
    token: String,
}

/// Service that adds bearer token authentication to requests.
#[derive(Debug)]
pub struct BearerAuth<S> {
    inner: S,
    token: String,
}

impl BearerAuthLayer {
    /// The token.
    pub closed spec fn token(&self) -> Seq<char> {
        self.token@
    }

    /// Create a new bearer auth layer with the given token.
    pub fn new(token: &str) -> (r: Self)
        ensures
            r.token() == token@,
    {
        BearerAuthLayer { token: token.to_owned() }
    }

    /// Wraps a service.
    pub fn layer<S>(&self, inner: S) -> (r: BearerAuth<S>)
        ensures
            r.token() == self.token(),
            r.spec_inner() == inner,
    {
        BearerAuth { inner, token: self.token.clone() }
    }
}

impl Clone for BearerAuthLayer {
    fn clone(&self) -> (r: Self)
        ensures
            r.token() == self.token(),
    {
        BearerAuthLayer { token: self.token.clone() }
    }
}

impl<S> BearerAuth<S> {
    /// The token.
    pub closed spec fn token(&self) -> Seq<char> {
        self.token@
    }

    /// The wrapped service.
    pub closed spec fn spec_inner(&self) -> S {
        self.inner
    }

    /// Create a new bearer auth service wrapping the given service.
    pub fn new(inner: S, token: &str) -> (r: Self)
        ensures
            r.token() == token@,
            r.spec_inner() == inner,
    {
        BearerAuth { inner, token: token.to_owned() }
    }

    /// The wrapped service.
    pub fn inner(&self) -> (r: &S)
        ensures
            *r == self.spec_inner(),
    {
        &self.inner
    }

    /// Sets the authorization header on a request; nothing else changes.
    pub fn authorize(&self, request: &mut Request<bytes::Bytes>)
        ensures
            final(request).spec_headers() == inserted(
                old(request).spec_headers(),
                "Authorization"@,
                bearer_value(self.token()),
            ),
            final(request).spec_method() == old(request).spec_method(),
            final(request).spec_url() == old(request).spec_url(),
            final(request).spec_body() == old(request).spec_body(),
            final(request).spec_extensions() == old(request).spec_extensions(),
    {
        request.set_header("Authorization".to_owned(), prefixed("Bearer ", self.token.as_str()));
    }
}

} // verus!

//! Following redirects: which responses redirect, and where the next request
//! goes.

use vstd::prelude::*;
use crate::error::Error;
use crate::headers::{lemma_extend_from_empty, lookup, pairs_of};
use crate::method::Method;
use crate::request::Request;
use crate::response::Response;
use crate::specs::buffers::bytes_of;
use crate::specs::urls::{url_joined, url_parsed};

verus! {

/// Default maximum number of redirects to follow.
pub const DEFAULT_MAX_REDIRECTS: usize = 10;

/// Layer that follows HTTP redirects.
#[derive(Debug, Clone, Copy)]
pub struct FollowRedirectLayer {
    /// The number of redirects that are followed at most.
    pub max_redirects: usize,
}

/// Service that follows HTTP redirects.
#[derive(Debug)]
pub struct FollowRedirect<S> {
    /// The wrapped service.
    pub inner: S,
    /// The number of redirects that are followed at most.
    pub max_redirects: usize,
}

impl Default for FollowRedirectLayer {
    fn default() -> (r: Self)
        ensures
            r.max_redirects == DEFAULT_MAX_REDIRECTS,
    {
        FollowRedirectLayer { max_redirects: DEFAULT_MAX_REDIRECTS }
    }
}

impl FollowRedirectLayer {
    /// Create a new follow redirect layer with default max redirects (10).
    #[must_use]
    pub fn new() -> (r: Self)
        ensures
            r.max_redirects == DEFAULT_MAX_REDIRECTS,
    {
        FollowRedirectLayer { max_redirects: DEFAULT_MAX_REDIRECTS }
    }

    /// Create a new follow redirect layer with a custom max redirects.
    #[must_use]
    pub fn with_max_redirects(max_redirects: usize) -> (r: Self)
        ensures
            r.max_redirects == max_redirects,
    {
        FollowRedirectLayer { max_redirects }
    }

    /// Wraps a service.
    pub fn layer<S>(&self, inner: S) -> (r: FollowRedirect<S>)
        ensures
            r.inner == inner,
            r.max_redirects == self.max_redirects,
    {
        FollowRedirect { inner, max_redirects: self.max_redirects }
    }
}

/// True for the statuses that are followed: 301, 302, 303, 307 and 308.
pub open spec fn redirects(status: u16) -> bool {
    status == 301 || status == 302 || status == 303 || status == 307 || status == 308
}

/// The method of the request that follows a redirect: 307 and 308 keep the
/// method, every other status turns it into GET.
pub open spec fn method_after(status: u16, current: Method) -> Method {
    if status == 307 || status == 308 {
        current
    } else {
        Method::Get
    }
}

/// Where a `Location` leads: the URL that it is by itself, or else the URL
/// that it is relative to the base.
pub open spec fn target_of(base: url::Url, location: Seq<char>) -> std::result::Result<
    url::Url,
    url::ParseError,
> {
    match url_parsed(location) {
        Ok(u) => Ok(u),
        Err(_) => url_joined(base, location),
    }
}

/// Check if a status code is a redirect.
pub fn is_redirect(status: u16) -> (r: bool)
    ensures
        r == redirects(status),
{
    status == 301 || status == 302 || status == 303 || status == 307 || status == 308
}

/// Determine the method for the redirected request.
pub fn redirect_method(status: u16, current: Method) -> (r: Method)
    ensures
        r == method_after(status, current),
{
    if status == 307 || status == 308 {
        current
    } else {
        Method::Get
    }
}

/// Resolve a redirect Location URL relative to the URL of the request that
/// was redirected.
pub fn resolve_redirect_url(base_url: &url::Url, location: &str) -> (r: Result<url::Url, Error>)
    ensures
        match target_of(*base_url, location@) {
            Ok(u) => r == Ok::<url::Url, Error>(u),
            Err(e) => r matches Err(Error::InvalidUrl(x)) && x == e,
        },
{
    match url::Url::parse(location) {
        Ok(u) => Ok(u),
        Err(_) => match base_url.join(location) {
            Ok(u) => Ok(u),
            Err(e) => Err(Error::InvalidUrl(e)),
        },
    }
}

/// What to do with a response.
#[derive(Debug)]
pub enum RedirectStep {
    /// The response is the result.
    Done,
    /// Send this request next.
    Follow(Request<bytes::Bytes>),
}

/// True when `r` is the step that a response calls for after `redirects`
/// redirects were followed.
pub open spec fn steps(
    r: Result<RedirectStep, Error>,
    current: Request<bytes::Bytes>,
    response: Response<bytes::Bytes>,
    followed: usize,
    max: usize,
) -> bool {
    let status = response.spec_status();
    if !redirects(status) {
        r matches Ok(RedirectStep::Done)
    } else if followed >= max {
        r matches Err(Error::TooManyRedirects { count, max: m }) && count == followed && m == max
    } else {
        match lookup(response.spec_headers(), "location"@) {
            None => r matches Err(Error::InvalidRedirect(m)) && m@
                == "redirect response missing Location header"@,
            Some(location) => match target_of(current.spec_url(), location) {
                Err(e) => r matches Err(Error::InvalidUrl(x)) && x == e,
                Ok(url) => r matches Ok(RedirectStep::Follow(next)) && next.spec_url() == url
                    && next.spec_method() == method_after(status, current.spec_method())
                    && next.spec_headers() == current.spec_headers()
                    && next.spec_extensions().path_template is None
                    && next.spec_extensions().parameters is None && (next.spec_body() matches Some(body) && bytes_of(body) == (
                if next.spec_method() is Get || next.spec_method() is Head {
                    Seq::<u8>::empty()
                } else {
                    match current.spec_body() {
                        Some(b) => bytes_of(b),
                        None => Seq::<u8>::empty(),
                    }
                })),
            },
        }
    }
}

impl<S> FollowRedirect<S> {
    /// Create a new follow redirect service wrapping the given service.
    #[must_use]
    pub fn new(inner: S) -> (r: Self)
        ensures
            r.inner == inner,
            r.max_redirects == DEFAULT_MAX_REDIRECTS,
    {
        FollowRedirect { inner, max_redirects: DEFAULT_MAX_REDIRECTS }
    }

    /// Create a new follow redirect service with a custom max redirects.
    #[must_use]
    pub fn with_max_redirects(inner: S, max_redirects: usize) -> (r: Self)
        ensures
            r.inner == inner,
            r.max_redirects == max_redirects,
    {
        FollowRedirect { inner, max_redirects }
    }
}

/// Decides what follows a response: it is the result unless it redirects; a
/// redirect beyond the limit or without a usable `Location` is an error; else
/// the next request goes to the target with the headers of the current one
/// and nothing else that travelled with it.
/// A request that becomes GET or HEAD loses its body.
pub fn next_step(
    current: Request<bytes::Bytes>,
    response: &Response<bytes::Bytes>,
    followed: usize,
    max: usize,
) -> (r: Result<RedirectStep, Error>)
    ensures
        steps(r, current, *response, followed, max),
{
    let status = response.status();
    if !is_redirect(status) {
        return Ok(RedirectStep::Done);
    }
    if followed >= max {
        return Err(Error::TooManyRedirects { count: followed, max });
    }
    let location = match response.header("location") {
        Some(l) => l,
        None => {
            return Err(
                Error::InvalidRedirect("redirect response missing Location header".to_owned()),
            );
        },
    };
    let new_url = match resolve_redirect_url(current.uri(), location) {
        Ok(u) => u,
        Err(e) => {
            return Err(e);
        },
    };
    let new_method = redirect_method(status, current.method());
    let (_, _, headers, body, _) = current.into_parts();
    let keep = match new_method {
        Method::Get => false,
        Method::Head => false,
        _ => true,
    };
    let body = if keep {
        match body {
            Some(b) => b,
            None => bytes::Bytes::new(),
        }
    } else {
        bytes::Bytes::new()
    };
    let entries = headers.entries();
    proof {
        lemma_extend_from_empty(headers@);
        assert(pairs_of(entries@) == headers@);
    }
    let next: Request<bytes::Bytes> = Request::builder(new_method, new_url).headers(
        entries,
    ).body(body).build();
    Ok(RedirectStep::Follow(next))
}

} // verus!

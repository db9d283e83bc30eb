//! HTTP requests and their builder.

use vstd::prelude::*;
use vstd::utf8::encode_utf8;
use crate::error::Error;
use crate::headers::{extended, inserted, lookup, pairs_of, Headers, Pair};
use crate::method::Method;
use crate::param_meta::{ParameterMetadata, ParameterMetadataView};
use crate::path_template::PathTemplate;
use crate::body::to_form;
use crate::specs::codecs::form_encoded;
use crate::specs::urls::{append_query_pair, url_len, url_pair_appended};
use crate::text::pair_texts;

verus! {

/// Data that travels with a request beside what goes over the wire.
#[derive(Debug)]
pub struct Extensions {
    /// The path template that the request was built from.
    pub path_template: Option<PathTemplate>,
    /// The metadata of the call that built the request.
    pub parameters: Option<ParameterMetadata>,
}

impl Extensions {
    /// No data.
    #[must_use]
    pub fn new() -> (r: Self)
        ensures
            r.path_template is None,
            r.parameters is None,
    {
        Extensions { path_template: None, parameters: None }
    }
}

/// What travels with a request, in contracts: the path template and the
/// metadata of the call.
pub open spec fn carried(e: Extensions) -> (Option<Seq<char>>, Option<ParameterMetadataView>) {
    (
        match e.path_template {
            Some(t) => Some(t@),
            None => None,
        },
        match e.parameters {
            Some(m) => Some(m@),
            None => None,
        },
    )
}

impl Clone for Extensions {
    fn clone(&self) -> (r: Self)
        ensures
            carried(r) == carried(*self),
    {
        Extensions {
            path_template: match &self.path_template {
                Some(t) => Some(t.clone()),
                None => None,
            },
            parameters: match &self.parameters {
                Some(m) => Some(m.clone()),
                None => None,
            },
        }
    }
}

/// True when a name/value pair can be appended to the query of a URL: the
/// serialization stays below 4 GiB even if every byte of the pair is escaped.
pub open spec fn pair_fits(u: url::Url, name: Seq<char>, value: Seq<char>) -> bool {
    url_len(u) + 3 * (encode_utf8(name).len() + encode_utf8(value).len()) + 3 <= 0xFFFF_FFFF
}

/// The URL after the first `n` pairs were appended to its query, or `None`
/// where one of them does not fit.
pub open spec fn appended_upto(u: url::Url, pairs: Seq<Pair>, n: int) -> Option<url::Url>
    decreases n,
{
    if n <= 0 {
        Some(u)
    } else {
        match appended_upto(u, pairs, n - 1) {
            Some(v) => if pair_fits(v, pairs[n - 1].0, pairs[n - 1].1) {
                Some(url_pair_appended(v, pairs[n - 1].0, pairs[n - 1].1))
            } else {
                None
            },
            None => None,
        }
    }
}

/// The URL after all pairs were appended to its query, or `None` where one of
/// them does not fit.
pub open spec fn with_pairs(u: url::Url, pairs: Seq<Pair>) -> Option<url::Url> {
    appended_upto(u, pairs, pairs.len() as int)
}

/// The message of the error for a URL that would grow too long.
pub open spec fn too_long_message() -> Seq<char> {
    "the URL is too long for its query"@
}

/// Tells whether a pair can be appended to the query of a URL.
pub fn fits(u: &url::Url, name: &str, value: &str) -> (r: bool)
    ensures
        r == pair_fits(*u, name@, value@),
{
    let have: u128 = u.as_str().as_bytes().len() as u128;
    let more: u128 = 3 * (name.as_bytes().len() as u128 + value.as_bytes().len() as u128) + 3;
    have + more <= 0xFFFF_FFFF
}

/// Appends the pairs to the query of a URL, in order. A pair that does not
/// fit stops the work.
pub fn append_pairs_to(u: url::Url, pairs: &Vec<(String, String)>) -> (r: Result<
    url::Url,
    Error,
>)
    ensures
        match with_pairs(u, pair_texts(pairs@)) {
            Some(v) => r == Ok::<url::Url, Error>(v),
            None => r matches Err(Error::InvalidRequest(m)) && m@ == too_long_message(),
        },
{
    let mut url = u;
    let mut i: usize = 0;
    while i < pairs.len()
        invariant
            i <= pairs.len(),
            appended_upto(u, pair_texts(pairs@), i as int) == Some(url),
        decreases pairs.len() - i,
    {
        let name = pairs[i].0.as_str();
        let value = pairs[i].1.as_str();
        if !fits(&url, name, value) {
            proof {
                lemma_stuck(u, pair_texts(pairs@), i + 1, pairs.len() as int);
            }
            return Err(Error::InvalidRequest("the URL is too long for its query".to_owned()));
        }
        append_query_pair(&mut url, name, value);
        i += 1;
    }
    Ok(url)
}

/// Once a pair does not fit, no longer run of pairs fits.
pub proof fn lemma_stuck(u: url::Url, pairs: Seq<Pair>, n: int, m: int)
    requires
        0 <= n <= m,
        appended_upto(u, pairs, n) is None,
    ensures
        appended_upto(u, pairs, m) is None,
    decreases m - n,
{
    if n < m {
        lemma_stuck(u, pairs, n, m - 1);
    }
}

/// An HTTP request with method, URL, headers, optional body, and extensions.
#[derive(Debug)]
pub struct Request<B = bytes::Bytes> {
    method: Method,
    url: url::Url,
    headers: Headers,
    body: Option<B>,
    extensions: Extensions,
}

/// Builder for constructing [`Request`] instances.
#[derive(Debug)]
pub struct RequestBuilder<B = bytes::Bytes> {
    method: Method,
    url: url::Url,
    headers: Headers,
    body: Option<B>,
    extensions: Extensions,
}

impl<B> Request<B> {
    /// The method.
    pub closed spec fn spec_method(&self) -> Method {
        self.method
    }

    /// The URL.
    pub closed spec fn spec_url(&self) -> url::Url {
        self.url
    }

    /// The headers.
    pub closed spec fn spec_headers(&self) -> Seq<Pair> {
        self.headers@
    }

    /// The body.
    pub closed spec fn spec_body(&self) -> Option<B> {
        self.body
    }

    /// The data that travels with the request.
    pub closed spec fn spec_extensions(&self) -> Extensions {
        self.extensions
    }

    /// Creates a new [`RequestBuilder`].
    #[must_use]
    pub fn builder(method: Method, url: url::Url) -> (r: RequestBuilder<B>)
        ensures
            r.spec_method() == method,
            r.spec_url() == url,
            r.spec_headers() == Seq::<Pair>::empty(),
            r.spec_body() is None,
            r.spec_extensions().path_template is None,
            r.spec_extensions().parameters is None,
    {
        RequestBuilder::new(method, url)
    }

    /// HTTP method.
    #[must_use]
    pub fn method(&self) -> (r: Method)
        ensures
            r == self.spec_method(),
    {
        self.method
    }

    /// Request URL.
    #[must_use]
    pub fn uri(&self) -> (r: &url::Url)
        ensures
            *r == self.spec_url(),
    {
        &self.url
    }

    /// Request headers.
    #[must_use]
    pub fn headers(&self) -> (r: &Headers)
        ensures
            r@ == self.spec_headers(),
    {
        &self.headers
    }

    /// Mutable access to headers: what is done to them is done to the request.
    #[must_use]
    pub fn headers_mut(&mut self) -> (r: &mut Headers)
        ensures
            r@ == old(self).spec_headers(),
            final(self).spec_headers() == final(r)@,
            final(self).spec_method() == old(self).spec_method(),
            final(self).spec_url() == old(self).spec_url(),
            final(self).spec_body() == old(self).spec_body(),
            final(self).spec_extensions() == old(self).spec_extensions(),
    {
        &mut self.headers
    }

    /// Mutable access to the data that travels with the request.
    #[must_use]
    pub fn extensions_mut(&mut self) -> (r: &mut Extensions)
        ensures
            *r == old(self).spec_extensions(),
            final(self).spec_extensions() == *final(r),
            final(self).spec_method() == old(self).spec_method(),
            final(self).spec_url() == old(self).spec_url(),
            final(self).spec_body() == old(self).spec_body(),
            final(self).spec_headers() == old(self).spec_headers(),
    {
        &mut self.extensions
    }

    /// Sets a header on the request; an earlier header of that name is replaced.
    pub fn set_header(&mut self, name: String, value: String)
        ensures
            final(self).spec_headers() == inserted(old(self).spec_headers(), name@, value@),
            final(self).spec_method() == old(self).spec_method(),
            final(self).spec_url() == old(self).spec_url(),
            final(self).spec_body() == old(self).spec_body(),
            final(self).spec_extensions() == old(self).spec_extensions(),
    {
        self.headers.insert(name, value);
    }

    /// Single header value by name.
    #[must_use]
    pub fn header(&self, name: &str) -> (r: Option<&str>)
        ensures
            match lookup(self.spec_headers(), name@) {
                Some(v) => r is Some && r.unwrap()@ == v,
                None => r is None,
            },
    {
        self.headers.get(name)
    }

    /// Request body.
    #[must_use]
    pub fn body(&self) -> (r: Option<&B>)
        ensures
            r is Some == self.spec_body() is Some,
            r is Some ==> *r.unwrap() == self.spec_body().unwrap(),
    {
        self.body.as_ref()
    }

    /// The data that travels with the request.
    #[must_use]
    pub fn extensions(&self) -> (r: &Extensions)
        ensures
            *r == self.spec_extensions(),
    {
        &self.extensions
    }

    /// Replaces the data that travels with the request.
    pub fn set_extensions(&mut self, extensions: Extensions)
        ensures
            final(self).spec_extensions() == extensions,
            final(self).spec_headers() == old(self).spec_headers(),
            final(self).spec_method() == old(self).spec_method(),
            final(self).spec_url() == old(self).spec_url(),
            final(self).spec_body() == old(self).spec_body(),
    {
        self.extensions = extensions;
    }

    /// Consume into (method, url, headers, body, extensions).
    #[must_use]
    pub fn into_parts(self) -> (r: (Method, url::Url, Headers, Option<B>, Extensions))
        ensures
            r.0 == self.spec_method(),
            r.1 == self.spec_url(),
            r.2@ == self.spec_headers(),
            r.3 == self.spec_body(),
            r.4 == self.spec_extensions(),
    {
        (self.method, self.url, self.headers, self.body, self.extensions)
    }

    /// Construct a request from its parts: the inverse of `into_parts`.
    #[must_use]
    pub fn from_parts(
        method: Method,
        url: url::Url,
        headers: Headers,
        body: Option<B>,
        extensions: Extensions,
    ) -> (r: Self)
        ensures
            r.spec_method() == method,
            r.spec_url() == url,
            r.spec_headers() == headers@,
            r.spec_body() == body,
            r.spec_extensions() == extensions,
    {
        Request { method, url, headers, body, extensions }
    }
}

impl<B> RequestBuilder<B> {
    /// The method.
    pub closed spec fn spec_method(&self) -> Method {
        self.method
    }

    /// The URL.
    pub closed spec fn spec_url(&self) -> url::Url {
        self.url
    }

    /// The headers.
    pub closed spec fn spec_headers(&self) -> Seq<Pair> {
        self.headers@
    }

    /// The body.
    pub closed spec fn spec_body(&self) -> Option<B> {
        self.body
    }

    /// The data that travels with the request.
    pub closed spec fn spec_extensions(&self) -> Extensions {
        self.extensions
    }

    /// True when `self` is `before` but for its headers.
    pub open spec fn same_but_headers(&self, before: &Self) -> bool {
        &&& self.spec_method() == before.spec_method()
        &&& self.spec_url() == before.spec_url()
        &&& self.spec_body() == before.spec_body()
        &&& self.spec_extensions() == before.spec_extensions()
    }

    /// True when `self` is `before` but for its URL.
    pub open spec fn same_but_url(&self, before: &Self) -> bool {
        &&& self.spec_method() == before.spec_method()
        &&& self.spec_headers() == before.spec_headers()
        &&& self.spec_body() == before.spec_body()
        &&& self.spec_extensions() == before.spec_extensions()
    }

    /// Creates a new builder.
    #[must_use]
    pub fn new(method: Method, url: url::Url) -> (r: Self)
        ensures
            r.spec_method() == method,
            r.spec_url() == url,
            r.spec_headers() == Seq::<Pair>::empty(),
            r.spec_body() is None,
            r.spec_extensions().path_template is None,
            r.spec_extensions().parameters is None,
    {
        RequestBuilder {
            method,
            url,
            headers: Headers::new(),
            body: None,
            extensions: Extensions::new(),
        }
    }

    /// Sets a header; an earlier header of that name is replaced.
    #[must_use]
    pub fn header(self, name: &str, value: &str) -> (r: Self)
        ensures
            r.spec_headers() == inserted(self.spec_headers(), name@, value@),
            r.same_but_headers(&self),
    {
        let mut headers = self.headers;
        headers.insert(name.to_owned(), value.to_owned());
        RequestBuilder {
            method: self.method,
            url: self.url,
            headers,
            body: self.body,
            extensions: self.extensions,
        }
    }

    /// Sets multiple headers, one after the other.
    #[must_use]
    pub fn headers(self, headers: &Vec<(String, String)>) -> (r: Self)
        ensures
            r.spec_headers() == extended(self.spec_headers(), pairs_of(headers@)),
            r.same_but_headers(&self),
    {
        let mut all = self.headers;
        all.extend(headers);
        RequestBuilder {
            method: self.method,
            url: self.url,
            headers: all,
            body: self.body,
            extensions: self.extensions,
        }
    }

    /// Appends a query parameter to the URL.
    #[must_use]
    pub fn query(self, name: &str, value: &str) -> (r: Self)
        requires
            pair_fits(self.spec_url(), name@, value@),
        ensures
            r.spec_url() == url_pair_appended(self.spec_url(), name@, value@),
            r.same_but_url(&self),
    {
        let mut url = self.url;
        append_query_pair(&mut url, name, value);
        RequestBuilder {
            method: self.method,
            url,
            headers: self.headers,
            body: self.body,
            extensions: self.extensions,
        }
    }

    /// Appends a query parameter to the URL, unless the URL would grow too
    /// long: then the builder comes back unchanged, as the error.
    pub fn try_query(self, name: &str, value: &str) -> (r: Result<Self, Self>)
        ensures
            pair_fits(self.spec_url(), name@, value@) ==> (r matches Ok(b) && b.spec_url()
                == url_pair_appended(self.spec_url(), name@, value@) && b.same_but_url(&self)),
            !pair_fits(self.spec_url(), name@, value@) ==> r == Err::<Self, Self>(self),
    {
        if fits(&self.url, name, value) {
            Ok(self.query(name, value))
        } else {
            Err(self)
        }
    }

    /// Appends multiple query parameters to the URL. A pair that does not fit
    /// is an invalid request.
    pub fn query_pairs(self, pairs: &Vec<(String, String)>) -> (r: Result<Self, Error>)
        ensures
            match with_pairs(self.spec_url(), pair_texts(pairs@)) {
                Some(v) => r matches Ok(b) && b.spec_url() == v && b.same_but_url(&self),
                None => r matches Err(Error::InvalidRequest(m)) && m@ == too_long_message(),
            },
    {
        match append_pairs_to(self.url, pairs) {
            Ok(url) => Ok(
                RequestBuilder {
                    method: self.method,
                    url,
                    headers: self.headers,
                    body: self.body,
                    extensions: self.extensions,
                },
            ),
            Err(e) => Err(e),
        }
    }

    /// Sets the request body.
    #[must_use]
    pub fn body(self, body: B) -> (r: Self)
        ensures
            r.spec_body() == Some(body),
            r.spec_method() == self.spec_method(),
            r.spec_url() == self.spec_url(),
            r.spec_headers() == self.spec_headers(),
            r.spec_extensions() == self.spec_extensions(),
    {
        RequestBuilder {
            method: self.method,
            url: self.url,
            headers: self.headers,
            body: Some(body),
            extensions: self.extensions,
        }
    }

    /// Attaches the path template that the request is built from.
    #[must_use]
    pub fn path_template(self, template: PathTemplate) -> (r: Self)
        ensures
            r.spec_extensions().path_template == Some(template),
            r.spec_extensions().parameters == self.spec_extensions().parameters,
            r.spec_method() == self.spec_method(),
            r.spec_url() == self.spec_url(),
            r.spec_headers() == self.spec_headers(),
            r.spec_body() == self.spec_body(),
    {
        RequestBuilder {
            method: self.method,
            url: self.url,
            headers: self.headers,
            body: self.body,
            extensions: Extensions {
                path_template: Some(template),
                parameters: self.extensions.parameters,
            },
        }
    }

    /// Attaches the metadata of the call.
    #[must_use]
    pub fn parameters(self, metadata: ParameterMetadata) -> (r: Self)
        ensures
            r.spec_extensions().parameters == Some(metadata),
            r.spec_extensions().path_template == self.spec_extensions().path_template,
            r.spec_method() == self.spec_method(),
            r.spec_url() == self.spec_url(),
            r.spec_headers() == self.spec_headers(),
            r.spec_body() == self.spec_body(),
    {
        RequestBuilder {
            method: self.method,
            url: self.url,
            headers: self.headers,
            body: self.body,
            extensions: Extensions {
                path_template: self.extensions.path_template,
                parameters: Some(metadata),
            },
        }
    }

    /// Replaces the data that travels with the request.
    #[must_use]
    pub fn extensions(self, extensions: Extensions) -> (r: Self)
        ensures
            r.spec_extensions() == extensions,
            r.spec_method() == self.spec_method(),
            r.spec_url() == self.spec_url(),
            r.spec_headers() == self.spec_headers(),
            r.spec_body() == self.spec_body(),
    {
        RequestBuilder {
            method: self.method,
            url: self.url,
            headers: self.headers,
            body: self.body,
            extensions,
        }
    }

    /// Builds the [`Request`].
    #[must_use]
    pub fn build(self) -> (r: Request<B>)
        ensures
            r.spec_method() == self.spec_method(),
            r.spec_url() == self.spec_url(),
            r.spec_headers() == self.spec_headers(),
            r.spec_body() == self.spec_body(),
            r.spec_extensions() == self.spec_extensions(),
    {
        Request {
            method: self.method,
            url: self.url,
            headers: self.headers,
            body: self.body,
            extensions: self.extensions,
        }
    }
}

impl Clone for Request<bytes::Bytes> {
    fn clone(&self) -> (r: Self)
        ensures
            r.spec_method() == self.spec_method(),
            r.spec_url() == self.spec_url(),
            r.spec_headers() == self.spec_headers(),
            r.spec_body() == self.spec_body(),
            carried(r.spec_extensions()) == carried(self.spec_extensions()),
    {
        Request {
            method: self.method,
            url: self.url.clone(),
            headers: self.headers.clone(),
            body: match &self.body {
                Some(b) => Some(b.clone()),
                None => None,
            },
            extensions: self.extensions.clone(),
        }
    }
}

/// The name of the header that tells the type of the body.
pub open spec fn content_type_name() -> Seq<char> {
    "Content-Type"@
}

impl RequestBuilder<bytes::Bytes> {
    /// Sets a JSON body: the given document, with its content type.
    #[must_use]
    pub fn json(self, document: bytes::Bytes) -> (r: Self)
        ensures
            r.spec_body() == Some(document),
            r.spec_headers() == inserted(
                self.spec_headers(),
                content_type_name(),
                "application/json"@,
            ),
            r.spec_method() == self.spec_method(),
            r.spec_url() == self.spec_url(),
            r.spec_extensions() == self.spec_extensions(),
    {
        self.header("Content-Type", "application/json").body(document)
    }

    /// Sets a form-urlencoded body from name/value pairs, with its content
    /// type. Where the encoder refuses the pairs, its message is the error.
    pub fn form(self, pairs: &Vec<(String, String)>) -> (r: Result<Self, Error>)
        ensures
            match form_encoded(pair_texts(pairs@)) {
                Ok(text) => r matches Ok(b) && b.spec_body() matches Some(body)
                    && crate::specs::buffers::bytes_of(body) == encode_utf8(text)
                    && b.spec_headers() == inserted(
                    self.spec_headers(),
                    content_type_name(),
                    "application/x-www-form-urlencoded"@,
                ) && b.spec_method() == self.spec_method() && b.spec_url() == self.spec_url()
                    && b.spec_extensions() == self.spec_extensions(),
                Err(message) => r matches Err(Error::QuerySerialization(m)) && m@ == message,
            },
    {
        match to_form(pairs) {
            Ok(body) => Ok(
                self.header("Content-Type", "application/x-www-form-urlencoded").body(body),
            ),
            Err(e) => Err(e),
        }
    }
}

} // verus!

//! Binding: how the endpoints of an interface get a transport and a base URL.
//!
//! There are three modes. A *full* binding is a client that owns its transport
//! and base URL and is made by a builder. A *wrapper* binding is a client that
//! is generic over the transport it wraps. An *impl-only* binding defines no
//! client: the endpoints are offered on every value that gives a base URL.
//! All three build the same requests from the same plans.

use vstd::prelude::*;
use crate::assemble::{build_request, delivers, request_for, Argument};
use crate::attrs::{HttpMethod, MethodAttrs, PincerMode};
use crate::config::ClientConfigBuilder;
use crate::error::{CompilationError, Error};
use crate::headers::Pair;
use crate::plan::{compilable, compile_endpoint, compiles, EndpointDeclaration, RequestPlan};
use crate::request::Request;
use crate::specs::urls::url_parsed;
use crate::text::{from_chars, pair_texts, to_chars, uppercase_of};

verus! {

/// The user agent of a client that declares none.
pub const DEFAULT_USER_AGENT: &'static str = "pincer/0.1.0";

/// The arguments of an interface declaration.
#[derive(Debug)]
pub struct PincerArgs {
    /// The base URL.
    pub url: Option<String>,
    /// The user agent.
    pub user_agent: Option<String>,
    /// The binding mode.
    pub mode: PincerMode,
}

impl Default for PincerArgs {
    fn default() -> (r: Self)
        ensures
            r.url is None,
            r.user_agent is None,
            r.mode == PincerMode::Full,
    {
        PincerArgs { url: None, user_agent: None, mode: PincerMode::Full }
    }
}

impl PincerArgs {
    /// The user agent: the declared one, or the library's.
    pub open spec fn agent(&self) -> Seq<char> {
        match self.user_agent {
            Some(agent) => agent@,
            None => DEFAULT_USER_AGENT@,
        }
    }

    /// Get the user agent, defaulting to the library's.
    #[must_use]
    pub fn user_agent(&self) -> (r: &str)
        ensures
            r@ == self.agent(),
    {
        match &self.user_agent {
            Some(agent) => agent.as_str(),
            None => DEFAULT_USER_AGENT,
        }
    }

    /// Checks the arguments: a base URL is required but in the impl-only mode.
    pub fn check(&self) -> (r: Result<(), CompilationError>)
        ensures
            self.url is None && self.mode != PincerMode::ImplOnly ==> r matches Err(
                CompilationError::MissingUrl,
            ),
            !(self.url is None && self.mode != PincerMode::ImplOnly) ==> r is Ok,
    {
        match (&self.url, self.mode) {
            (None, PincerMode::Full) => Err(CompilationError::MissingUrl),
            (None, PincerMode::Wrapper) => Err(CompilationError::MissingUrl),
            _ => Ok(()),
        }
    }

    /// The arguments with the mode of the given name; an unknown name is
    /// refused.
    pub fn with_mode_named(self, mode: &str) -> (r: Result<Self, CompilationError>)
        ensures
            match PincerMode::named(crate::text::lowercase_of(mode@)) {
                Some(m) => r matches Ok(args) && args.mode == m && args.url == self.url
                    && args.user_agent == self.user_agent,
                None => r matches Err(CompilationError::UnknownMode(name)) && name@ == mode@,
            },
    {
        match PincerMode::parse(mode) {
            Some(m) => Ok(PincerArgs { url: self.url, user_agent: self.user_agent, mode: m }),
            None => Err(CompilationError::UnknownMode(mode.to_owned())),
        }
    }
}

/// The position of the first space at or after `i`, or the text's length.
pub open spec fn first_space(s: Seq<char>, i: int) -> int
    decreases s.len() - i,
{
    if i < 0 || i >= s.len() {
        s.len() as int
    } else if s[i] == ' ' {
        i
    } else {
        first_space(s, i + 1)
    }
}

/// True when `r` is what a verb specification `METHOD /path` denotes: the
/// text before the first space names the method, whatever the case of its
/// letters, and the text behind it is the path template.
pub open spec fn reads_method_spec(r: Result<MethodAttrs, CompilationError>, spec: Seq<char>)
    -> bool {
    let at = first_space(spec, 0);
    if at >= spec.len() {
        r matches Err(CompilationError::InvalidMethodSpec(s)) && s@ == spec
    } else {
        let verb = spec.subrange(0, at);
        match HttpMethod::named(uppercase_of(verb)) {
            Some(m) => r matches Ok(attrs) && attrs.method == m && attrs.path@ == spec.subrange(
                at + 1,
                spec.len() as int,
            ),
            None => r matches Err(CompilationError::UnsupportedMethod(s)) && s@ == verb,
        }
    }
}

/// Reads a verb specification of the form `METHOD /path`, such as
/// `GET /users/{id}`.
pub fn parse_method_spec(spec: &str) -> (r: Result<MethodAttrs, CompilationError>)
    ensures
        reads_method_spec(r, spec@),
{
    let v = to_chars(spec);
    let mut at: usize = 0;
    while at < v.len() && v[at] != ' '
        invariant
            at <= v.len(),
            v@ == spec@,
            first_space(spec@, 0) == first_space(spec@, at as int),
        decreases v.len() - at,
    {
        at += 1;
    }
    if at >= v.len() {
        return Err(CompilationError::InvalidMethodSpec(spec.to_owned()));
    }
    let mut verb: Vec<char> = Vec::new();
    let mut i: usize = 0;
    while i < at
        invariant
            i <= at <= v.len(),
            verb@ == v@.subrange(0, i as int),
        decreases at - i,
    {
        verb.push(v[i]);
        i += 1;
    }
    let mut path: Vec<char> = Vec::new();
    let mut k: usize = at + 1;
    while k < v.len()
        invariant
            at + 1 <= k <= v.len(),
            path@ == v@.subrange(at + 1, k as int),
        decreases v.len() - k,
    {
        path.push(v[k]);
        k += 1;
    }
    let verb_text = from_chars(&verb);
    match HttpMethod::parse(verb_text.as_str()) {
        Some(m) => Ok(MethodAttrs::new(m, from_chars(&path))),
        None => Err(CompilationError::UnsupportedMethod(verb_text)),
    }
}

/// A value that knows the base URL against which paths are resolved. The
/// transport itself, which sends a request and waits for the response, lives
/// outside this library.
pub trait PincerClient {
    /// Get the base URL for this client.
    fn base_url(&self) -> &url::Url;
}

/// Generic API client wrapper: any transport with a base URL.
#[derive(Debug)]
pub struct ApiClient<C> {
    client: C,
    base_url: url::Url,
}

impl<C> ApiClient<C> {
    /// The wrapped transport.
    pub closed spec fn spec_inner(&self) -> C {
        self.client
    }

    /// The base URL.
    pub closed spec fn spec_url(&self) -> url::Url {
        self.base_url
    }

    /// Create a new API client with the given base URL, which is parsed.
    pub fn new(client: C, base_url: &str) -> (r: Result<Self, Error>)
        ensures
            match url_parsed(base_url@) {
                Ok(u) => r matches Ok(c) && c.spec_url() == u && c.spec_inner() == client,
                Err(e) => r matches Err(Error::InvalidUrl(x)) && x == e,
            },
    {
        match url::Url::parse(base_url) {
            Ok(u) => Ok(ApiClient { client, base_url: u }),
            Err(e) => Err(Error::InvalidUrl(e)),
        }
    }

    /// Create a new API client with a pre-parsed URL.
    #[must_use]
    pub fn with_url(client: C, base_url: url::Url) -> (r: Self)
        ensures
            r.spec_url() == base_url,
            r.spec_inner() == client,
    {
        ApiClient { client, base_url }
    }

    /// Get a reference to the inner transport.
    #[must_use]
    pub fn inner(&self) -> (r: &C)
        ensures
            *r == self.spec_inner(),
    {
        &self.client
    }

    /// Get a mutable reference to the inner transport.
    #[must_use]
    pub fn inner_mut(&mut self) -> (r: &mut C)
        ensures
            *r == old(self).spec_inner(),
            final(self).spec_inner() == *final(r),
            final(self).spec_url() == old(self).spec_url(),
    {
        &mut self.client
    }

    /// Consume the wrapper and return the inner transport.
    #[must_use]
    pub fn into_inner(self) -> (r: C)
        ensures
            r == self.spec_inner(),
    {
        self.client
    }
}

impl<C: Clone> Clone for ApiClient<C> {
    fn clone(&self) -> (r: Self)
        ensures
            r.spec_url() == self.spec_url(),
    {
        ApiClient { client: self.client.clone(), base_url: self.base_url.clone() }
    }
}

impl<C> PincerClient for ApiClient<C> {
    fn base_url(&self) -> (r: &url::Url)
        ensures
            *r == self.spec_url(),
    {
        &self.base_url
    }
}

/// Builder of a full binding: a client under the base URL that the interface
/// declares, unless another one is set.
#[derive(Debug)]
pub struct ClientBuilder<C> {
    /// The base URL that the interface declares.
    pub default_url: String,
    /// The base URL to use in its place, if one is set.
    pub base_url: Option<String>,
    /// The transport to use, if one is set.
    pub client: Option<C>,
    /// The configuration for a transport that is made by default.
    pub config: ClientConfigBuilder,
}

impl<C> ClientBuilder<C> {
    /// The base URL that the builder will use.
    pub open spec fn chosen_url(&self) -> Seq<char> {
        match self.base_url {
            Some(u) => u@,
            None => self.default_url@,
        }
    }

    /// A builder for the interface's declared base URL.
    #[must_use]
    pub fn new(default_url: &str) -> (r: Self)
        ensures
            r.default_url@ == default_url@,
            r.base_url is None,
            r.client is None,
    {
        ClientBuilder {
            default_url: default_url.to_owned(),
            base_url: None,
            client: None,
            config: ClientConfigBuilder::default(),
        }
    }

    /// Set a custom base URL.
    #[must_use]
    pub fn base_url(self, url: &str) -> (r: Self)
        ensures
            r.base_url is Some && r.base_url.unwrap()@ == url@,
            r.default_url == self.default_url,
            r.client == self.client,
            r.config == self.config,
    {
        ClientBuilder {
            default_url: self.default_url,
            base_url: Some(url.to_owned()),
            client: self.client,
            config: self.config,
        }
    }

    /// Set a custom transport.
    #[must_use]
    pub fn client(self, client: C) -> (r: Self)
        ensures
            r.client == Some(client),
            r.default_url == self.default_url,
            r.base_url == self.base_url,
            r.config == self.config,
    {
        ClientBuilder {
            default_url: self.default_url,
            base_url: self.base_url,
            client: Some(client),
            config: self.config,
        }
    }

    /// Set the configuration for a transport that is made by default.
    #[must_use]
    pub fn configure_client(self, config: ClientConfigBuilder) -> (r: Self)
        ensures
            r.config == config,
            r.default_url == self.default_url,
            r.base_url == self.base_url,
            r.client == self.client,
    {
        ClientBuilder {
            default_url: self.default_url,
            base_url: self.base_url,
            client: self.client,
            config,
        }
    }

    /// Build the client. The base URL that was set, or else the declared one,
    /// is parsed. The transport that was set is used, or else `fallback`.
    pub fn build(self, fallback: C) -> (r: Result<ApiClient<C>, Error>)
        ensures
            match url_parsed(self.chosen_url()) {
                Ok(u) => r matches Ok(c) && c.spec_url() == u && c.spec_inner() == (
                match self.client {
                    Some(x) => x,
                    None => fallback,
                }),
                Err(e) => r matches Err(Error::InvalidUrl(x)) && x == e,
            },
    {
        let url = match self.base_url {
            Some(u) => u,
            None => self.default_url,
        };
        let client = match self.client {
            Some(c) => c,
            None => fallback,
        };
        ApiClient::new(client, url.as_str())
    }
}

/// Makes a wrapper binding under the base URL that the interface declares;
/// `None` where the declared URL does not parse.
pub fn wrap_client<C>(client: C, declared_url: &str) -> (r: Option<ApiClient<C>>)
    ensures
        match url_parsed(declared_url@) {
            Ok(u) => r matches Some(c) && c.spec_url() == u && c.spec_inner() == client,
            Err(_) => r is None,
        },
{
    match url::Url::parse(declared_url) {
        Ok(u) => Some(ApiClient::with_url(client, u)),
        Err(_) => None,
    }
}

/// Builds the request of a call on any value that gives a base URL: the
/// request is the one that the plan gives under a base URL that the value
/// returned.
pub fn prepare_call<T: PincerClient>(
    client: &T,
    plan: &RequestPlan,
    args: &Vec<Argument>,
    boundary: &str,
) -> (r: Result<Request<bytes::Bytes>, Error>)
    ensures
        exists|base: &url::Url|
            call_ensures(T::base_url, (client,), base) && delivers(
                r,
                request_for(*plan, *base, args@, boundary@),
            ),
{
    build_request(plan, client.base_url(), args, boundary)
}

/// True when `plans` holds the plan of each of the first `n` declarations.
pub open spec fn compiled_upto(
    plans: Seq<RequestPlan>,
    decls: Seq<EndpointDeclaration>,
    user_agent: Seq<char>,
    declared: Seq<Pair>,
    n: int,
) -> bool {
    plans.len() == n && forall|i: int|
        #![trigger plans[i]]
        #![trigger decls[i]]
        0 <= i < n ==> compilable(decls[i]) && compiles(
            Ok::<RequestPlan, CompilationError>(plans[i]),
            decls[i],
            user_agent,
            declared,
        )
}

/// True when the first `n` declarations compile and the next one fails with
/// the error.
pub open spec fn fails_at(
    e: CompilationError,
    decls: Seq<EndpointDeclaration>,
    user_agent: Seq<char>,
    declared: Seq<Pair>,
    n: int,
) -> bool {
    &&& 0 <= n < decls.len()
    &&& forall|j: int| 0 <= j < n ==> compilable(#[trigger] decls[j])
    &&& !compilable(decls[n])
    &&& compiles(Err::<RequestPlan, CompilationError>(e), decls[n], user_agent, declared)
}

/// True when `r` is what compiling an interface owes.
pub open spec fn compiles_interface(
    r: Result<Vec<RequestPlan>, CompilationError>,
    args: PincerArgs,
    declared: Seq<Pair>,
    decls: Seq<EndpointDeclaration>,
) -> bool {
    let agent = args.agent();
    if args.url is None && args.mode != PincerMode::ImplOnly {
        r matches Err(CompilationError::MissingUrl)
    } else {
        match r {
            Ok(plans) => compiled_upto(plans@, decls, agent, declared, decls.len() as int),
            Err(e) => exists|n: int| fails_at(e, decls, agent, declared, n),
        }
    }
}

/// Compiles the endpoints of an interface. The arguments of the interface are
/// checked first. Either every endpoint has its plan, in declaration order, or
/// the fault of the first endpoint that does not compile is the result and no
/// plan is usable.
pub fn compile_interface(
    args: &PincerArgs,
    declared: &Vec<(String, String)>,
    decls: &Vec<EndpointDeclaration>,
) -> (r: Result<Vec<RequestPlan>, CompilationError>)
    ensures
        compiles_interface(r, *args, pair_texts(declared@), decls@),
{
    match args.check() {
        Ok(_) => {},
        Err(e) => {
            return Err(e);
        },
    }
    let user_agent = args.user_agent();
    let mut plans: Vec<RequestPlan> = Vec::new();
    let mut i: usize = 0;
    while i < decls.len()
        invariant
            i <= decls.len(),
            !(args.url is None && args.mode != PincerMode::ImplOnly),
            user_agent@ == args.agent(),
            compiled_upto(plans@, decls@, user_agent@, pair_texts(declared@), i as int),
        decreases decls.len() - i,
    {
        match compile_endpoint(&decls[i], user_agent, declared) {
            Ok(plan) => {
                let ghost before = plans@;
                plans.push(plan);
                proof {
                    assert forall|k: int| 0 <= k < i + 1 implies compilable(decls@[k])
                        && compiles(
                        Ok::<RequestPlan, CompilationError>(plans@[k]),
                        decls@[k],
                        user_agent@,
                        pair_texts(declared@),
                    ) by {
                        if k < i {
                            assert(plans@[k] == before[k]);
                        }
                    }
                }
            },
            Err(e) => {
                proof {
                    assert(fails_at(e, decls@, user_agent@, pair_texts(declared@), i as int));
                }
                return Err(e);
            },
        }
        i += 1;
    }
    Ok(plans)
}

} // verus!

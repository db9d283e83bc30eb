//! The vocabulary of an endpoint declaration: verbs, parameter roles and the
//! options that go with them.

use vstd::prelude::*;
use std::time::Duration;
use crate::error::CompilationError;
use crate::method::Method;
use crate::specs::clock::duration_nanos;
use crate::text::{
    from_chars, lowercase_of, parse_u64, parsed_u64, to_chars, trim_text, trimmed,
    uppercase_of,
};

verus! {

/// HTTP method of a declared endpoint.
#[derive(Debug, Clone, Copy, PartialEq, Eq, Structural)]
pub enum HttpMethod {
    Get,
    Post,
    Put,
    Delete,
    Patch,
    Head,
    Options,
}

impl HttpMethod {
    /// The method's name as an identifier: the first letter in upper case.
    pub open spec fn ident(self) -> Seq<char> {
        match self {
            HttpMethod::Get => "Get"@,
            HttpMethod::Post => "Post"@,
            HttpMethod::Put => "Put"@,
            HttpMethod::Delete => "Delete"@,
            HttpMethod::Patch => "Patch"@,
            HttpMethod::Head => "Head"@,
            HttpMethod::Options => "Options"@,
        }
    }

    /// The method that an upper-case name denotes.
    pub open spec fn named(upper: Seq<char>) -> Option<HttpMethod> {
        if upper == "GET"@ {
            Some(HttpMethod::Get)
        } else if upper == "POST"@ {
            Some(HttpMethod::Post)
        } else if upper == "PUT"@ {
            Some(HttpMethod::Put)
        } else if upper == "DELETE"@ {
            Some(HttpMethod::Delete)
        } else if upper == "PATCH"@ {
            Some(HttpMethod::Patch)
        } else if upper == "HEAD"@ {
            Some(HttpMethod::Head)
        } else if upper == "OPTIONS"@ {
            Some(HttpMethod::Options)
        } else {
            None
        }
    }

    /// True for the methods that carry a request body.
    pub open spec fn has_body(self) -> bool {
        self is Post || self is Put || self is Patch
    }

    /// The request method that this declared method stands for.
    pub open spec fn method(self) -> Method {
        match self {
            HttpMethod::Get => Method::Get,
            HttpMethod::Post => Method::Post,
            HttpMethod::Put => Method::Put,
            HttpMethod::Delete => Method::Delete,
            HttpMethod::Patch => Method::Patch,
            HttpMethod::Head => Method::Head,
            HttpMethod::Options => Method::Options,
        }
    }

    /// Get the method name as an identifier.
    #[must_use]
    pub fn as_str(self) -> (r: &'static str)
        ensures
            r@ == self.ident(),
    {
        match self {
            HttpMethod::Get => "Get",
            HttpMethod::Post => "Post",
            HttpMethod::Put => "Put",
            HttpMethod::Delete => "Delete",
            HttpMethod::Patch => "Patch",
            HttpMethod::Head => "Head",
            HttpMethod::Options => "Options",
        }
    }

    /// The method with the given upper-case name, `None` for any other text.
    #[must_use]
    pub fn from_upper(upper: &str) -> (r: Option<Self>)
        ensures
            r == Self::named(upper@),
    {
        if upper.eq("GET") {
            Some(HttpMethod::Get)
        } else if upper.eq("POST") {
            Some(HttpMethod::Post)
        } else if upper.eq("PUT") {
            Some(HttpMethod::Put)
        } else if upper.eq("DELETE") {
            Some(HttpMethod::Delete)
        } else if upper.eq("PATCH") {
            Some(HttpMethod::Patch)
        } else if upper.eq("HEAD") {
            Some(HttpMethod::Head)
        } else if upper.eq("OPTIONS") {
            Some(HttpMethod::Options)
        } else {
            None
        }
    }

    /// Parse an HTTP method from a string, whatever the case of its letters.
    /// Returns `None` for unsupported methods.
    #[must_use]
    pub fn parse(s: &str) -> (r: Option<Self>)
        ensures
            r == Self::named(uppercase_of(s@)),
    {
        let upper = s.to_uppercase();
        Self::from_upper(upper.as_str())
    }

    /// Returns true if this HTTP method typically has a request body.
    #[must_use]
    pub fn supports_body(self) -> (r: bool)
        ensures
            r == self.has_body(),
    {
        match self {
            HttpMethod::Post | HttpMethod::Put | HttpMethod::Patch => true,
            _ => false,
        }
    }

    /// The request method that this declared method stands for.
    #[must_use]
    pub fn to_method(self) -> (r: Method)
        ensures
            r == self.method(),
    {
        match self {
            HttpMethod::Get => Method::Get,
            HttpMethod::Post => Method::Post,
            HttpMethod::Put => Method::Put,
            HttpMethod::Delete => Method::Delete,
            HttpMethod::Patch => Method::Patch,
            HttpMethod::Head => Method::Head,
            HttpMethod::Options => Method::Options,
        }
    }
}

/// How a compiled set of endpoints is attached to a transport.
#[derive(Debug, Clone, Copy, PartialEq, Eq, Structural)]
pub enum PincerMode {
    /// A concrete client that owns a transport and a base URL, made by a builder.
    Full,
    /// A client that is generic over any transport.
    Wrapper,
    /// No client type: the endpoints are offered on every transport.
    ImplOnly,
}

impl Default for PincerMode {
    fn default() -> (r: Self)
        ensures
            r == PincerMode::Full,
    {
        PincerMode::Full
    }
}

impl PincerMode {
    /// The mode that a lower-case name denotes.
    pub open spec fn named(lower: Seq<char>) -> Option<PincerMode> {
        if lower == "full"@ {
            Some(PincerMode::Full)
        } else if lower == "wrapper"@ {
            Some(PincerMode::Wrapper)
        } else if lower == "impl_only"@ || lower == "implonly"@ || lower == "impl-only"@ {
            Some(PincerMode::ImplOnly)
        } else {
            None
        }
    }

    /// The mode with the given lower-case name, `None` for any other text.
    #[must_use]
    pub fn from_lower(lower: &str) -> (r: Option<Self>)
        ensures
            r == Self::named(lower@),
    {
        if lower.eq("full") {
            Some(PincerMode::Full)
        } else if lower.eq("wrapper") {
            Some(PincerMode::Wrapper)
        } else if lower.eq("impl_only") || lower.eq("implonly") || lower.eq("impl-only") {
            Some(PincerMode::ImplOnly)
        } else {
            None
        }
    }

    /// Parse a mode from a string, whatever the case of its letters.
    #[must_use]
    pub fn parse(s: &str) -> (r: Option<Self>)
        ensures
            r == Self::named(lowercase_of(s@)),
    {
        let lower = s.to_lowercase();
        Self::from_lower(lower.as_str())
    }
}

/// The verb and path template of an endpoint.
#[derive(Debug)]
pub struct MethodAttrs {
    /// The HTTP method.
    pub method: HttpMethod,
    /// The path template (e.g., "/users/{id}").
    pub path: String,
}

impl MethodAttrs {
    /// Puts a method and a path template together.
    pub fn new(method: HttpMethod, path: String) -> (r: Self)
        ensures
            r.method == method,
            r.path == path,
    {
        MethodAttrs { method, path }
    }
}

/// Collection format for serializing list-valued query parameters.
#[derive(Debug, Clone, Copy, PartialEq, Eq, Structural)]
pub enum CollectionFormat {
    /// Repeated parameters: `?tags=a&tags=b&tags=c` (default)
    Multi,
    /// Comma-separated: `?tags=a,b,c`
    Csv,
    /// Space-separated: `?tags=a%20b%20c`
    Ssv,
    /// Pipe-separated: `?tags=a|b|c`
    Pipes,
}

impl Default for CollectionFormat {
    fn default() -> (r: Self)
        ensures
            r == CollectionFormat::Multi,
    {
        CollectionFormat::Multi
    }
}

impl CollectionFormat {
    /// The text that stands between the items of one joined value; `Multi` has none.
    pub open spec fn sep(self) -> Option<Seq<char>> {
        match self {
            CollectionFormat::Multi => None,
            CollectionFormat::Csv => Some(","@),
            CollectionFormat::Ssv => Some(" "@),
            CollectionFormat::Pipes => Some("|"@),
        }
    }

    /// The format that a lower-case name denotes, `None` for an unknown name.
    pub open spec fn named(lower: Seq<char>) -> Option<CollectionFormat> {
        if lower == "csv"@ || lower == "comma"@ {
            Some(CollectionFormat::Csv)
        } else if lower == "ssv"@ || lower == "space"@ {
            Some(CollectionFormat::Ssv)
        } else if lower == "pipes"@ || lower == "pipe"@ {
            Some(CollectionFormat::Pipes)
        } else if lower == "multi"@ {
            Some(CollectionFormat::Multi)
        } else {
            None
        }
    }

    /// Get the separator string for this format.
    ///
    /// Returns `None` for `Multi` format (uses repeated parameters).
    #[must_use]
    pub fn separator(self) -> (r: Option<&'static str>)
        ensures
            r is Some == self.sep() is Some,
            r is Some ==> r.unwrap()@ == self.sep().unwrap(),
    {
        match self {
            CollectionFormat::Multi => None,
            CollectionFormat::Csv => Some(","),
            CollectionFormat::Ssv => Some(" "),
            CollectionFormat::Pipes => Some("|"),
        }
    }

    /// The format with the given lower-case name, `None` for an unknown name.
    #[must_use]
    pub fn from_lower(lower: &str) -> (r: Option<Self>)
        ensures
            r == Self::named(lower@),
    {
        if lower.eq("csv") || lower.eq("comma") {
            Some(CollectionFormat::Csv)
        } else if lower.eq("ssv") || lower.eq("space") {
            Some(CollectionFormat::Ssv)
        } else if lower.eq("pipes") || lower.eq("pipe") {
            Some(CollectionFormat::Pipes)
        } else if lower.eq("multi") {
            Some(CollectionFormat::Multi)
        } else {
            None
        }
    }

    /// Parse a format name, whatever the case of its letters; `None` for an
    /// unknown name.
    #[must_use]
    pub fn parse(s: &str) -> (r: Option<Self>)
        ensures
            r == Self::named(lowercase_of(s@)),
    {
        let lower = s.to_lowercase();
        Self::from_lower(lower.as_str())
    }
}

/// Parse a collection format name, whatever the case of its letters. An
/// unknown name is a compilation error that carries the name as written.
pub fn parse_collection_format(s: &str) -> (r: Result<CollectionFormat, CompilationError>)
    ensures
        match CollectionFormat::named(lowercase_of(s@)) {
            Some(f) => r == Ok::<CollectionFormat, CompilationError>(f),
            None => r matches Err(CompilationError::UnknownCollectionFormat(name)) && name@
                == s@,
        },
{
    match CollectionFormat::parse(s) {
        Some(f) => Ok(f),
        None => Err(CompilationError::UnknownCollectionFormat(s.to_owned())),
    }
}

/// Query parameter options.
#[derive(Debug, PartialEq, Eq)]
pub struct QueryOptions {
    /// Optional alias for the query parameter name.
    pub alias: Option<String>,
    /// Collection format for list-valued parameters.
    pub format: CollectionFormat,
}

impl Default for QueryOptions {
    fn default() -> (r: Self)
        ensures
            r.alias is None,
            r.format == CollectionFormat::Multi,
    {
        QueryOptions { alias: None, format: CollectionFormat::Multi }
    }
}

/// Multipart parameter options.
#[derive(Debug, PartialEq, Eq)]
pub struct MultipartOptions {
    /// Optional field name override.
    pub name: Option<String>,
}

impl Default for MultipartOptions {
    fn default() -> (r: Self)
        ensures
            r.name is None,
    {
        MultipartOptions { name: None }
    }
}

/// The role of a parameter: where its value goes in the request.
#[derive(Debug, PartialEq, Eq)]
pub enum ParamKind {
    /// Path parameter, with an optional placeholder name.
    Path(Option<String>),
    /// Query parameter.
    Query(QueryOptions),
    /// Header parameter with the header's name.
    Header(String),
    /// A bag of headers given at call time.
    Headers,
    /// JSON body.
    Body,
    /// Form body.
    Form,
    /// Multipart form part.
    Multipart(MultipartOptions),
}

fn clone_name(name: &Option<String>) -> (r: Option<String>)
    ensures
        r == *name,
{
    match name {
        Some(s) => Some(s.clone()),
        None => None,
    }
}

impl Clone for QueryOptions {
    fn clone(&self) -> (r: Self)
        ensures
            r == *self,
    {
        QueryOptions { alias: clone_name(&self.alias), format: self.format }
    }
}

impl Clone for MultipartOptions {
    fn clone(&self) -> (r: Self)
        ensures
            r == *self,
    {
        MultipartOptions { name: clone_name(&self.name) }
    }
}

impl Clone for ParamKind {
    fn clone(&self) -> (r: Self)
        ensures
            r == *self,
    {
        match self {
            ParamKind::Path(alias) => ParamKind::Path(clone_name(alias)),
            ParamKind::Query(options) => ParamKind::Query(options.clone()),
            ParamKind::Header(name) => ParamKind::Header(name.clone()),
            ParamKind::Headers => ParamKind::Headers,
            ParamKind::Body => ParamKind::Body,
            ParamKind::Form => ParamKind::Form,
            ParamKind::Multipart(options) => ParamKind::Multipart(options.clone()),
        }
    }
}

/// Endpoint-level options.
#[derive(Debug)]
pub struct MethodOptions {
    /// Treat a 404 response as an absent value instead of an error.
    pub not_found_as_none: bool,
    /// Per-endpoint timeout, which overrides the client's.
    pub timeout: Option<Duration>,
}

impl Clone for MethodOptions {
    fn clone(&self) -> (r: Self)
        ensures
            r == *self,
    {
        MethodOptions {
            not_found_as_none: self.not_found_as_none,
            timeout: match &self.timeout {
                Some(d) => Some(d.clone()),
                None => None,
            },
        }
    }
}

impl Default for MethodOptions {
    fn default() -> (r: Self)
        ensures
            !r.not_found_as_none,
            r.timeout is None,
    {
        MethodOptions { not_found_as_none: false, timeout: None }
    }
}

/// The length in nanoseconds that a trimmed duration text asks for:
/// digits followed by `ms`, `s` or `m`. A text that ends in `s` is never read
/// as minutes, and a number of minutes whose seconds pass `u64::MAX` is refused.
pub open spec fn duration_request(t: Seq<char>) -> Option<nat> {
    if t.len() > 0 && t.last() == 's' {
        let secs = t.drop_last();
        if secs.len() > 0 && secs.last() == 'm' {
            match parsed_u64(secs.drop_last()) {
                Some(ms) => Some((ms * 1_000_000) as nat),
                None => None,
            }
        } else {
            match parsed_u64(secs) {
                Some(n) => Some((n * 1_000_000_000) as nat),
                None => None,
            }
        }
    } else if t.len() > 0 && t.last() == 'm' {
        match parsed_u64(t.drop_last()) {
            Some(mins) => if mins * 60 <= u64::MAX {
                Some((mins * 60 * 1_000_000_000) as nat)
            } else {
                None
            },
            None => None,
        }
    } else {
        None
    }
}

/// True when `r` is the duration that `want` asks for, or none where it asks for none.
pub open spec fn is_duration(r: Option<Duration>, want: Option<nat>) -> bool {
    match want {
        Some(n) => r is Some && duration_nanos(r.unwrap()) == n,
        None => r is None,
    }
}

fn without_last(v: &Vec<char>) -> (r: String)
    requires
        v.len() > 0,
    ensures
        r@ == v@.drop_last(),
{
    let mut head: Vec<char> = Vec::new();
    let mut i: usize = 0;
    while i + 1 < v.len()
        invariant
            i + 1 <= v.len(),
            head@ == v@.take(i as int),
        decreases v.len() - i,
    {
        head.push(v[i]);
        i += 1;
    }
    proof {
        assert(v@.take(v.len() - 1) == v@.drop_last());
    }
    from_chars(&head)
}

/// Reads a duration such as `30s`, `1m` or `500ms` from a text without
/// surrounding white space.
#[must_use]
pub fn duration_from_text(t: &str) -> (r: Option<Duration>)
    ensures
        is_duration(r, duration_request(t@)),
{
    let v = to_chars(t);
    let n = v.len();
    if n > 0 && v[n - 1] == 's' {
        let secs = without_last(&v);
        let sv = to_chars(secs.as_str());
        if sv.len() > 0 && sv[sv.len() - 1] == 'm' {
            let millis = without_last(&sv);
            match parse_u64(millis.as_str()) {
                Some(ms) => Some(Duration::from_millis(ms)),
                None => None,
            }
        } else {
            match parse_u64(secs.as_str()) {
                Some(s) => Some(Duration::from_secs(s)),
                None => None,
            }
        }
    } else if n > 0 && v[n - 1] == 'm' {
        let mins = without_last(&v);
        match parse_u64(mins.as_str()) {
            Some(m) => match m.checked_mul(60) {
                Some(secs) => Some(Duration::from_secs(secs)),
                None => None,
            },
            None => None,
        }
    } else {
        None
    }
}

/// Parse a duration string like "30s", "1m", "500ms"; white space around it is
/// ignored.
#[must_use]
pub fn parse_duration_string(s: &str) -> (r: Option<Duration>)
    ensures
        is_duration(r, duration_request(trimmed(s@))),
{
    duration_from_text(trim_text(s).as_str())
}

/// The position of the first `}` at or after `i`, or the text's length where none follows.
pub open spec fn closing_brace(s: Seq<char>, i: int) -> int
    decreases s.len() - i,
{
    if i >= s.len() {
        s.len() as int
    } else if s[i] == '}' {
        i
    } else {
        closing_brace(s, i + 1)
    }
}

/// The placeholder names of a path template from position `i` on. A name runs
/// from behind a `{` up to the next `}` (or to the end of the text); empty names
/// are left out.
pub open spec fn placeholders_from(s: Seq<char>, i: int) -> Seq<Seq<char>>
    decreases s.len() - i,
{
    if i >= s.len() || i < 0 {
        Seq::empty()
    } else if s[i] == '{' {
        let j = closing_brace(s, i + 1);
        let name = if i < j <= s.len() {
            s.subrange(i + 1, j)
        } else {
            Seq::empty()
        };
        let rest = if i < j < s.len() {
            placeholders_from(s, j + 1)
        } else {
            Seq::empty()
        };
        if name.len() > 0 {
            seq![name] + rest
        } else {
            rest
        }
    } else {
        placeholders_from(s, i + 1)
    }
}

/// The placeholder names of a path template, in the order in which they stand.
pub open spec fn placeholders_of(s: Seq<char>) -> Seq<Seq<char>> {
    placeholders_from(s, 0)
}

/// The closing brace that is looked for from `i` stands at `i` or behind it,
/// and within the text.
pub proof fn lemma_closing_brace_bounds(s: Seq<char>, i: int)
    requires
        0 <= i <= s.len(),
    ensures
        i <= closing_brace(s, i) <= s.len(),
        closing_brace(s, i) < s.len() ==> s[closing_brace(s, i)] == '}',
        forall|k: int| i <= k < closing_brace(s, i) ==> s[k] != '}',
    decreases s.len() - i,
{
    if i < s.len() && s[i] != '}' {
        lemma_closing_brace_bounds(s, i + 1);
    }
}

/// Extract placeholder names from a URL path template.
///
/// E.g., `/users/{id}/posts/{post_id}` returns `["id", "post_id"]`
#[must_use]
pub fn extract_path_placeholders(path: &str) -> (r: Vec<String>)
    ensures
        crate::text::texts(r@) == placeholders_of(path@),
{
    let s = to_chars(path);
    let mut out: Vec<String> = Vec::new();
    let mut i: usize = 0;
    while i < s.len()
        invariant
            i <= s.len(),
            s@ == path@,
            crate::text::texts(out@) + placeholders_from(path@, i as int) == placeholders_of(
                path@,
            ),
        decreases s.len() - i,
    {
        if s[i] == '{' {
            let mut name: Vec<char> = Vec::new();
            let mut j: usize = i + 1;
            while j < s.len() && s[j] != '}'
                invariant
                    i + 1 <= j <= s.len(),
                    s@ == path@,
                    name@ == s@.subrange(i + 1, j as int),
                    closing_brace(s@, j as int) == closing_brace(s@, i + 1),
                decreases s.len() - j,
            {
                name.push(s[j]);
                j += 1;
            }
            proof {
                lemma_closing_brace_bounds(s@, j as int);
                assert(closing_brace(s@, i + 1) == j);
            }
            let ghost rest = if j < s.len() {
                placeholders_from(path@, j + 1)
            } else {
                Seq::<Seq<char>>::empty()
            };
            if name.len() > 0 {
                let text = from_chars(&name);
                proof {
                    let t = crate::text::texts(out@);
                    assert(crate::text::texts(out@.push(text)) == t.push(name@));
                    assert(t + (seq![name@] + rest) == t.push(name@) + rest);
                }
                out.push(text);
            }
            i = if j < s.len() { j + 1 } else { j };
        } else {
            i += 1;
        }
    }
    proof {
        assert(crate::text::texts(out@) + Seq::<Seq<char>>::empty() == crate::text::texts(out@));
    }
    out
}

} // verus!

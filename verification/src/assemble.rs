//! Request assembly: a plan and the argument values of a call give a request.
//!
//! The arguments are first resolved against the roles of the parameters, in
//! the order of the plan; the first argument that is missing or has the wrong
//! shape for its role stops the work. The request is then put together from
//! what was resolved: the URL, the headers, the body.

use vstd::prelude::*;
use vstd::utf8::encode_utf8;
use crate::attrs::ParamKind;
use crate::classify::MethodParam;
use crate::error::{prefixed, Error};
use crate::headers::{extended, inserted, lemma_extend_from_empty, pairs_of, Pair};
use crate::method::Method;
use crate::multipart::{form_bytes, part_views, Form, Part, PartView};
use crate::param_meta::ParameterMetadataView;
use crate::path::{build_path, substituted};
use crate::path_template::PathTemplate;
use crate::plan::RequestPlan;
use crate::query::{
    append_pairs, record_pairs, serialize_value, value_pairs, FieldValue, QueryRecord,
    ToQueryPairs,
};
use crate::request::{
    append_pairs_to, too_long_message, with_pairs, Request, RequestBuilder,
};
use crate::specs::buffers::bytes_of;
use crate::body::to_form;
use crate::specs::codecs::form_encoded;
use crate::specs::urls::{open_query, url_joined, url_len, url_query_opened};
use crate::text::{decimal_of, decimal_string, pair_texts};

verus! {

/// The value of an argument, with everything in it already rendered as text
/// or as bytes.
#[derive(Debug)]
pub enum ArgValue {
    /// A scalar, an optional value or a list.
    Value(FieldValue),
    /// A structured record.
    Record(QueryRecord),
    /// A bag of headers.
    HeaderBag(Vec<(String, String)>),
    /// A JSON document.
    Json(bytes::Bytes),
    /// One part of a multipart form.
    Part(Part),
    /// A list of parts of a multipart form.
    Parts(Vec<Part>),
}

/// An argument of a call: the name of the parameter and its value.
#[derive(Debug)]
pub struct Argument {
    /// The parameter's name.
    pub name: String,
    /// The value.
    pub value: ArgValue,
}

/// Why no request can be made.
pub enum Fault {
    /// The argument of this name is missing.
    Missing(Seq<char>),
    /// The argument of this name has the wrong shape for the parameter's role.
    Shape(Seq<char>),
    /// The path cannot be resolved against the base URL.
    Url(url::ParseError),
    /// The URL would pass 4 GiB.
    TooLong,
    /// The form encoder refused the pairs, with this message.
    Encoding(Seq<char>),
}

/// The message for a missing argument.
pub open spec fn missing_message(name: Seq<char>) -> Seq<char> {
    "missing argument: "@ + name
}

/// The message for an argument of the wrong shape.
pub open spec fn shape_message(name: Seq<char>) -> Seq<char> {
    "argument does not fit the role of its parameter: "@ + name
}

/// True when the error reports the fault.
pub open spec fn reports_fault(e: Error, fault: Fault) -> bool {
    match fault {
        Fault::Missing(name) => e matches Error::InvalidRequest(m) && m@ == missing_message(
            name,
        ),
        Fault::Shape(name) => e matches Error::InvalidRequest(m) && m@ == shape_message(name),
        Fault::Url(p) => e matches Error::InvalidUrl(q) && q == p,
        Fault::TooLong => e matches Error::InvalidRequest(m) && m@ == too_long_message(),
        Fault::Encoding(message) => e matches Error::QuerySerialization(m) && m@ == message,
    }
}

/// What an argument comes to under the role of its parameter, in contracts.
pub enum ResolvedView {
    /// A placeholder's name and the value for it.
    Path(Pair),
    /// Query pairs.
    Query(Seq<Pair>),
    /// One header.
    Header(Pair),
    /// Headers from a bag.
    HeaderBag(Seq<Pair>),
    /// A JSON document for the body.
    Json(bytes::Bytes),
    /// The pairs of a form body.
    Form(Seq<Pair>),
    /// Parts of a multipart body, under their final names.
    Parts(Seq<PartView>),
}

/// What an argument comes to under the role of its parameter.
#[derive(Debug)]
pub enum Resolved {
    /// A placeholder's name and the value for it.
    Path(String, String),
    /// Query pairs.
    Query(Vec<(String, String)>),
    /// One header.
    Header(String, String),
    /// Headers from a bag.
    HeaderBag(Vec<(String, String)>),
    /// A JSON document for the body.
    Json(bytes::Bytes),
    /// The pairs of a form body.
    Form(Vec<(String, String)>),
    /// Parts of a multipart body, under their final names.
    Parts(Vec<Part>),
}

impl View for Resolved {
    type V = ResolvedView;

    open spec fn view(&self) -> ResolvedView {
        match *self {
            Resolved::Path(k, v) => ResolvedView::Path((k@, v@)),
            Resolved::Query(pairs) => ResolvedView::Query(pair_texts(pairs@)),
            Resolved::Header(k, v) => ResolvedView::Header((k@, v@)),
            Resolved::HeaderBag(pairs) => ResolvedView::HeaderBag(pair_texts(pairs@)),
            Resolved::Json(b) => ResolvedView::Json(b),
            Resolved::Form(pairs) => ResolvedView::Form(pair_texts(pairs@)),
            Resolved::Parts(parts) => ResolvedView::Parts(part_views(parts@)),
        }
    }
}

/// The views of a sequence of resolved arguments.
pub open spec fn resolved_views(rs: Seq<Resolved>) -> Seq<ResolvedView> {
    Seq::new(rs.len(), |i: int| rs[i]@)
}

/// The value of the first argument with the given name.
pub open spec fn arg_of(args: Seq<Argument>, name: Seq<char>) -> Option<ArgValue>
    decreases args.len(),
{
    if args.len() == 0 {
        None
    } else if args[0].name@ == name {
        Some(args[0].value)
    } else {
        arg_of(args.drop_first(), name)
    }
}

/// The text of an alias, or the name where there is no alias.
pub open spec fn alias_or(alias: Option<String>, name: Seq<char>) -> Seq<char> {
    match alias {
        Some(a) => a@,
        None => name,
    }
}

/// A part under a new name. Its data and file name stay; a part without a
/// content type gets `application/octet-stream`.
pub open spec fn renamed(part: PartView, name: Seq<char>) -> PartView {
    PartView {
        name,
        filename: part.filename,
        content_type: Some(
            match part.content_type {
                Some(t) => t,
                None => "application/octet-stream"@,
            },
        ),
        data: part.data,
    }
}

/// The name of the `i`-th part of a list: `field[i]`.
pub open spec fn indexed_name(field: Seq<char>, i: nat) -> Seq<char> {
    field + "["@ + decimal_of(i) + "]"@
}

/// The parts of a list under their names `field[0]`, `field[1]`, and so on.
pub open spec fn indexed(parts: Seq<PartView>, field: Seq<char>) -> Seq<PartView> {
    Seq::new(parts.len(), |i: int| renamed(parts[i], indexed_name(field, i as nat)))
}

/// What a value comes to under a role; `None` where the value has not the
/// shape that the role takes.
pub open spec fn resolved_as(p: MethodParam, value: ArgValue) -> Option<ResolvedView> {
    match (p.kind, value) {
        (ParamKind::Path(alias), ArgValue::Value(FieldValue::Scalar(v))) => Some(
            ResolvedView::Path((alias_or(alias, p.name@), v@)),
        ),
        (ParamKind::Query(options), ArgValue::Value(v)) => Some(
            ResolvedView::Query(value_pairs(alias_or(options.alias, p.name@), v, options.format)),
        ),
        (ParamKind::Query(_), ArgValue::Record(record)) => Some(
            ResolvedView::Query(record_pairs(record)),
        ),
        (ParamKind::Header(name), ArgValue::Value(FieldValue::Scalar(v))) => Some(
            ResolvedView::Header((name@, v@)),
        ),
        (ParamKind::Headers, ArgValue::HeaderBag(pairs)) => Some(
            ResolvedView::HeaderBag(pair_texts(pairs@)),
        ),
        (ParamKind::Body, ArgValue::Json(document)) => Some(ResolvedView::Json(document)),
        (ParamKind::Form, ArgValue::Record(record)) => Some(
            ResolvedView::Form(record_pairs(record)),
        ),
        (ParamKind::Multipart(options), ArgValue::Part(part)) => Some(
            ResolvedView::Parts(seq![renamed(part@, alias_or(options.name, p.name@))]),
        ),
        (ParamKind::Multipart(options), ArgValue::Parts(parts)) => Some(
            ResolvedView::Parts(indexed(part_views(parts@), alias_or(options.name, p.name@))),
        ),
        _ => None,
    }
}

/// What the argument of a parameter comes to, or the fault.
pub open spec fn resolution_of(p: MethodParam, args: Seq<Argument>) -> Result<
    ResolvedView,
    Fault,
> {
    match arg_of(args, p.name@) {
        None => Err(Fault::Missing(p.name@)),
        Some(value) => match resolved_as(p, value) {
            Some(r) => Ok(r),
            None => Err(Fault::Shape(p.name@)),
        },
    }
}

/// What the arguments of the first `n` parameters come to, or the first fault.
pub open spec fn resolution_upto(params: Seq<MethodParam>, args: Seq<Argument>, n: int) -> Result<
    Seq<ResolvedView>,
    Fault,
>
    decreases n,
{
    if n <= 0 {
        Ok(Seq::empty())
    } else {
        match resolution_upto(params, args, n - 1) {
            Err(f) => Err(f),
            Ok(done) => match resolution_of(params[n - 1], args) {
                Err(f) => Err(f),
                Ok(r) => Ok(done.push(r)),
            },
        }
    }
}

/// What the arguments come to, parameter by parameter, or the first fault.
pub open spec fn resolution(params: Seq<MethodParam>, args: Seq<Argument>) -> Result<
    Seq<ResolvedView>,
    Fault,
> {
    resolution_upto(params, args, params.len() as int)
}

/// The placeholder pairs among the first `n` resolved arguments.
pub open spec fn path_pairs(rs: Seq<ResolvedView>, n: int) -> Seq<Pair>
    decreases n,
{
    if n <= 0 {
        Seq::empty()
    } else {
        match rs[n - 1] {
            ResolvedView::Path(pair) => path_pairs(rs, n - 1).push(pair),
            _ => path_pairs(rs, n - 1),
        }
    }
}

/// The query pairs among the first `n` resolved arguments.
pub open spec fn query_pairs(rs: Seq<ResolvedView>, n: int) -> Seq<Pair>
    decreases n,
{
    if n <= 0 {
        Seq::empty()
    } else {
        match rs[n - 1] {
            ResolvedView::Query(pairs) => query_pairs(rs, n - 1) + pairs,
            _ => query_pairs(rs, n - 1),
        }
    }
}

/// True when one of the first `n` resolved arguments belongs to the query.
pub open spec fn has_query(rs: Seq<ResolvedView>, n: int) -> bool
    decreases n,
{
    if n <= 0 {
        false
    } else {
        rs[n - 1] is Query || has_query(rs, n - 1)
    }
}

/// The single headers among the first `n` resolved arguments.
pub open spec fn single_headers(rs: Seq<ResolvedView>, n: int) -> Seq<Pair>
    decreases n,
{
    if n <= 0 {
        Seq::empty()
    } else {
        match rs[n - 1] {
            ResolvedView::Header(pair) => single_headers(rs, n - 1).push(pair),
            _ => single_headers(rs, n - 1),
        }
    }
}

/// The headers of the bags among the first `n` resolved arguments.
pub open spec fn bag_headers(rs: Seq<ResolvedView>, n: int) -> Seq<Pair>
    decreases n,
{
    if n <= 0 {
        Seq::empty()
    } else {
        match rs[n - 1] {
            ResolvedView::HeaderBag(pairs) => bag_headers(rs, n - 1) + pairs,
            _ => bag_headers(rs, n - 1),
        }
    }
}

/// The parts among the first `n` resolved arguments.
pub open spec fn all_parts(rs: Seq<ResolvedView>, n: int) -> Seq<PartView>
    decreases n,
{
    if n <= 0 {
        Seq::empty()
    } else {
        match rs[n - 1] {
            ResolvedView::Parts(parts) => all_parts(rs, n - 1) + parts,
            _ => all_parts(rs, n - 1),
        }
    }
}

/// True when one of the first `n` resolved arguments holds parts.
pub open spec fn has_parts(rs: Seq<ResolvedView>, n: int) -> bool
    decreases n,
{
    if n <= 0 {
        false
    } else {
        rs[n - 1] is Parts || has_parts(rs, n - 1)
    }
}

/// The position of the first resolved argument from `i` on that holds the
/// body as one value, or the length where there is none.
pub open spec fn whole_body_at(rs: Seq<ResolvedView>, i: int) -> int
    decreases rs.len() - i,
{
    if i < 0 || i >= rs.len() {
        rs.len() as int
    } else if rs[i] is Json || rs[i] is Form {
        i
    } else {
        whole_body_at(rs, i + 1)
    }
}

/// The body of a request in contracts: the header that tells its type, and
/// its bytes.
pub struct BodyView {
    /// The name of the content type header as it is set.
    pub header: Seq<char>,
    /// The content type.
    pub content_type: Seq<char>,
    /// The bytes of the body.
    pub bytes: Seq<u8>,
}

/// The body that the resolved arguments give. Parts make a multipart form
/// under the given boundary and come before anything else; else the first
/// argument that holds the body as one value is taken; else there is no body.
pub open spec fn body_of(rs: Seq<ResolvedView>, boundary: Seq<char>) -> Result<
    Option<BodyView>,
    Fault,
> {
    if has_parts(rs, rs.len() as int) {
        Ok(
            Some(
                BodyView {
                    header: "content-type"@,
                    content_type: "multipart/form-data; boundary="@ + boundary,
                    bytes: form_bytes(boundary, all_parts(rs, rs.len() as int)),
                },
            ),
        )
    } else {
        let at = whole_body_at(rs, 0);
        if at < 0 || at >= rs.len() {
            Ok(None)
        } else {
            match rs[at] {
                ResolvedView::Json(document) => Ok(
                    Some(
                        BodyView {
                            header: "Content-Type"@,
                            content_type: "application/json"@,
                            bytes: bytes_of(document),
                        },
                    ),
                ),
                ResolvedView::Form(pairs) => match form_encoded(pairs) {
                    Ok(text) => Ok(
                        Some(
                            BodyView {
                                header: "Content-Type"@,
                                content_type: "application/x-www-form-urlencoded"@,
                                bytes: encode_utf8(text),
                            },
                        ),
                    ),
                    Err(message) => Err(Fault::Encoding(message)),
                },
                _ => Ok(None),
            }
        }
    }
}

/// The URL that the resolved arguments give: the template with its
/// placeholders filled, resolved against the base, and then, where a
/// parameter belongs to the query, the query pairs appended in order.
pub open spec fn url_of(base: url::Url, template: Seq<char>, rs: Seq<ResolvedView>) -> Result<
    url::Url,
    Fault,
> {
    let n = rs.len() as int;
    match url_joined(base, substituted(template, path_pairs(rs, n))) {
        Err(e) => Err(Fault::Url(e)),
        Ok(u) => if !has_query(rs, n) {
            Ok(u)
        } else if url_len(u) >= 0xFFFF_FFFF {
            Err(Fault::TooLong)
        } else {
            match with_pairs(url_query_opened(u), query_pairs(rs, n)) {
                Some(v) => Ok(v),
                None => Err(Fault::TooLong),
            }
        },
    }
}

/// The headers that the resolved arguments give on top of the fixed ones:
/// first the single headers, then the headers of the bags.
pub open spec fn headers_of(fixed: Seq<Pair>, rs: Seq<ResolvedView>) -> Seq<Pair> {
    let n = rs.len() as int;
    extended(extended(fixed, single_headers(rs, n)), bag_headers(rs, n))
}

/// A request in contracts.
pub struct RequestView {
    /// The method.
    pub method: Method,
    /// The URL.
    pub url: url::Url,
    /// The headers.
    pub headers: Seq<Pair>,
    /// The bytes of the body, if there is one.
    pub body: Option<Seq<u8>>,
    /// The path template that travels with the request.
    pub template: Option<Seq<char>>,
    /// The metadata that travels with the request.
    pub metadata: Option<ParameterMetadataView>,
}

/// The view of a request.
pub open spec fn request_view(r: Request<bytes::Bytes>) -> RequestView {
    RequestView {
        method: r.spec_method(),
        url: r.spec_url(),
        headers: r.spec_headers(),
        body: match r.spec_body() {
            Some(b) => Some(bytes_of(b)),
            None => None,
        },
        template: match r.spec_extensions().path_template {
            Some(t) => Some(t@),
            None => None,
        },
        metadata: match r.spec_extensions().parameters {
            Some(m) => Some(m@),
            None => None,
        },
    }
}

/// The request that a plan gives for resolved arguments, or the fault: the
/// URL first, then the body. The content type of the body is the last header
/// to be set.
pub open spec fn assembled(
    plan: RequestPlan,
    base: url::Url,
    rs: Seq<ResolvedView>,
    boundary: Seq<char>,
) -> Result<RequestView, Fault> {
    match url_of(base, plan.path_template@, rs) {
        Err(f) => Err(f),
        Ok(url) => match body_of(rs, boundary) {
            Err(f) => Err(f),
            Ok(body) => Ok(
                RequestView {
                    method: plan.method.method(),
                    url,
                    headers: match body {
                        Some(b) => inserted(
                            headers_of(plan.headers@, rs),
                            b.header,
                            b.content_type,
                        ),
                        None => headers_of(plan.headers@, rs),
                    },
                    body: match body {
                        Some(b) => Some(b.bytes),
                        None => None,
                    },
                    template: Some(plan.path_template@),
                    metadata: Some(plan.metadata@),
                },
            ),
        },
    }
}

/// The request that a plan gives for the arguments of a call, or the fault.
pub open spec fn request_for(
    plan: RequestPlan,
    base: url::Url,
    args: Seq<Argument>,
    boundary: Seq<char>,
) -> Result<RequestView, Fault> {
    match resolution(plan.params@, args) {
        Err(f) => Err(f),
        Ok(rs) => assembled(plan, base, rs, boundary),
    }
}

/// True when `r` is the request, or reports the fault, that `want` says.
pub open spec fn delivers(r: Result<Request<bytes::Bytes>, Error>, want: Result<
    RequestView,
    Fault,
>) -> bool {
    match want {
        Ok(v) => r matches Ok(request) && request_view(request) == v,
        Err(f) => r matches Err(e) && reports_fault(e, f),
    }
}

/// The value of the first argument with the given name.
pub fn find_argument<'a>(args: &'a Vec<Argument>, name: &str) -> (r: Option<&'a ArgValue>)
    ensures
        match arg_of(args@, name@) {
            Some(v) => r is Some && *r.unwrap() == v,
            None => r is None,
        },
{
    let mut i: usize = 0;
    proof {
        assert(args@.skip(0) == args@);
    }
    while i < args.len()
        invariant
            i <= args.len(),
            arg_of(args@, name@) == arg_of(args@.skip(i as int), name@),
        decreases args.len() - i,
    {
        proof {
            let rest = args@.skip(i as int);
            assert(rest[0] == args@[i as int]);
            assert(rest.drop_first() == args@.skip(i + 1));
        }
        if args[i].name.as_str().eq(name) {
            return Some(&args[i].value);
        }
        i += 1;
    }
    None
}

fn copy_pairs(pairs: &Vec<(String, String)>) -> (r: Vec<(String, String)>)
    ensures
        pair_texts(r@) == pair_texts(pairs@),
{
    let mut out: Vec<(String, String)> = Vec::new();
    let mut i: usize = 0;
    while i < pairs.len()
        invariant
            i <= pairs.len(),
            pair_texts(out@) == pair_texts(pairs@).take(i as int),
        decreases pairs.len() - i,
    {
        let pair = (pairs[i].0.clone(), pairs[i].1.clone());
        proof {
            assert(pair_texts(out@.push(pair)) == pair_texts(out@).push((pair.0@, pair.1@)));
        }
        out.push(pair);
        i += 1;
    }
    proof {
        assert(pair_texts(pairs@).take(pairs.len() as int) == pair_texts(pairs@));
    }
    out
}

/// A part under a new name.
pub fn rename_part(part: &Part, name: &str) -> (r: Part)
    ensures
        r@ == renamed(part@, name@),
{
    let content_type = match part.content_type() {
        Some(t) => t,
        None => "application/octet-stream",
    };
    let named = Part::new(name, part.data().clone()).with_content_type(content_type);
    match part.filename() {
        Some(filename) => named.with_filename(filename),
        None => named,
    }
}

/// The name of the `i`-th part of a list.
pub fn index_name(field: &str, i: usize) -> (r: String)
    ensures
        r@ == indexed_name(field@, i as nat),
{
    let mut out = field.to_owned();
    out.append("[");
    out.append(decimal_string(i as u64).as_str());
    out.append("]");
    out
}

/// The parts of a list under their names `field[0]`, `field[1]`, and so on.
pub fn rename_parts(parts: &Vec<Part>, field: &str) -> (r: Vec<Part>)
    ensures
        part_views(r@) == indexed(part_views(parts@), field@),
{
    let mut out: Vec<Part> = Vec::new();
    let ghost want = indexed(part_views(parts@), field@);
    let mut i: usize = 0;
    while i < parts.len()
        invariant
            i <= parts.len(),
            want == indexed(part_views(parts@), field@),
            part_views(out@) == want.take(i as int),
        decreases parts.len() - i,
    {
        let name = index_name(field, i);
        let part = rename_part(&parts[i], name.as_str());
        proof {
            assert(part_views(out@.push(part)) == part_views(out@).push(part@));
            assert(want.take(i + 1) == want.take(i as int).push(want[i as int]));
        }
        out.push(part);
        i += 1;
    }
    proof {
        assert(want.take(parts.len() as int) == want);
    }
    out
}

fn shape_error(name: &str) -> (r: Error)
    ensures
        reports_fault(r, Fault::Shape(name@)),
{
    Error::InvalidRequest(prefixed("argument does not fit the role of its parameter: ", name))
}

/// Resolves the argument of one parameter.
pub fn resolve_argument(p: &MethodParam, args: &Vec<Argument>) -> (r: Result<Resolved, Error>)
    ensures
        match resolution_of(*p, args@) {
            Ok(v) => r matches Ok(x) && x@ == v,
            Err(f) => r matches Err(e) && reports_fault(e, f),
        },
{
    let name = p.name.as_str();
    let value = match find_argument(args, name) {
        Some(v) => v,
        None => {
            return Err(Error::InvalidRequest(prefixed("missing argument: ", name)));
        },
    };
    match &p.kind {
        ParamKind::Path(alias) => match value {
            ArgValue::Value(FieldValue::Scalar(v)) => {
                let key = match alias {
                    Some(a) => a.clone(),
                    None => p.name.clone(),
                };
                Ok(Resolved::Path(key, v.clone()))
            },
            _ => Err(shape_error(name)),
        },
        ParamKind::Query(options) => match value {
            ArgValue::Value(v) => {
                let key = match &options.alias {
                    Some(a) => a.clone(),
                    None => p.name.clone(),
                };
                Ok(Resolved::Query(serialize_value(key.as_str(), v, options.format)))
            },
            ArgValue::Record(record) => Ok(Resolved::Query(record.to_query_pairs())),
            _ => Err(shape_error(name)),
        },
        ParamKind::Header(header) => match value {
            ArgValue::Value(FieldValue::Scalar(v)) => Ok(
                Resolved::Header(header.clone(), v.clone()),
            ),
            _ => Err(shape_error(name)),
        },
        ParamKind::Headers => match value {
            ArgValue::HeaderBag(pairs) => Ok(Resolved::HeaderBag(copy_pairs(pairs))),
            _ => Err(shape_error(name)),
        },
        ParamKind::Body => match value {
            ArgValue::Json(document) => Ok(Resolved::Json(document.clone())),
            _ => Err(shape_error(name)),
        },
        ParamKind::Form => match value {
            ArgValue::Record(record) => Ok(Resolved::Form(record.to_query_pairs())),
            _ => Err(shape_error(name)),
        },
        ParamKind::Multipart(options) => {
            let field = match &options.name {
                Some(n) => n.clone(),
                None => p.name.clone(),
            };
            match value {
                ArgValue::Part(part) => {
                    let mut parts: Vec<Part> = Vec::new();
                    let named = rename_part(part, field.as_str());
                    parts.push(named);
                    proof {
                        assert(part_views(parts@) == seq![named@]);
                    }
                    Ok(Resolved::Parts(parts))
                },
                ArgValue::Parts(parts) => Ok(Resolved::Parts(rename_parts(parts, field.as_str()))),
                _ => Err(shape_error(name)),
            }
        },
    }
}

/// Resolves the arguments of a call against the parameters of a plan.
pub fn resolve_arguments(params: &Vec<MethodParam>, args: &Vec<Argument>) -> (r: Result<
    Vec<Resolved>,
    Error,
>)
    ensures
        match resolution(params@, args@) {
            Ok(v) => r matches Ok(x) && resolved_views(x@) == v,
            Err(f) => r matches Err(e) && reports_fault(e, f),
        },
{
    let mut out: Vec<Resolved> = Vec::new();
    let mut i: usize = 0;
    proof {
        assert(resolved_views(out@) == Seq::<ResolvedView>::empty());
    }
    while i < params.len()
        invariant
            i <= params.len(),
            resolution_upto(params@, args@, i as int) == Ok::<Seq<ResolvedView>, Fault>(
                resolved_views(out@),
            ),
        decreases params.len() - i,
    {
        match resolve_argument(&params[i], args) {
            Ok(x) => {
                proof {
                    assert(resolved_views(out@.push(x)) == resolved_views(out@).push(x@));
                }
                out.push(x);
            },
            Err(e) => {
                proof {
                    lemma_fault_stays(params@, args@, i + 1, params.len() as int);
                }
                return Err(e);
            },
        }
        i += 1;
    }
    Ok(out)
}

/// A fault among the first parameters is the fault of the whole list.
pub proof fn lemma_fault_stays(params: Seq<MethodParam>, args: Seq<Argument>, n: int, m: int)
    requires
        0 <= n <= m,
        resolution_upto(params, args, n) is Err,
    ensures
        resolution_upto(params, args, m) == resolution_upto(params, args, n),
    decreases m - n,
{
    if n < m {
        lemma_fault_stays(params, args, n, m - 1);
    }
}

fn collect_path_pairs(rs: &Vec<Resolved>) -> (r: Vec<(String, String)>)
    ensures
        pair_texts(r@) == path_pairs(resolved_views(rs@), rs@.len() as int),
{
    let mut out: Vec<(String, String)> = Vec::new();
    let ghost views = resolved_views(rs@);
    let mut i: usize = 0;
    while i < rs.len()
        invariant
            i <= rs.len(),
            views == resolved_views(rs@),
            pair_texts(out@) == path_pairs(views, i as int),
        decreases rs.len() - i,
    {
        match &rs[i] {
            Resolved::Path(k, v) => {
                let pair = (k.clone(), v.clone());
                proof {
                    assert(pair_texts(out@.push(pair)) == pair_texts(out@).push(
                        (pair.0@, pair.1@),
                    ));
                }
                out.push(pair);
            },
            _ => {},
        }
        i += 1;
    }
    out
}

fn collect_query_pairs(rs: &Vec<Resolved>) -> (r: (Vec<(String, String)>, bool))
    ensures
        pair_texts(r.0@) == query_pairs(resolved_views(rs@), rs@.len() as int),
        r.1 == has_query(resolved_views(rs@), rs@.len() as int),
{
    let mut out: Vec<(String, String)> = Vec::new();
    let mut any = false;
    let ghost views = resolved_views(rs@);
    let mut i: usize = 0;
    while i < rs.len()
        invariant
            i <= rs.len(),
            views == resolved_views(rs@),
            pair_texts(out@) == query_pairs(views, i as int),
            any == has_query(views, i as int),
        decreases rs.len() - i,
    {
        match &rs[i] {
            Resolved::Query(pairs) => {
                append_pairs(&mut out, copy_pairs(pairs));
                any = true;
            },
            _ => {},
        }
        i += 1;
    }
    (out, any)
}

fn collect_headers(rs: &Vec<Resolved>) -> (r: (Vec<(String, String)>, Vec<(String, String)>))
    ensures
        pair_texts(r.0@) == single_headers(resolved_views(rs@), rs@.len() as int),
        pair_texts(r.1@) == bag_headers(resolved_views(rs@), rs@.len() as int),
{
    let mut singles: Vec<(String, String)> = Vec::new();
    let mut bags: Vec<(String, String)> = Vec::new();
    let ghost views = resolved_views(rs@);
    let mut i: usize = 0;
    while i < rs.len()
        invariant
            i <= rs.len(),
            views == resolved_views(rs@),
            pair_texts(singles@) == single_headers(views, i as int),
            pair_texts(bags@) == bag_headers(views, i as int),
        decreases rs.len() - i,
    {
        match &rs[i] {
            Resolved::Header(k, v) => {
                let pair = (k.clone(), v.clone());
                proof {
                    assert(pair_texts(singles@.push(pair)) == pair_texts(singles@).push(
                        (pair.0@, pair.1@),
                    ));
                }
                singles.push(pair);
            },
            Resolved::HeaderBag(pairs) => {
                append_pairs(&mut bags, copy_pairs(pairs));
            },
            _ => {},
        }
        i += 1;
    }
    (singles, bags)
}

fn collect_parts(rs: &Vec<Resolved>, form: Form) -> (r: (Form, bool))
    ensures
        r.0@.boundary == form@.boundary,
        r.0@.parts == form@.parts + all_parts(resolved_views(rs@), rs@.len() as int),
        r.1 == has_parts(resolved_views(rs@), rs@.len() as int),
{
    let mut out = form;
    let mut any = false;
    let ghost views = resolved_views(rs@);
    let mut i: usize = 0;
    proof {
        assert(form@.parts + Seq::<PartView>::empty() == form@.parts);
    }
    while i < rs.len()
        invariant
            i <= rs.len(),
            views == resolved_views(rs@),
            out@.boundary == form@.boundary,
            out@.parts == form@.parts + all_parts(views, i as int),
            any == has_parts(views, i as int),
        decreases rs.len() - i,
    {
        match &rs[i] {
            Resolved::Parts(parts) => {
                let ghost before = out@.parts;
                let ghost more = part_views(parts@);
                let mut k: usize = 0;
                proof {
                    assert(before + more.take(0) == before);
                }
                while k < parts.len()
                    invariant
                        k <= parts.len(),
                        more == part_views(parts@),
                        out@.boundary == form@.boundary,
                        out@.parts == before + more.take(k as int),
                    decreases parts.len() - k,
                {
                    proof {
                        assert(more.take(k + 1) == more.take(k as int).push(parts@[k as int]@));
                        assert((before + more.take(k as int)).push(parts@[k as int]@) == before
                            + more.take(k as int).push(parts@[k as int]@));
                    }
                    out = out.part(parts[k].clone());
                    k += 1;
                }
                proof {
                    assert(more.take(parts.len() as int) == more);
                    assert((form@.parts + all_parts(views, i as int)) + more == form@.parts + (
                    all_parts(views, i as int) + more));
                }
                any = true;
            },
            _ => {},
        }
        i += 1;
    }
    (out, any)
}

/// The body in contracts of a body as made: the header's name, the content
/// type and the bytes.
pub open spec fn body_made(b: Option<(String, String, bytes::Bytes)>) -> Option<BodyView> {
    match b {
        Some((header, content_type, bytes)) => Some(
            BodyView { header: header@, content_type: content_type@, bytes: bytes_of(bytes) },
        ),
        None => None,
    }
}

/// Makes the body from the resolved arguments: the name of the content type
/// header, the content type and the bytes, or nothing where there is no body.
pub fn build_body(rs: &Vec<Resolved>, boundary: &str) -> (r: Result<
    Option<(String, String, bytes::Bytes)>,
    Error,
>)
    ensures
        match body_of(resolved_views(rs@), boundary@) {
            Ok(b) => r matches Ok(x) && body_made(x) == b,
            Err(f) => r matches Err(e) && reports_fault(e, f),
        },
{
    let ghost views = resolved_views(rs@);
    let (form, any) = collect_parts(rs, Form::with_boundary(boundary));
    if any {
        proof {
            assert(Seq::<PartView>::empty() + all_parts(views, rs@.len() as int) == all_parts(
                views,
                rs@.len() as int,
            ));
        }
        let (content_type, body) = form.into_body();
        return Ok(Some(("content-type".to_owned(), content_type, body)));
    }
    let mut i: usize = 0;
    while i < rs.len()
        invariant
            i <= rs.len(),
            views == resolved_views(rs@),
            !has_parts(views, rs@.len() as int),
            whole_body_at(views, 0) == whole_body_at(views, i as int),
        decreases rs.len() - i,
    {
        proof {
            assert(views[i as int] == rs@[i as int]@);
        }
        match &rs[i] {
            Resolved::Json(document) => {
                return Ok(
                    Some(
                        (
                            "Content-Type".to_owned(),
                            "application/json".to_owned(),
                            document.clone(),
                        ),
                    ),
                );
            },
            Resolved::Form(pairs) => {
                return match to_form(pairs) {
                    Ok(body) => Ok(
                        Some(
                            (
                                "Content-Type".to_owned(),
                                "application/x-www-form-urlencoded".to_owned(),
                                body,
                            ),
                        ),
                    ),
                    Err(e) => Err(e),
                };
            },
            _ => {},
        }
        i += 1;
    }
    Ok(None)
}

/// Makes the URL from the resolved arguments.
pub fn build_url(base: &url::Url, template: &str, rs: &Vec<Resolved>) -> (r: Result<
    url::Url,
    Error,
>)
    ensures
        match url_of(*base, template@, resolved_views(rs@)) {
            Ok(u) => r == Ok::<url::Url, Error>(u),
            Err(f) => r matches Err(e) && reports_fault(e, f),
        },
{
    let path = build_path(template, &collect_path_pairs(rs));
    let mut url = match base.join(path.as_str()) {
        Ok(u) => u,
        Err(e) => {
            return Err(Error::InvalidUrl(e));
        },
    };
    let (pairs, any) = collect_query_pairs(rs);
    if !any {
        return Ok(url);
    }
    if url.as_str().as_bytes().len() as u128 >= 0xFFFF_FFFF {
        return Err(Error::InvalidRequest("the URL is too long for its query".to_owned()));
    }
    open_query(&mut url);
    append_pairs_to(url, &pairs)
}

/// Builds the request of a call from resolved arguments.
pub fn assemble(plan: &RequestPlan, base: &url::Url, rs: &Vec<Resolved>, boundary: &str) -> (r:
    Result<Request<bytes::Bytes>, Error>)
    ensures
        delivers(r, assembled(*plan, *base, resolved_views(rs@), boundary@)),
{
    let url = match build_url(base, plan.path_template.as_str(), rs) {
        Ok(u) => u,
        Err(e) => {
            return Err(e);
        },
    };
    let body = match build_body(rs, boundary) {
        Ok(b) => b,
        Err(e) => {
            return Err(e);
        },
    };
    let (singles, bags) = collect_headers(rs);
    let fixed = plan.headers.entries();
    let builder: RequestBuilder<bytes::Bytes> = Request::builder(plan.method.to_method(), url);
    let builder = builder.headers(fixed).headers(&singles).headers(&bags);
    proof {
        lemma_extend_from_empty(plan.headers@);
        assert(pairs_of(fixed@) == plan.headers@);
        assert(pairs_of(singles@) == pair_texts(singles@));
        assert(pairs_of(bags@) == pair_texts(bags@));
    }
    let builder = match body {
        Some((header, content_type, bytes)) => builder.header(
            header.as_str(),
            content_type.as_str(),
        ).body(bytes),
        None => builder,
    };
    let request = builder.path_template(
        PathTemplate::new(plan.path_template.as_str()),
    ).parameters(plan.metadata.clone()).build();
    Ok(request)
}

/// Builds the request of a call with the given boundary for a multipart body.
pub fn build_request(
    plan: &RequestPlan,
    base: &url::Url,
    args: &Vec<Argument>,
    boundary: &str,
) -> (r: Result<Request<bytes::Bytes>, Error>)
    ensures
        delivers(r, request_for(*plan, *base, args@, boundary@)),
{
    match resolve_arguments(&plan.params, args) {
        Ok(rs) => assemble(plan, base, &rs, boundary),
        Err(e) => Err(e),
    }
}

/// Builds the request of a call; the boundary of a multipart body is made from
/// the system clock.
pub fn build_request_now(plan: &RequestPlan, base: &url::Url, args: &Vec<Argument>) -> (r:
    Result<Request<bytes::Bytes>, Error>)
    ensures
        exists|n: nat|
            delivers(r, request_for(*plan, *base, args@, crate::multipart::boundary_for(n))),
{
    let boundary = crate::multipart::generate_boundary();
    build_request(plan, base, args, boundary.as_str())
}

} // verus!

//! The endpoint compiler: from a declaration to a request plan.
//!
//! A plan is made once per endpoint and read on every call. Compilation either
//! gives a whole plan or fails with the first fault it finds: first the roles
//! of the parameters, then the placeholders of the path template, then the body.

use vstd::prelude::*;
use std::time::Duration;
use crate::attrs::{
    extract_path_placeholders, placeholders_of, HttpMethod, MethodOptions, ParamKind,
};
use crate::classify::{
    classification, parse_method_params, Classification, MethodParam, ParamDecl,
};
use crate::error::CompilationError;
use crate::headers::{inserted, Headers, Pair};
use crate::param_meta::{
    meta_views, ParamLocation, ParamMeta, ParamMetaView, ParameterMetadata,
    ParameterMetadataView,
};
use crate::text::{replace_char, replaced_char, texts};
use crate::types::{analyze_return_type, return_kind, is_option_type, ReturnTypeKind, TypeDesc};

verus! {

/// An endpoint as declared.
#[derive(Debug)]
pub struct EndpointDeclaration {
    /// The endpoint's name.
    pub name: String,
    /// The verb.
    pub method: HttpMethod,
    /// The path template.
    pub path: String,
    /// The parameters, in declaration order.
    pub params: Vec<ParamDecl>,
    /// The declared result type, if any.
    pub return_type: Option<TypeDesc>,
    /// The endpoint's options.
    pub options: MethodOptions,
}

/// How the body of a request is made.
#[derive(Debug, Clone, Copy, PartialEq, Eq, Structural)]
pub enum BodyStrategy {
    /// The request has no body.
    Empty,
    /// The body parameter, as a JSON document.
    Json,
    /// The form parameter, form-urlencoded.
    Form,
    /// The multipart parameters, as the parts of a multipart form.
    Multipart,
}

/// The compiled, reusable description of an endpoint.
#[derive(Debug)]
pub struct RequestPlan {
    /// The endpoint's name.
    pub method_name: String,
    /// The verb.
    pub method: HttpMethod,
    /// The path template.
    pub path_template: String,
    /// The parameters with their roles.
    pub params: Vec<MethodParam>,
    /// The headers that every request of the endpoint starts from.
    pub headers: Headers,
    /// How the body is made.
    pub body: BodyStrategy,
    /// How a response is turned into the result.
    pub return_kind: ReturnTypeKind,
    /// Whether a 404 response stands for an absent value.
    pub not_found_as_none: bool,
    /// The timeout of the endpoint, if it overrides the client's.
    pub timeout: Option<Duration>,
    /// The metadata that travels with every request of the endpoint.
    pub metadata: ParameterMetadata,
}

/// The placeholder that a path parameter fills: its alias, or its name.
pub open spec fn path_key(p: MethodParam) -> Option<Seq<char>> {
    match p.kind {
        ParamKind::Path(Some(alias)) => Some(alias@),
        ParamKind::Path(None) => Some(p.name@),
        _ => None,
    }
}

/// The number of path parameters among the first `n` that fill the placeholder.
pub open spec fn fillers(params: Seq<MethodParam>, name: Seq<char>, n: int) -> nat
    decreases n,
{
    if n <= 0 {
        0
    } else if path_key(params[n - 1]) == Some(name) {
        fillers(params, name, n - 1) + 1
    } else {
        fillers(params, name, n - 1)
    }
}

/// True when every one of the first `n` placeholders is filled by exactly one
/// path parameter.
pub open spec fn covered(params: Seq<MethodParam>, placeholders: Seq<Seq<char>>, n: int) -> bool {
    forall|i: int|
        0 <= i < n ==> fillers(params, #[trigger] placeholders[i], params.len() as int) == 1
}

/// True for the roles that hold the body as one value.
pub open spec fn holds_body(kind: ParamKind) -> bool {
    kind is Body || kind is Form
}

/// The names of those among the first `n` parameters that hold the body.
pub open spec fn body_names(params: Seq<MethodParam>, n: int) -> Seq<String>
    decreases n,
{
    if n <= 0 {
        Seq::empty()
    } else if holds_body(params[n - 1].kind) {
        body_names(params, n - 1).push(params[n - 1].name)
    } else {
        body_names(params, n - 1)
    }
}

/// True when one of the first `n` parameters is a multipart part.
pub open spec fn any_multipart(params: Seq<MethodParam>, n: int) -> bool {
    exists|i: int| 0 <= i < n && #[trigger] params[i].kind is Multipart
}

/// The strategy of the first of the parameters from `i` on that holds the
/// body: JSON for a body parameter, the form for a form parameter.
pub open spec fn first_body(params: Seq<MethodParam>, i: int) -> BodyStrategy
    decreases params.len() - i,
{
    if i < 0 || i >= params.len() {
        BodyStrategy::Empty
    } else if params[i].kind is Body {
        BodyStrategy::Json
    } else if params[i].kind is Form {
        BodyStrategy::Form
    } else {
        first_body(params, i + 1)
    }
}

/// How the body is made: multipart where a parameter is a part; else as the
/// first parameter that holds the body says; else there is none.
pub open spec fn strategy_of(params: Seq<MethodParam>) -> BodyStrategy {
    if any_multipart(params, params.len() as int) {
        BodyStrategy::Multipart
    } else {
        first_body(params, 0)
    }
}

/// Where a parameter of a role is sent.
pub open spec fn location_of(kind: ParamKind) -> ParamLocation {
    match kind {
        ParamKind::Path(_) => ParamLocation::Path,
        ParamKind::Query(_) => ParamLocation::Query,
        ParamKind::Header(_) => ParamLocation::Header,
        ParamKind::Headers => ParamLocation::Header,
        ParamKind::Body => ParamLocation::Body,
        ParamKind::Form => ParamLocation::Form,
        ParamKind::Multipart(_) => ParamLocation::Form,
    }
}

/// The metadata of a parameter: it is required unless its type is optional.
pub open spec fn meta_of(p: MethodParam) -> ParamMetaView {
    ParamMetaView {
        name: p.name@,
        location: location_of(p.kind),
        declared_type: p.declared_type@,
        required: !p.ty.is_named("Option"@),
    }
}

/// The metadata of a call.
pub open spec fn metadata_of(method_name: Seq<char>, params: Seq<MethodParam>)
    -> ParameterMetadataView {
    ParameterMetadataView {
        method_name,
        parameters: Seq::new(params.len(), |i: int| meta_of(params[i])),
    }
}

/// The name of a header that is declared as an identifier: every `_` becomes `-`.
pub open spec fn header_name(ident: Seq<char>) -> Seq<char> {
    replaced_char(ident, '_', '-')
}

/// The baseline headers with the first `n` declared headers set on top.
pub open spec fn fixed_upto(user_agent: Seq<char>, declared: Seq<Pair>, n: int) -> Seq<Pair>
    decreases n,
{
    if n <= 0 {
        inserted(
            inserted(Seq::empty(), "User-Agent"@, user_agent),
            "Accept"@,
            "application/json"@,
        )
    } else {
        inserted(
            fixed_upto(user_agent, declared, n - 1),
            header_name(declared[n - 1].0),
            declared[n - 1].1,
        )
    }
}

/// The headers that every request of an interface starts from: the user agent
/// and `Accept: application/json`, then the declared headers in their order.
pub open spec fn fixed_headers(user_agent: Seq<char>, declared: Seq<Pair>) -> Seq<Pair> {
    fixed_upto(user_agent, declared, declared.len() as int)
}

impl RequestPlan {
    /// What holds of every compiled plan: each placeholder of the template is
    /// filled by exactly one path parameter, at most one parameter holds the
    /// body as one value, and the body strategy and the metadata are those of
    /// the parameters.
    pub open spec fn wf(&self) -> bool {
        &&& covered(
            self.params@,
            placeholders_of(self.path_template@),
            placeholders_of(self.path_template@).len() as int,
        )
        &&& body_names(self.params@, self.params@.len() as int).len() <= 1
        &&& self.body == strategy_of(self.params@)
        &&& self.metadata@ == metadata_of(self.method_name@, self.params@)
    }
}

/// True when `r` reports the first placeholder among `placeholders` that is not
/// filled by exactly one path parameter.
pub open spec fn reports_gap(
    r: Result<(), CompilationError>,
    params: Seq<MethodParam>,
    placeholders: Seq<Seq<char>>,
) -> bool {
    match r {
        Ok(_) => covered(params, placeholders, placeholders.len() as int),
        Err(CompilationError::UnsatisfiedPlaceholder { name }) => exists|i: int|
            0 <= i < placeholders.len() && covered(params, placeholders, i) && name@
                == placeholders[i] && fillers(params, placeholders[i], params.len() as int) == 0,
        Err(CompilationError::DuplicatePathParameter { name }) => exists|i: int|
            0 <= i < placeholders.len() && covered(params, placeholders, i) && name@
                == placeholders[i] && fillers(params, placeholders[i], params.len() as int) > 1,
        Err(_) => false,
    }
}

fn count_fillers(params: &Vec<MethodParam>, name: &str) -> (r: usize)
    ensures
        r == fillers(params@, name@, params@.len() as int),
{
    let mut count: usize = 0;
    let mut i: usize = 0;
    while i < params.len()
        invariant
            i <= params.len(),
            count == fillers(params@, name@, i as int),
            count <= i,
        decreases params.len() - i,
    {
        let fills = match &params[i].kind {
            ParamKind::Path(Some(alias)) => alias.as_str().eq(name),
            ParamKind::Path(None) => params[i].name.as_str().eq(name),
            _ => false,
        };
        if fills {
            count += 1;
        }
        i += 1;
    }
    count
}

/// Checks that every placeholder is filled by exactly one path parameter, and
/// reports the first that is not.
pub fn check_placeholders(params: &Vec<MethodParam>, placeholders: &Vec<String>) -> (r: Result<
    (),
    CompilationError,
>)
    ensures
        reports_gap(r, params@, texts(placeholders@)),
{
    let ghost ph = texts(placeholders@);
    let mut i: usize = 0;
    while i < placeholders.len()
        invariant
            i <= placeholders.len(),
            ph == texts(placeholders@),
            covered(params@, ph, i as int),
        decreases placeholders.len() - i,
    {
        let count = count_fillers(params, placeholders[i].as_str());
        proof {
            assert(ph[i as int] == placeholders@[i as int]@);
            assert(0 <= i < ph.len() && covered(params@, ph, i as int));
        }
        if count == 0 {
            return Err(
                CompilationError::UnsatisfiedPlaceholder { name: placeholders[i].clone() },
            );
        }
        if count > 1 {
            return Err(
                CompilationError::DuplicatePathParameter { name: placeholders[i].clone() },
            );
        }
        i += 1;
    }
    Ok(())
}

/// The names of the parameters that hold the body as one value.
pub fn body_bearing(params: &Vec<MethodParam>) -> (r: Vec<String>)
    ensures
        r@ == body_names(params@, params@.len() as int),
{
    let mut names: Vec<String> = Vec::new();
    let mut i: usize = 0;
    while i < params.len()
        invariant
            i <= params.len(),
            names@ == body_names(params@, i as int),
        decreases params.len() - i,
    {
        match &params[i].kind {
            ParamKind::Body => {
                names.push(params[i].name.clone());
            },
            ParamKind::Form => {
                names.push(params[i].name.clone());
            },
            _ => {},
        }
        i += 1;
    }
    names
}

/// Check if the endpoint has multipart parameters.
pub fn has_multipart_params(params: &Vec<MethodParam>) -> (r: bool)
    ensures
        r == any_multipart(params@, params@.len() as int),
{
    let mut i: usize = 0;
    while i < params.len()
        invariant
            i <= params.len(),
            !any_multipart(params@, i as int),
        decreases params.len() - i,
    {
        match &params[i].kind {
            ParamKind::Multipart(_) => {
                return true;
            },
            _ => {},
        }
        i += 1;
    }
    false
}

/// How the body of the endpoint's requests is made.
pub fn body_strategy(params: &Vec<MethodParam>) -> (r: BodyStrategy)
    ensures
        r == strategy_of(params@),
{
    if has_multipart_params(params) {
        return BodyStrategy::Multipart;
    }
    let mut i: usize = 0;
    while i < params.len()
        invariant
            i <= params.len(),
            !any_multipart(params@, params@.len() as int),
            first_body(params@, 0) == first_body(params@, i as int),
        decreases params.len() - i,
    {
        match &params[i].kind {
            ParamKind::Body => {
                return BodyStrategy::Json;
            },
            ParamKind::Form => {
                return BodyStrategy::Form;
            },
            _ => {},
        }
        i += 1;
    }
    BodyStrategy::Empty
}

/// Where a parameter of a role is sent.
pub fn param_kind_to_location(kind: &ParamKind) -> (r: ParamLocation)
    ensures
        r == location_of(*kind),
{
    match kind {
        ParamKind::Path(_) => ParamLocation::Path,
        ParamKind::Query(_) => ParamLocation::Query,
        ParamKind::Header(_) => ParamLocation::Header,
        ParamKind::Headers => ParamLocation::Header,
        ParamKind::Body => ParamLocation::Body,
        ParamKind::Form => ParamLocation::Form,
        ParamKind::Multipart(_) => ParamLocation::Form,
    }
}

/// The metadata that travels with the requests of an endpoint.
pub fn generate_parameter_metadata(method_name: &str, params: &Vec<MethodParam>) -> (r:
    ParameterMetadata)
    ensures
        r@ == metadata_of(method_name@, params@),
{
    let mut parameters: Vec<ParamMeta> = Vec::new();
    let ghost want = metadata_of(method_name@, params@).parameters;
    let mut i: usize = 0;
    while i < params.len()
        invariant
            i <= params.len(),
            want == metadata_of(method_name@, params@).parameters,
            meta_views(parameters@) == want.take(i as int),
        decreases params.len() - i,
    {
        let p = &params[i];
        let meta = ParamMeta {
            name: p.name.clone(),
            location: param_kind_to_location(&p.kind),
            declared_type: p.declared_type.clone(),
            required: !is_option_type(&p.ty),
        };
        proof {
            assert(meta_views(parameters@.push(meta)) == meta_views(parameters@).push(meta@));
            assert(want.take(i + 1) == want.take(i as int).push(want[i as int]));
        }
        parameters.push(meta);
        i += 1;
    }
    proof {
        assert(want.take(params.len() as int) == want);
    }
    ParameterMetadata { method_name: method_name.to_owned(), parameters }
}

/// The headers that every request of an interface starts from.
pub fn baseline_headers(user_agent: &str, declared: &Vec<(String, String)>) -> (r: Headers)
    ensures
        r@ == fixed_headers(user_agent@, crate::text::pair_texts(declared@)),
{
    let mut headers = Headers::new();
    headers.insert("User-Agent".to_owned(), user_agent.to_owned());
    headers.insert("Accept".to_owned(), "application/json".to_owned());
    let ghost all = crate::text::pair_texts(declared@);
    let mut i: usize = 0;
    while i < declared.len()
        invariant
            i <= declared.len(),
            all == crate::text::pair_texts(declared@),
            headers@ == fixed_upto(user_agent@, all, i as int),
        decreases declared.len() - i,
    {
        let name = replace_char(declared[i].0.as_str(), '_', '-');
        headers.insert(name, declared[i].1.clone());
        i += 1;
    }
    headers
}

/// True for a declaration that compiles: every parameter gets a role, every
/// placeholder is filled by exactly one path parameter, and at most one
/// parameter holds the body as one value.
pub open spec fn compilable(decl: EndpointDeclaration) -> bool {
    let placeholders = placeholders_of(decl.path@);
    classification(decl.params@, placeholders, decl.method) matches Classification::Roles(
        params,
    ) && covered(params, placeholders, placeholders.len() as int) && body_names(
        params,
        params.len() as int,
    ).len() <= 1
}

/// True when `r` is what compiling the declaration owes.
pub open spec fn compiles(
    r: Result<RequestPlan, CompilationError>,
    decl: EndpointDeclaration,
    user_agent: Seq<char>,
    declared: Seq<Pair>,
) -> bool {
    let placeholders = placeholders_of(decl.path@);
    match classification(decl.params@, placeholders, decl.method) {
        Classification::Roles(params) => {
            if !covered(params, placeholders, placeholders.len() as int) {
                reports_gap(
                    match r {
                        Ok(_) => Ok(()),
                        Err(e) => Err(e),
                    },
                    params,
                    placeholders,
                ) && r is Err
            } else if body_names(params, params.len() as int).len() > 1 {
                r matches Err(CompilationError::MultipleBodies { names }) && names@ == body_names(
                    params,
                    params.len() as int,
                )
            } else {
                r matches Ok(plan) && plan.wf() && plan.params@ == params && plan.method_name@
                    == decl.name@ && plan.method == decl.method && plan.path_template@
                    == decl.path@ && plan.headers@ == fixed_headers(user_agent, declared)
                    && plan.return_kind == return_kind(
                    decl.return_type,
                    decl.options.not_found_as_none,
                ) && plan.not_found_as_none == decl.options.not_found_as_none && plan.timeout
                    == decl.options.timeout
            }
        },
        c => crate::classify::reports(
            match r {
                Ok(plan) => Ok(plan.params),
                Err(e) => Err(e),
            },
            c,
            placeholders,
            decl.method,
        ) && r is Err,
    }
}

/// Compiles an endpoint declaration into its request plan. `user_agent` and
/// `declared` are the user agent and the fixed headers of the interface.
pub fn compile_endpoint(
    decl: &EndpointDeclaration,
    user_agent: &str,
    declared: &Vec<(String, String)>,
) -> (r: Result<RequestPlan, CompilationError>)
    ensures
        compiles(r, *decl, user_agent@, crate::text::pair_texts(declared@)),
        r is Ok <==> compilable(*decl),
{
    let params = match parse_method_params(&decl.params, decl.path.as_str(), decl.method) {
        Ok(params) => params,
        Err(e) => {
            return Err(e);
        },
    };
    let placeholders = extract_path_placeholders(decl.path.as_str());
    match check_placeholders(&params, &placeholders) {
        Ok(_) => {},
        Err(e) => {
            return Err(e);
        },
    }
    let names = body_bearing(&params);
    if names.len() > 1 {
        return Err(CompilationError::MultipleBodies { names });
    }
    let body = body_strategy(&params);
    let metadata = generate_parameter_metadata(decl.name.as_str(), &params);
    let headers = baseline_headers(user_agent, declared);
    let return_kind = analyze_return_type(&decl.return_type, decl.options.not_found_as_none);
    Ok(
        RequestPlan {
            method_name: decl.name.clone(),
            method: decl.method,
            path_template: decl.path.clone(),
            params,
            headers,
            body,
            return_kind,
            not_found_as_none: decl.options.not_found_as_none,
            timeout: decl.options.timeout,
            metadata,
        },
    )
}

} // verus!

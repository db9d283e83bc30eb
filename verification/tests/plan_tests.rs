use std::time::Duration;

use bytes::Bytes;
use pincer::assemble::{rename_part, rename_parts, resolve_arguments, Resolved};
use pincer::binding::{compile_interface, prepare_call};
use pincer::interpret::{conclude, verdict, Verdict};
use pincer::path::{build_path, encode_path_segment};
use pincer::plan::{
    baseline_headers, body_strategy, check_placeholders, generate_parameter_metadata,
    has_multipart_params, param_kind_to_location, BodyStrategy,
};
use pincer::text::{decimal_string, lower_hex_string, replace_all};
use pincer::{
    build_request, build_request_now, compile_endpoint, interpret_response, parse_method_params,
    ApiClient, ArgValue, Argument, CollectionFormat, CompilationError, Decoded,
    EndpointDeclaration, Error, FieldValue, Headers, HttpMethod, Method, MethodOptions,
    MethodParam, MultipartOptions, ParamDecl, ParamKind, ParamLocation, Part, PathTemplate,
    PincerArgs, QueryField, QueryOptions, QueryRecord, RequestPlan, Response, ReturnTypeKind,
    TransportEvent, TypeDesc,
};

fn decl(name: &str, ty: TypeDesc, hint: Option<ParamKind>) -> ParamDecl {
    ParamDecl {
        name: name.to_string(),
        declared_type: "T".to_string(),
        ty,
        hint,
    }
}

fn plain(name: &str) -> ParamDecl {
    decl(name, TypeDesc::named("String"), None)
}

fn query(name: &str) -> ParamDecl {
    decl(
        name,
        TypeDesc::named("String"),
        Some(ParamKind::Query(QueryOptions::default())),
    )
}

fn query_with(name: &str, alias: Option<&str>, format: CollectionFormat) -> ParamDecl {
    decl(
        name,
        TypeDesc::generic("Vec", TypeDesc::named("String")),
        Some(ParamKind::Query(QueryOptions {
            alias: alias.map(str::to_string),
            format,
        })),
    )
}

fn endpoint(method: HttpMethod, path: &str, params: Vec<ParamDecl>) -> EndpointDeclaration {
    EndpointDeclaration {
        name: "call".to_string(),
        method,
        path: path.to_string(),
        params,
        return_type: Some(TypeDesc::generic("Result", TypeDesc::named("User"))),
        options: MethodOptions::default(),
    }
}

fn compile(method: HttpMethod, path: &str, params: Vec<ParamDecl>) -> RequestPlan {
    compile_endpoint(&endpoint(method, path, params), "agent/1", &Vec::new()).expect("compiles")
}

fn arg(name: &str, value: ArgValue) -> Argument {
    Argument {
        name: name.to_string(),
        value,
    }
}

fn scalar(name: &str, value: &str) -> Argument {
    arg(name, ArgValue::Value(FieldValue::Scalar(value.to_string())))
}

fn optional(name: &str, value: Option<&str>) -> Argument {
    arg(
        name,
        ArgValue::Value(FieldValue::Optional(value.map(str::to_string))),
    )
}

fn list(name: &str, items: &[&str]) -> Argument {
    arg(
        name,
        ArgValue::Value(FieldValue::List(
            items.iter().map(|s| s.to_string()).collect(),
        )),
    )
}

fn base() -> url::Url {
    url::Url::parse("http://localhost:9999").expect("base")
}

fn pairs(items: &[(&str, &str)]) -> Vec<(String, String)> {
    items
        .iter()
        .map(|(k, v)| (k.to_string(), v.to_string()))
        .collect()
}

fn kinds(params: &[MethodParam]) -> Vec<(String, ParamKind)> {
    params
        .iter()
        .map(|p| (p.name.clone(), p.kind.clone()))
        .collect()
}

// ---------------------------------------------------------------------------
// classification

#[test]
fn test_auto_path_detection() {
    let params = parse_method_params(&vec![plain("id")], "/users/{id}", HttpMethod::Get)
        .expect("classified");
    assert_eq!(kinds(&params), vec![("id".to_string(), ParamKind::Path(None))]);
}

#[test]
fn test_auto_path_detection_multiple() {
    let params = parse_method_params(
        &vec![plain("repo"), plain("owner")],
        "/repos/{owner}/{repo}",
        HttpMethod::Get,
    )
    .expect("classified");
    assert_eq!(
        kinds(&params),
        vec![
            ("repo".to_string(), ParamKind::Path(None)),
            ("owner".to_string(), ParamKind::Path(None)),
        ]
    );
}

#[test]
fn test_auto_body_detection() {
    let params =
        parse_method_params(&vec![plain("user")], "/users", HttpMethod::Post).expect("classified");
    assert_eq!(kinds(&params), vec![("user".to_string(), ParamKind::Body)]);
    for method in [HttpMethod::Put, HttpMethod::Patch] {
        let params =
            parse_method_params(&vec![plain("user")], "/users", method).expect("classified");
        assert_eq!(kinds(&params), vec![("user".to_string(), ParamKind::Body)]);
    }
}

#[test]
fn test_auto_body_with_auto_path() {
    // the body comes last, wherever it was declared
    let params = parse_method_params(
        &vec![plain("update"), plain("id"), query("dry_run")],
        "/users/{id}",
        HttpMethod::Put,
    )
    .expect("classified");
    assert_eq!(
        kinds(&params),
        vec![
            ("id".to_string(), ParamKind::Path(None)),
            (
                "dry_run".to_string(),
                ParamKind::Query(QueryOptions::default())
            ),
            ("update".to_string(), ParamKind::Body),
        ]
    );
    assert_eq!(params[2].declared_type, "T");
    assert_eq!(params[2].ty, TypeDesc::named("String"));
}

#[test]
fn explicit_role_wins_over_placeholder_name() {
    let params = parse_method_params(
        &vec![decl(
            "id",
            TypeDesc::named("u64"),
            Some(ParamKind::Header("X-Id".to_string())),
        )],
        "/users/{id}",
        HttpMethod::Get,
    )
    .expect("classified");
    assert_eq!(
        kinds(&params),
        vec![("id".to_string(), ParamKind::Header("X-Id".to_string()))]
    );
}

#[test]
fn body_ambiguity_is_rejected() {
    // a POST endpoint with two unclassified parameters
    let two = parse_method_params(&vec![plain("a"), plain("b")], "/x", HttpMethod::Post);
    match two {
        Err(CompilationError::MultipleUnattributed {
            names,
            placeholders,
        }) => {
            assert_eq!(names, vec!["a".to_string(), "b".to_string()]);
            assert!(placeholders.is_empty());
        }
        other => panic!("{other:?}"),
    }
    // also on a verb without a body
    let two = parse_method_params(
        &vec![plain("a"), plain("id"), plain("b"), plain("c")],
        "/x/{id}",
        HttpMethod::Get,
    );
    match two {
        Err(CompilationError::MultipleUnattributed {
            names,
            placeholders,
        }) => {
            assert_eq!(
                names,
                vec!["a".to_string(), "b".to_string(), "c".to_string()]
            );
            assert_eq!(placeholders, vec!["id".to_string()]);
        }
        other => panic!("{other:?}"),
    }
    // a GET endpoint with one unclassified, non-path parameter
    let one = parse_method_params(&vec![plain("id"), plain("q")], "/x/{id}/{n}", HttpMethod::Get);
    match one {
        Err(CompilationError::UnclassifiedParameter {
            name,
            placeholders,
            method,
        }) => {
            assert_eq!(name, "q");
            assert_eq!(placeholders, vec!["id".to_string(), "n".to_string()]);
            assert_eq!(method, HttpMethod::Get);
        }
        other => panic!("{other:?}"),
    }
    for method in [HttpMethod::Delete, HttpMethod::Head, HttpMethod::Options] {
        assert!(matches!(
            parse_method_params(&vec![plain("q")], "/x", method),
            Err(CompilationError::UnclassifiedParameter { .. })
        ));
    }
    // a POST endpoint with exactly one unclassified parameter
    let ok = parse_method_params(&vec![plain("q")], "/x", HttpMethod::Post).expect("body");
    assert_eq!(ok[0].kind, ParamKind::Body);
}

#[test]
fn classification_is_deterministic() {
    let inputs = vec![plain("update"), plain("id"), query("q")];
    let first = parse_method_params(&inputs, "/users/{id}", HttpMethod::Put).expect("ok");
    let second = parse_method_params(&inputs, "/users/{id}", HttpMethod::Put).expect("ok");
    assert_eq!(kinds(&first), kinds(&second));
    assert!(parse_method_params(&Vec::new(), "/x", HttpMethod::Get)
        .expect("no parameters")
        .is_empty());
}

// ---------------------------------------------------------------------------
// compilation

#[test]
fn compile_checks_placeholders() {
    let missing = compile_endpoint(
        &endpoint(HttpMethod::Get, "/repos/{owner}/{repo}", vec![plain("owner")]),
        "a",
        &Vec::new(),
    );
    assert!(matches!(
        missing,
        Err(CompilationError::UnsatisfiedPlaceholder { name }) if name == "repo"
    ));
    let twice = compile_endpoint(
        &endpoint(
            HttpMethod::Get,
            "/users/{id}",
            vec![
                plain("id"),
                decl(
                    "other",
                    TypeDesc::named("u64"),
                    Some(ParamKind::Path(Some("id".to_string()))),
                ),
            ],
        ),
        "a",
        &Vec::new(),
    );
    assert!(matches!(
        twice,
        Err(CompilationError::DuplicatePathParameter { name }) if name == "id"
    ));
    // a placeholder that stands twice is filled by its one parameter
    let plan = compile(HttpMethod::Get, "/a/{id}/b/{id}", vec![plain("id")]);
    let request = build_request(&plan, &base(), &vec![scalar("id", "7")], "b").expect("request");
    assert_eq!(request.uri().as_str(), "http://localhost:9999/a/7/b/7");
    // classification faults come first
    let first = compile_endpoint(
        &endpoint(HttpMethod::Get, "/x/{id}", vec![plain("q")]),
        "a",
        &Vec::new(),
    );
    assert!(matches!(
        first,
        Err(CompilationError::UnclassifiedParameter { .. })
    ));
}

#[test]
fn compile_rejects_several_bodies() {
    let both = compile_endpoint(
        &endpoint(
            HttpMethod::Post,
            "/x",
            vec![
                decl("a", TypeDesc::named("A"), Some(ParamKind::Body)),
                decl("b", TypeDesc::named("B"), Some(ParamKind::Form)),
            ],
        ),
        "a",
        &Vec::new(),
    );
    match both {
        Err(CompilationError::MultipleBodies { names }) => {
            assert_eq!(names, vec!["a".to_string(), "b".to_string()]);
        }
        other => panic!("{other:?}"),
    }
    // an explicit body beside the one that is inferred
    let inferred = compile_endpoint(
        &endpoint(
            HttpMethod::Post,
            "/x",
            vec![
                plain("left_over"),
                decl("a", TypeDesc::named("A"), Some(ParamKind::Body)),
            ],
        ),
        "a",
        &Vec::new(),
    );
    match inferred {
        Err(CompilationError::MultipleBodies { names }) => {
            assert_eq!(names, vec!["a".to_string(), "left_over".to_string()]);
        }
        other => panic!("{other:?}"),
    }
}

#[test]
fn compile_fills_the_plan() {
    let mut declaration = endpoint(
        HttpMethod::Patch,
        "/users/{id}",
        vec![
            decl("id", TypeDesc::named("u64"), None),
            decl(
                "page",
                TypeDesc::generic("Option", TypeDesc::named("u32")),
                Some(ParamKind::Query(QueryOptions::default())),
            ),
            decl(
                "token",
                TypeDesc::reference(TypeDesc::named("str")),
                Some(ParamKind::Header("Authorization".to_string())),
            ),
            decl("extra", TypeDesc::named("HashMap"), Some(ParamKind::Headers)),
            decl("update", TypeDesc::named("Update"), None),
        ],
    );
    declaration.name = "update_user".to_string();
    declaration.options = MethodOptions {
        not_found_as_none: true,
        timeout: Some(Duration::from_millis(1500)),
    };
    declaration.return_type = Some(TypeDesc::generic(
        "Result",
        TypeDesc::generic("Option", TypeDesc::unit()),
    ));
    let plan = compile_endpoint(
        &declaration,
        "my-app/1.0",
        &pairs(&[("X_Api_Version", "v1"), ("accept", "text/plain")]),
    )
    .expect("compiles");
    assert_eq!(plan.method_name, "update_user");
    assert_eq!(plan.method, HttpMethod::Patch);
    assert_eq!(plan.path_template, "/users/{id}");
    assert_eq!(plan.body, BodyStrategy::Json);
    assert_eq!(plan.return_kind, ReturnTypeKind::Unit);
    assert!(plan.not_found_as_none);
    assert_eq!(plan.timeout, Some(Duration::from_millis(1500)));
    assert_eq!(
        plan.headers.entries(),
        &pairs(&[
            ("User-Agent", "my-app/1.0"),
            ("X-Api-Version", "v1"),
            ("accept", "text/plain"),
        ])
    );
    let meta = &plan.metadata;
    assert_eq!(meta.method_name, "update_user");
    let seen: Vec<(String, ParamLocation, bool)> = meta
        .parameters
        .iter()
        .map(|m| (m.name.clone(), m.location, m.required))
        .collect();
    assert_eq!(
        seen,
        vec![
            ("id".to_string(), ParamLocation::Path, true),
            ("page".to_string(), ParamLocation::Query, false),
            ("token".to_string(), ParamLocation::Header, true),
            ("extra".to_string(), ParamLocation::Header, true),
            ("update".to_string(), ParamLocation::Body, true),
        ]
    );
    assert_eq!(meta.parameters[0].declared_type, "T");
}

#[test]
fn plan_helpers() {
    let body = MethodParam {
        name: "b".to_string(),
        declared_type: "B".to_string(),
        ty: TypeDesc::named("B"),
        kind: ParamKind::Body,
    };
    let form = MethodParam {
        kind: ParamKind::Form,
        ..body.clone()
    };
    let part = MethodParam {
        kind: ParamKind::Multipart(MultipartOptions::default()),
        ..body.clone()
    };
    let path = MethodParam {
        kind: ParamKind::Path(Some("id".to_string())),
        ..body.clone()
    };
    assert_eq!(body_strategy(&vec![]), BodyStrategy::Empty);
    assert_eq!(body_strategy(&vec![path.clone()]), BodyStrategy::Empty);
    assert_eq!(body_strategy(&vec![path.clone(), body.clone()]), BodyStrategy::Json);
    assert_eq!(body_strategy(&vec![form.clone(), body.clone()]), BodyStrategy::Form);
    assert_eq!(
        body_strategy(&vec![body.clone(), part.clone()]),
        BodyStrategy::Multipart
    );
    assert!(has_multipart_params(&vec![path.clone(), part.clone()]));
    assert!(!has_multipart_params(&vec![path.clone(), body.clone()]));
    assert_eq!(param_kind_to_location(&part.kind), ParamLocation::Form);
    assert_eq!(param_kind_to_location(&form.kind), ParamLocation::Form);
    assert_eq!(param_kind_to_location(&ParamKind::Headers), ParamLocation::Header);
    assert!(check_placeholders(&vec![path.clone()], &vec!["id".to_string()]).is_ok());
    assert!(check_placeholders(&vec![path.clone()], &vec![]).is_ok());
    assert!(matches!(
        check_placeholders(&vec![body.clone()], &vec!["b".to_string()]),
        Err(CompilationError::UnsatisfiedPlaceholder { .. })
    ));
    let meta = generate_parameter_metadata("m", &vec![]);
    assert_eq!(meta.method_name, "m");
    assert!(meta.parameters.is_empty());
    let fixed = baseline_headers("ua", &pairs(&[("user_agent", "other")]));
    assert_eq!(
        fixed.entries(),
        &pairs(&[("Accept", "application/json"), ("user-agent", "other")])
    );
}

#[test]
fn compile_interface_stops_at_the_first_fault() {
    let args = PincerArgs {
        url: Some("http://localhost".to_string()),
        ..PincerArgs::default()
    };
    let good = endpoint(HttpMethod::Get, "/a/{id}", vec![plain("id")]);
    let bad = endpoint(HttpMethod::Get, "/b", vec![plain("q")]);
    let worse = endpoint(HttpMethod::Get, "/c/{x}", vec![]);
    let plans = compile_interface(&args, &Vec::new(), &vec![good]).expect("plans");
    assert_eq!(plans.len(), 1);
    assert_eq!(
        plans[0].headers.get("user-agent"),
        Some(pincer::binding::DEFAULT_USER_AGENT)
    );
    let good = endpoint(HttpMethod::Get, "/a/{id}", vec![plain("id")]);
    let failed = compile_interface(&args, &Vec::new(), &vec![good, bad, worse]);
    assert!(matches!(
        failed,
        Err(CompilationError::UnclassifiedParameter { name, .. }) if name == "q"
    ));
    let no_url = compile_interface(&PincerArgs::default(), &Vec::new(), &Vec::new());
    assert!(matches!(no_url, Err(CompilationError::MissingUrl)));
    assert!(compile_interface(&args, &Vec::new(), &Vec::new())
        .expect("nothing to compile")
        .is_empty());
}

// ---------------------------------------------------------------------------
// the path builder

#[test]
fn placeholder_coverage() {
    let path = build_path(
        "/repos/{owner}/{repo}",
        &pairs(&[("owner", "rust-lang"), ("repo", "rust")]),
    );
    assert_eq!(path, "/repos/rust-lang/rust");
    let path = build_path(
        "/repos/{owner}/{repo}",
        &pairs(&[("owner", "my org"), ("repo", "rust")]),
    );
    assert_eq!(path, "/repos/my%20org/rust");
    // order of the pairs does not matter
    let path = build_path(
        "/repos/{owner}/{repo}",
        &pairs(&[("repo", "rust"), ("owner", "my org")]),
    );
    assert_eq!(path, "/repos/my%20org/rust");
}

#[test]
fn path_segment_encoding() {
    assert_eq!(
        encode_path_segment("AZaz09-._~"),
        "AZaz09-._~"
    );
    assert_eq!(
        encode_path_segment(" \"#<>`?{}/\\%"),
        "%20%22%23%3C%3E%60%3F%7B%7D%2F%5C%25"
    );
    assert_eq!(encode_path_segment("a&b=c+d"), "a&b=c+d");
    assert_eq!(encode_path_segment("caf\u{e9}"), "caf%C3%A9");
    assert_eq!(encode_path_segment("\u{1f600}"), "%F0%9F%98%80");
    assert_eq!(encode_path_segment("\u{0}\u{1f}\u{7f}"), "%00%1F%7F");
    assert_eq!(encode_path_segment(""), "");
    assert_eq!(encode_path_segment("!$'()*,;:@[]^|"), "!$'()*,;:@[]^|");
}

#[test]
fn path_substitution_details() {
    assert_eq!(build_path("/a/{x}/{x}", &pairs(&[("x", "1")])), "/a/1/1");
    assert_eq!(build_path("/a/{x}", &pairs(&[("y", "1")])), "/a/{x}");
    assert_eq!(build_path("/a/{x}", &Vec::new()), "/a/{x}");
    // a value never brings a placeholder with it
    assert_eq!(
        build_path("/{a}/{b}", &pairs(&[("a", "{b}"), ("b", "2")])),
        "/%7Bb%7D/2"
    );
    assert_eq!(build_path("{}", &pairs(&[("", "v")])), "v");
    assert_eq!(replace_all("aaa", "aa", "b"), "ba");
    assert_eq!(replace_all("abc", "", "x"), "abc");
    assert_eq!(replace_all("", "a", "x"), "");
    assert_eq!(replace_all("abcabc", "bc", ""), "aa");
    assert_eq!(replace_all("ab", "abc", "x"), "ab");
}

#[test]
fn numbers_as_text() {
    assert_eq!(decimal_string(0), "0");
    assert_eq!(decimal_string(9), "9");
    assert_eq!(decimal_string(10), "10");
    assert_eq!(decimal_string(u64::MAX), u64::MAX.to_string());
    assert_eq!(lower_hex_string(0), "0");
    assert_eq!(lower_hex_string(15), "f");
    assert_eq!(lower_hex_string(16), "10");
    assert_eq!(lower_hex_string(0xdead_beef), "deadbeef");
}

// ---------------------------------------------------------------------------
// requests

#[test]
fn end_to_end_search() {
    let plan = compile(
        HttpMethod::Get,
        "/search",
        vec![query("q"), query_with("tags", None, CollectionFormat::Csv)],
    );
    let args = vec![scalar("q", "rust"), list("tags", &["http", "async"])];
    let request = build_request(&plan, &base(), &args, "unused").expect("request");
    assert_eq!(request.method(), Method::Get);
    assert_eq!(
        request.uri().as_str(),
        "http://localhost:9999/search?q=rust&tags=http%2Casync"
    );
    let decoded: Vec<(String, String)> = request
        .uri()
        .query_pairs()
        .map(|(k, v)| (k.into_owned(), v.into_owned()))
        .collect();
    assert_eq!(decoded, pairs(&[("q", "rust"), ("tags", "http,async")]));
    assert!(request.body().is_none());
    assert_eq!(request.header("User-Agent"), Some("agent/1"));
    assert_eq!(request.header("Accept"), Some("application/json"));
    assert_eq!(request.headers().len(), 2);
    assert_eq!(
        request.extensions().path_template,
        Some(PathTemplate::new("/search"))
    );
    assert_eq!(request.extensions().parameters, Some(plan.metadata.clone()));
    // the arguments may come in any order
    let swapped = vec![list("tags", &["http", "async"]), scalar("q", "rust")];
    let again = build_request(&plan, &base(), &swapped, "unused").expect("request");
    assert_eq!(again.uri().as_str(), request.uri().as_str());
}

#[test]
fn test_get_method_with_path_param() {
    let plan = compile(HttpMethod::Get, "/users/{id}", vec![plain("id")]);
    let request = build_request(&plan, &base(), &vec![scalar("id", "42")], "b").expect("request");
    assert_eq!(request.uri().as_str(), "http://localhost:9999/users/42");
    assert_eq!(request.header("Accept"), Some("application/json"));
}

#[test]
fn test_path_param_with_special_chars() {
    let plan = compile(HttpMethod::Get, "/search/{query}", vec![plain("query")]);
    let request =
        build_request(&plan, &base(), &vec![scalar("query", "hello world")], "b").expect("ok");
    assert_eq!(
        request.uri().as_str(),
        "http://localhost:9999/search/hello%20world"
    );
    let request = build_request(&plan, &base(), &vec![scalar("query", "a/b?c#d")], "b").expect("ok");
    assert_eq!(
        request.uri().as_str(),
        "http://localhost:9999/search/a%2Fb%3Fc%23d"
    );
}

#[test]
fn test_auto_path_detection_with_alias() {
    let plan = compile(
        HttpMethod::Get,
        "/users/{user_id}",
        vec![decl(
            "id",
            TypeDesc::named("u64"),
            Some(ParamKind::Path(Some("user_id".to_string()))),
        )],
    );
    let request = build_request(&plan, &base(), &vec![scalar("id", "5")], "b").expect("request");
    assert_eq!(request.uri().as_str(), "http://localhost:9999/users/5");
}

#[test]
fn test_vec_query_params() {
    let plan = compile(
        HttpMethod::Get,
        "/filter",
        vec![query_with("tags", None, CollectionFormat::Multi)],
    );
    let request = build_request(
        &plan,
        &base(),
        &vec![list("tags", &["rust", "http", "async"])],
        "b",
    )
    .expect("request");
    assert_eq!(
        request.uri().as_str(),
        "http://localhost:9999/filter?tags=rust&tags=http&tags=async"
    );
}

#[test]
fn test_collection_format_csv() {
    let plan = compile(
        HttpMethod::Get,
        "/items",
        vec![query_with("tags", None, CollectionFormat::Csv)],
    );
    let request =
        build_request(&plan, &base(), &vec![list("tags", &["a", "b", "c"])], "b").expect("ok");
    assert_eq!(request.uri().query(), Some("tags=a%2Cb%2Cc"));
}

#[test]
fn test_collection_format_ssv() {
    let plan = compile(
        HttpMethod::Get,
        "/items",
        vec![query_with("tags", None, CollectionFormat::Ssv)],
    );
    let request =
        build_request(&plan, &base(), &vec![list("tags", &["a", "b", "c"])], "b").expect("ok");
    assert_eq!(request.uri().query(), Some("tags=a+b+c"));
}

#[test]
fn test_collection_format_pipes() {
    let plan = compile(
        HttpMethod::Get,
        "/items",
        vec![query_with("tags", Some("t"), CollectionFormat::Pipes)],
    );
    let request =
        build_request(&plan, &base(), &vec![list("tags", &["a", "b", "c"])], "b").expect("ok");
    assert_eq!(request.uri().query(), Some("t=a%7Cb%7Cc"));
}

#[test]
fn test_collection_format_empty_vec() {
    for format in [
        CollectionFormat::Csv,
        CollectionFormat::Ssv,
        CollectionFormat::Pipes,
        CollectionFormat::Multi,
    ] {
        let plan = compile(
            HttpMethod::Get,
            "/items",
            vec![query_with("tags", None, format)],
        );
        let request = build_request(&plan, &base(), &vec![list("tags", &[])], "b").expect("ok");
        // nothing is emitted; the URL layer leaves an empty query
        assert_eq!(request.uri().query(), Some(""));
        assert_eq!(request.uri().query_pairs().count(), 0);
    }
}

#[test]
fn test_option_query_params() {
    let plan = compile(HttpMethod::Get, "/items", vec![query("page"), query("limit")]);
    let request = build_request(
        &plan,
        &base(),
        &vec![optional("page", Some("2")), optional("limit", None)],
        "b",
    )
    .expect("request");
    assert_eq!(request.uri().as_str(), "http://localhost:9999/items?page=2");
}

#[test]
fn test_struct_query_params() {
    let plan = compile(HttpMethod::Get, "/search", vec![query("params")]);
    let record = QueryRecord::new()
        .field(QueryField::new("q", FieldValue::Scalar("rust".into())))
        .field(QueryField::new("page", FieldValue::Optional(Some("1".into()))));
    let request = build_request(
        &plan,
        &base(),
        &vec![arg("params", ArgValue::Record(record))],
        "b",
    )
    .expect("request");
    assert_eq!(
        request.uri().as_str(),
        "http://localhost:9999/search?q=rust&page=1"
    );
}

#[test]
fn test_struct_query_params_with_none() {
    let plan = compile(HttpMethod::Get, "/search", vec![query("params")]);
    let record = QueryRecord::new()
        .field(QueryField::new("q", FieldValue::Scalar("rust".into())))
        .field(QueryField::new("page", FieldValue::Optional(None)));
    let request = build_request(
        &plan,
        &base(),
        &vec![arg("params", ArgValue::Record(record))],
        "b",
    )
    .expect("request");
    assert_eq!(request.uri().as_str(), "http://localhost:9999/search?q=rust");
}

#[test]
fn test_query_parameters() {
    let plan = compile(
        HttpMethod::Get,
        "/users?fixed=1",
        vec![query("page"), query("limit")],
    );
    let base = url::Url::parse("http://localhost:9999/api/").expect("base");
    let request = build_request(
        &plan,
        &base,
        &vec![scalar("page", "1"), scalar("limit", "1 0")],
        "b",
    )
    .expect("request");
    assert_eq!(
        request.uri().as_str(),
        "http://localhost:9999/users?fixed=1&page=1&limit=1+0"
    );
    let relative = compile(HttpMethod::Get, "users", vec![]);
    let request = build_request(&relative, &base, &vec![], "b").expect("request");
    assert_eq!(request.uri().as_str(), "http://localhost:9999/api/users");
}

#[test]
fn test_custom_headers() {
    let plan = compile(
        HttpMethod::Get,
        "/x",
        vec![decl(
            "token",
            TypeDesc::named("String"),
            Some(ParamKind::Header("Authorization".to_string())),
        )],
    );
    let request =
        build_request(&plan, &base(), &vec![scalar("token", "Bearer t")], "b").expect("ok");
    assert_eq!(request.header("authorization"), Some("Bearer t"));
}

#[test]
fn test_header_map() {
    let plan = compile(
        HttpMethod::Get,
        "/with-headers",
        vec![decl("extra_headers", TypeDesc::named("HashMap"), Some(ParamKind::Headers))],
    );
    let bag = pairs(&[("X-Custom", "1"), ("X-Other", "2")]);
    let request = build_request(
        &plan,
        &base(),
        &vec![arg("extra_headers", ArgValue::HeaderBag(bag))],
        "b",
    )
    .expect("request");
    assert_eq!(request.header("X-Custom"), Some("1"));
    assert_eq!(request.header("X-Other"), Some("2"));
    assert_eq!(request.headers().len(), 4);
}

#[test]
fn test_trait_level_headers() {
    let plan = compile_endpoint(
        &endpoint(HttpMethod::Get, "/x", vec![]),
        "agent/1",
        &pairs(&[("X_Api_Version", "v1"), ("X_Client", "test")]),
    )
    .expect("compiles");
    let request = build_request(&plan, &base(), &vec![], "b").expect("request");
    assert_eq!(request.header("X-Api-Version"), Some("v1"));
    assert_eq!(request.header("X-Client"), Some("test"));
    assert!(request.header("X_Api_Version").is_none());
}

#[test]
fn test_trait_level_headers_combined_with_method_headers() {
    // later layers win: baseline < interface < single headers < bags
    let plan = compile_endpoint(
        &endpoint(
            HttpMethod::Get,
            "/x",
            vec![
                decl("bag", TypeDesc::named("HashMap"), Some(ParamKind::Headers)),
                decl(
                    "one",
                    TypeDesc::named("String"),
                    Some(ParamKind::Header("x-layer".to_string())),
                ),
                decl(
                    "agent",
                    TypeDesc::named("String"),
                    Some(ParamKind::Header("user-agent".to_string())),
                ),
            ],
        ),
        "agent/1",
        &pairs(&[("X_Layer", "interface"), ("Accept", "text/plain"), ("X_Only", "i")]),
    )
    .expect("compiles");
    let args = vec![
        scalar("one", "single"),
        scalar("agent", "custom"),
        arg("bag", ArgValue::HeaderBag(pairs(&[("X-LAYER", "bag"), ("x-bag", "b")]))),
    ];
    let request = build_request(&plan, &base(), &args, "b").expect("request");
    assert_eq!(request.header("x-layer"), Some("bag"));
    assert_eq!(request.header("accept"), Some("text/plain"));
    assert_eq!(request.header("User-Agent"), Some("custom"));
    assert_eq!(request.header("x-only"), Some("i"));
    assert_eq!(
        request.headers().entries(),
        &pairs(&[
            ("Accept", "text/plain"),
            ("X-Only", "i"),
            ("user-agent", "custom"),
            ("X-LAYER", "bag"),
            ("x-bag", "b"),
        ])
    );
}

#[test]
fn test_post_request_with_json_body() {
    let plan = compile(HttpMethod::Post, "/users", vec![plain("user")]);
    let document = Bytes::from(r#"{"name":"Alice"}"#);
    let request = build_request(
        &plan,
        &base(),
        &vec![arg("user", ArgValue::Json(document.clone()))],
        "b",
    )
    .expect("request");
    assert_eq!(request.method(), Method::Post);
    assert_eq!(request.body(), Some(&document));
    assert_eq!(request.header("content-type"), Some("application/json"));
}

#[test]
fn form_body_is_urlencoded() {
    let plan = compile(
        HttpMethod::Post,
        "/login",
        vec![decl("login", TypeDesc::named("Login"), Some(ParamKind::Form))],
    );
    let record = QueryRecord::new()
        .field(QueryField::new("username", FieldValue::Scalar("alice".into())))
        .field(QueryField::new("password", FieldValue::Scalar("s e&c".into())))
        .field(QueryField::new(
            "roles",
            FieldValue::List(vec!["a".into(), "b".into()]),
        ));
    let request = build_request(
        &plan,
        &base(),
        &vec![arg("login", ArgValue::Record(record))],
        "b",
    )
    .expect("request");
    assert_eq!(
        request.body().expect("body").as_ref(),
        b"username=alice&password=s+e%26c&roles=a&roles=b"
    );
    assert_eq!(
        request.header("Content-Type"),
        Some("application/x-www-form-urlencoded")
    );
}

#[test]
fn test_multipart_upload_single_file() {
    let plan = compile(
        HttpMethod::Post,
        "/upload",
        vec![decl(
            "file",
            TypeDesc::named("Part"),
            Some(ParamKind::Multipart(MultipartOptions::default())),
        )],
    );
    assert_eq!(plan.body, BodyStrategy::Multipart);
    let part = Part::file("ignored", "test.txt", Bytes::from("hello"));
    let request = build_request(
        &plan,
        &base(),
        &vec![arg("file", ArgValue::Part(part))],
        "XYZ",
    )
    .expect("request");
    assert_eq!(
        request.header("Content-Type"),
        Some("multipart/form-data; boundary=XYZ")
    );
    assert_eq!(
        request.body().expect("body").as_ref(),
        b"--XYZ\r\nContent-Disposition: form-data; name=\"file\"; filename=\"test.txt\"\r\nContent-Type: text/plain\r\n\r\nhello\r\n--XYZ--\r\n"
            .as_slice()
    );
}

#[test]
fn test_multipart_upload_with_custom_name() {
    let plan = compile(
        HttpMethod::Post,
        "/upload",
        vec![
            decl(
                "file",
                TypeDesc::named("Part"),
                Some(ParamKind::Multipart(MultipartOptions {
                    name: Some("document".to_string()),
                })),
            ),
            decl(
                "pages",
                TypeDesc::generic("Vec", TypeDesc::named("Part")),
                Some(ParamKind::Multipart(MultipartOptions::default())),
            ),
        ],
    );
    let single = Part::new("x", Bytes::from("one"));
    let several = vec![
        Part::text("a", "p0"),
        Part::new("b", Bytes::from("p1")).with_filename("p1.bin"),
    ];
    let request = build_request(
        &plan,
        &base(),
        &vec![
            arg("pages", ArgValue::Parts(several)),
            arg("file", ArgValue::Part(single)),
        ],
        "B",
    )
    .expect("request");
    let body = String::from_utf8(request.body().expect("body").to_vec()).expect("utf8");
    let want = "--B\r\nContent-Disposition: form-data; name=\"document\"\r\nContent-Type: application/octet-stream\r\n\r\none\r\n\
--B\r\nContent-Disposition: form-data; name=\"pages[0]\"\r\nContent-Type: text/plain; charset=utf-8\r\n\r\np0\r\n\
--B\r\nContent-Disposition: form-data; name=\"pages[1]\"; filename=\"p1.bin\"\r\nContent-Type: application/octet-stream\r\n\r\np1\r\n\
--B--\r\n";
    assert_eq!(body, want);
    assert_eq!(request.headers().len(), 3);
}

#[test]
fn multipart_lists_are_indexed() {
    let parts: Vec<Part> = (0..12)
        .map(|i| Part::new("p", Bytes::from(vec![i as u8])))
        .collect();
    let named = rename_parts(&parts, "files");
    assert_eq!(named.len(), 12);
    assert_eq!(named[0].name(), "files[0]");
    assert_eq!(named[11].name(), "files[11]");
    assert_eq!(named[11].data().as_ref(), &[11u8]);
    assert!(rename_parts(&Vec::new(), "files").is_empty());
    let kept = rename_part(
        &Part::file("a", "a.png", Bytes::from("x")).with_content_type("image/x"),
        "b",
    );
    assert_eq!(kept.name(), "b");
    assert_eq!(kept.filename(), Some("a.png"));
    assert_eq!(kept.content_type(), Some("image/x"));
    // an empty list of parts still makes a multipart body
    let plan = compile(
        HttpMethod::Post,
        "/upload",
        vec![decl(
            "pages",
            TypeDesc::generic("Vec", TypeDesc::named("Part")),
            Some(ParamKind::Multipart(MultipartOptions::default())),
        )],
    );
    let request = build_request(
        &plan,
        &base(),
        &vec![arg("pages", ArgValue::Parts(Vec::new()))],
        "B",
    )
    .expect("request");
    assert_eq!(request.body().expect("body").as_ref(), b"--B--\r\n");
}

#[test]
fn generated_boundary_is_used() {
    let plan = compile(
        HttpMethod::Post,
        "/upload",
        vec![decl(
            "file",
            TypeDesc::named("Part"),
            Some(ParamKind::Multipart(MultipartOptions::default())),
        )],
    );
    let request = build_request_now(
        &plan,
        &base(),
        &vec![arg("file", ArgValue::Part(Part::text("f", "v")))],
    )
    .expect("request");
    let content_type = request.header("content-type").expect("content type").to_string();
    let boundary = content_type
        .strip_prefix("multipart/form-data; boundary=----PincerBoundary")
        .expect("prefix");
    assert!(!boundary.is_empty());
    assert!(boundary
        .chars()
        .all(|c| c.is_ascii_digit() || ('a'..='f').contains(&c)));
    let body = String::from_utf8(request.body().expect("body").to_vec()).expect("utf8");
    assert!(body.starts_with(&format!("------PincerBoundary{boundary}\r\n")));
    assert!(body.ends_with(&format!("------PincerBoundary{boundary}--\r\n")));
}

#[test]
fn faults_of_a_call() {
    let plan = compile(
        HttpMethod::Post,
        "/users/{id}",
        vec![plain("id"), query("q"), plain("user")],
    );
    let missing = build_request(&plan, &base(), &vec![scalar("id", "1")], "b");
    assert!(matches!(
        missing,
        Err(Error::InvalidRequest(m)) if m == "missing argument: q"
    ));
    let shape = build_request(
        &plan,
        &base(),
        &vec![list("id", &["1"]), scalar("q", "x"), scalar("user", "u")],
        "b",
    );
    assert!(matches!(
        shape,
        Err(Error::InvalidRequest(m)) if m == "argument does not fit the role of its parameter: id"
    ));
    let body = build_request(
        &plan,
        &base(),
        &vec![scalar("id", "1"), scalar("q", "x"), scalar("user", "u")],
        "b",
    );
    assert!(matches!(
        body,
        Err(Error::InvalidRequest(m)) if m == "argument does not fit the role of its parameter: user"
    ));
    // a base that cannot be one
    let mail = url::Url::parse("mailto:a@b.c").expect("url");
    let plan = compile(HttpMethod::Get, "/x", vec![]);
    assert!(matches!(
        build_request(&plan, &mail, &vec![], "b"),
        Err(Error::InvalidUrl(_))
    ));
    // the first argument of a name is the one that counts
    let plan = compile(HttpMethod::Get, "/u/{id}", vec![plain("id")]);
    let request = build_request(
        &plan,
        &base(),
        &vec![scalar("id", "1"), scalar("id", "2"), scalar("other", "3")],
        "b",
    )
    .expect("request");
    assert_eq!(request.uri().path(), "/u/1");
}

#[test]
fn resolution_by_role() {
    let plan = compile(
        HttpMethod::Get,
        "/x/{id}",
        vec![plain("id"), query_with("t", Some("tag"), CollectionFormat::Pipes)],
    );
    let resolved =
        resolve_arguments(&plan.params, &vec![list("t", &["a", "b"]), scalar("id", "9")])
            .expect("resolved");
    assert_eq!(resolved.len(), 2);
    assert!(matches!(&resolved[0], Resolved::Path(k, v) if k == "id" && v == "9"));
    assert!(matches!(&resolved[1], Resolved::Query(p) if p == &pairs(&[("tag", "a|b")])));
}

#[test]
fn bindings_build_the_same_request() {
    let plan = compile(HttpMethod::Get, "/users/{id}", vec![plain("id")]);
    let args = vec![scalar("id", "42")];
    let client = ApiClient::new((), "http://localhost:9999").expect("client");
    let through_client = prepare_call(&client, &plan, &args, "b").expect("request");
    let direct = build_request(&plan, &base(), &args, "b").expect("request");
    assert_eq!(through_client.uri(), direct.uri());
    assert_eq!(through_client.headers().entries(), direct.headers().entries());
    assert_eq!(through_client.method(), direct.method());
}

// ---------------------------------------------------------------------------
// responses

fn response(status: u16, body: &str) -> Response<Bytes> {
    Response::new(status, Headers::new(), Bytes::from(body.to_string()))
}

#[test]
fn test_not_found_as_none_returns_none_on_404() {
    let result = interpret_response(ReturnTypeKind::Json, true, response(404, "gone"));
    assert!(matches!(result, Ok(None)));
}

#[test]
fn test_not_found_as_none_returns_some_on_success() {
    let result = interpret_response(ReturnTypeKind::Json, true, response(200, r#"{"id":1}"#));
    match result {
        Ok(Some(Decoded::Json(body))) => assert_eq!(body.as_ref(), br#"{"id":1}"#),
        other => panic!("{other:?}"),
    }
}

#[test]
fn test_not_found_as_none_errors_on_other_status() {
    let result = interpret_response(ReturnTypeKind::Json, true, response(500, "boom"));
    match result {
        Err(Error::Http {
            status,
            message,
            body,
        }) => {
            assert_eq!(status, 500);
            assert_eq!(message, "HTTP error: 500");
            assert_eq!(body, Some(Bytes::from("boom")));
        }
        other => panic!("{other:?}"),
    }
}

#[test]
fn test_http_error_status() {
    let result = interpret_response(ReturnTypeKind::Json, false, response(404, "nope"));
    match result {
        Err(e) => {
            assert!(e.is_not_found());
            assert_eq!(e.to_string(), "HTTP error 404: HTTP error: 404");
        }
        other => panic!("{other:?}"),
    }
}

#[test]
fn test_error_body_preserved_for_decode_body() {
    let result = interpret_response(
        ReturnTypeKind::Json,
        false,
        response(422, r#"{"code":"invalid"}"#),
    );
    let err = result.expect_err("an error");
    assert_eq!(err.status(), Some(422));
    assert!(err.is_client_error());
    assert_eq!(
        err.body().expect("body").as_ref(),
        br#"{"code":"invalid"}"#
    );
}

#[test]
fn test_raw_response_return_type() {
    let result = interpret_response(ReturnTypeKind::RawResponse, false, response(200, "raw"));
    match result {
        Ok(Some(Decoded::Raw(r))) => {
            assert_eq!(r.status(), 200);
            assert!(r.is_success());
            assert_eq!(r.body().as_ref(), b"raw");
        }
        other => panic!("{other:?}"),
    }
}

#[test]
fn test_raw_response_with_error_status() {
    for status in [404u16, 500, 302, 100, 0] {
        let result =
            interpret_response(ReturnTypeKind::RawResponse, false, response(status, "raw"));
        match result {
            Ok(Some(Decoded::Raw(r))) => {
                assert_eq!(r.status(), status);
                assert_eq!(r.body().as_ref(), b"raw");
            }
            other => panic!("{other:?}"),
        }
    }
}

#[test]
fn test_raw_response_with_not_found_as_none() {
    let result = interpret_response(ReturnTypeKind::RawResponse, true, response(404, "raw"));
    assert!(matches!(result, Ok(None)));
    let result = interpret_response(ReturnTypeKind::RawResponse, true, response(500, "raw"));
    assert!(matches!(result, Ok(Some(Decoded::Raw(r))) if r.status() == 500));
}

#[test]
fn test_unit_return_type() {
    let result = interpret_response(ReturnTypeKind::Unit, false, response(204, ""));
    assert!(matches!(result, Ok(Some(Decoded::Unit))));
}

#[test]
fn test_unit_return_type_error_on_failure() {
    let result = interpret_response(ReturnTypeKind::Unit, false, response(500, "x"));
    assert!(matches!(result, Err(Error::Http { status: 500, .. })));
    let result = interpret_response(ReturnTypeKind::Unit, false, response(404, "x"));
    assert!(matches!(result, Err(Error::Http { status: 404, .. })));
}

#[test]
fn test_unit_return_type_with_not_found_as_none() {
    let result = interpret_response(ReturnTypeKind::Unit, true, response(404, ""));
    assert!(matches!(result, Ok(None)));
    let result = interpret_response(ReturnTypeKind::Unit, true, response(200, ""));
    assert!(matches!(result, Ok(Some(Decoded::Unit))));
    let result = interpret_response(ReturnTypeKind::Unit, true, response(403, ""));
    assert!(matches!(result, Err(Error::Http { status: 403, .. })));
}

#[test]
fn response_policy_table() {
    let kinds = [
        ReturnTypeKind::Unit,
        ReturnTypeKind::RawResponse,
        ReturnTypeKind::Json,
    ];
    for kind in kinds {
        for flag in [false, true] {
            for status in [0u16, 199, 200, 204, 299, 300, 404, 500, 65535] {
                let want = if flag && status == 404 {
                    Verdict::Absent
                } else if kind == ReturnTypeKind::RawResponse || (200..300).contains(&status) {
                    Verdict::Value
                } else {
                    Verdict::Failure
                };
                assert_eq!(verdict(kind, flag, status), want, "{kind:?} {flag} {status}");
            }
        }
    }
}

#[test]
fn test_timeout() {
    let result = conclude(ReturnTypeKind::Json, false, TransportEvent::TimedOut);
    assert!(matches!(result, Err(Error::Timeout)));
}

#[test]
fn test_connection_error() {
    let result = conclude(
        ReturnTypeKind::Json,
        true,
        TransportEvent::Failed(Error::connection("refused")),
    );
    assert!(matches!(result, Err(Error::Connection(m)) if m == "refused"));
    let result = conclude(
        ReturnTypeKind::Unit,
        false,
        TransportEvent::Responded(response(201, "")),
    );
    assert!(matches!(result, Ok(Some(Decoded::Unit))));
}

// ---------------------------------------------------------------------------
// bindings

#[derive(Clone)]
struct AuthenticatedClient {
    base_url: url::Url,
}

impl pincer::PincerClient for AuthenticatedClient {
    fn base_url(&self) -> &url::Url {
        &self.base_url
    }
}

#[test]
fn test_wrapper_mode_with_api_client() {
    let plan = compile(HttpMethod::Get, "/users/{id}", vec![plain("id")]);
    let client = pincer::binding::wrap_client((), "http://localhost:9999").expect("client");
    let request = prepare_call(&client, &plan, &vec![scalar("id", "42")], "b").expect("request");
    assert_eq!(request.method(), Method::Get);
    assert_eq!(request.uri().as_str(), "http://localhost:9999/users/42");
}

#[test]
fn test_wrapper_mode_with_custom_base_url() {
    let plan = compile(HttpMethod::Get, "/health", vec![]);
    let url = url::Url::parse("https://custom.example.com").expect("url");
    let client = ApiClient::with_url((), url);
    let request = prepare_call(&client, &plan, &vec![], "b").expect("request");
    assert_eq!(request.uri().as_str(), "https://custom.example.com/health");
}

#[test]
fn test_wrapper_mode_struct_is_clone() {
    let client = pincer::binding::wrap_client(3u8, "http://localhost:9999").expect("client");
    let cloned = client.clone();
    assert_eq!(cloned.inner(), client.inner());
}

#[test]
fn test_impl_only_mode_with_api_client() {
    let plan = compile(HttpMethod::Get, "/users/{id}", vec![plain("id")]);
    let client = ApiClient::new((), "http://localhost:9999/").expect("client");
    let request = prepare_call(&client, &plan, &vec![scalar("id", "1")], "b").expect("request");
    assert_eq!(request.uri().as_str(), "http://localhost:9999/users/1");
    assert_eq!(request.header("Accept"), Some("application/json"));
}

#[test]
fn test_impl_only_mode_post_request() {
    let plan = compile(HttpMethod::Post, "/users", vec![plain("user")]);
    let client = ApiClient::new((), "http://localhost:9999/").expect("client");
    let body = Bytes::from(r#"{"id":0,"name":"New"}"#);
    let request = prepare_call(
        &client,
        &plan,
        &vec![arg("user", ArgValue::Json(body.clone()))],
        "b",
    )
    .expect("request");
    assert_eq!(request.method(), Method::Post);
    assert_eq!(request.body(), Some(&body));
}

#[test]
fn test_custom_pincer_client_with_impl_only() {
    let plan = compile(HttpMethod::Get, "/users/{id}", vec![plain("id")]);
    let client = AuthenticatedClient {
        base_url: url::Url::parse("http://localhost:9999/v2/").expect("url"),
    };
    let request = prepare_call(&client, &plan, &vec![scalar("id", "9")], "b").expect("request");
    assert_eq!(request.uri().as_str(), "http://localhost:9999/users/9");
}

#[test]
fn test_http_method_attribute() {
    let attrs = pincer::binding::parse_method_spec("GET /users").expect("spec");
    let plan = compile(attrs.method, &attrs.path, vec![]);
    let request = build_request(&plan, &base(), &vec![], "b").expect("request");
    assert_eq!(request.method(), Method::Get);
    assert_eq!(request.uri().path(), "/users");
}

#[test]
fn test_timeout_attribute() {
    let mut declaration = endpoint(HttpMethod::Get, "/slow", vec![]);
    declaration.options.timeout = pincer::parse_duration_string("100ms");
    let plan = compile_endpoint(&declaration, "a", &Vec::new()).expect("compiles");
    assert_eq!(plan.timeout, Some(Duration::from_millis(100)));
    let result = conclude(plan.return_kind, plan.not_found_as_none, TransportEvent::TimedOut);
    assert!(matches!(result, Err(e) if e.is_timeout()));
    let plain = compile(HttpMethod::Get, "/fast", vec![]);
    assert_eq!(plain.timeout, None);
}

#[test]
fn test_put_request() {
    let plan = compile(HttpMethod::Put, "/users/{id}", vec![plain("id"), plain("user")]);
    let body = Bytes::from(r#"{"name":"Updated"}"#);
    let request = build_request(
        &plan,
        &base(),
        &vec![scalar("id", "1"), arg("user", ArgValue::Json(body.clone()))],
        "b",
    )
    .expect("request");
    assert_eq!(request.method(), Method::Put);
    assert_eq!(request.uri().path(), "/users/1");
    assert_eq!(request.body(), Some(&body));
}

#[test]
fn test_delete_request() {
    let plan = compile(HttpMethod::Delete, "/users/{id}", vec![plain("id")]);
    let request = build_request(&plan, &base(), &vec![scalar("id", "1")], "b").expect("request");
    assert_eq!(request.method(), Method::Delete);
    assert!(request.body().is_none());
    let mut unit = endpoint(HttpMethod::Delete, "/users/{id}", vec![plain("id")]);
    unit.return_type = Some(TypeDesc::generic("Result", TypeDesc::unit()));
    let plan = compile_endpoint(&unit, "a", &Vec::new()).expect("compiles");
    assert_eq!(plan.return_kind, ReturnTypeKind::Unit);
    let result = interpret_response(plan.return_kind, false, response(204, ""));
    assert!(matches!(result, Ok(Some(Decoded::Unit))));
}

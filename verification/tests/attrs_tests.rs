use std::time::Duration;

use pincer::attrs::{duration_from_text, CollectionFormat, HttpMethod, PincerMode};
use pincer::binding::parse_method_spec;
use pincer::{
    extract_path_placeholders, parse_collection_format, parse_duration_string, CompilationError,
    Method, PincerArgs,
};

#[test]
fn http_method_as_str() {
    assert_eq!(HttpMethod::Get.as_str(), "Get");
    assert_eq!(HttpMethod::Post.as_str(), "Post");
    assert_eq!(HttpMethod::Delete.as_str(), "Delete");
}

#[test]
fn parse_duration_seconds() {
    assert_eq!(
        parse_duration_string("30s"),
        Some(std::time::Duration::from_secs(30))
    );
    assert_eq!(
        parse_duration_string("1s"),
        Some(std::time::Duration::from_secs(1))
    );
    assert_eq!(
        parse_duration_string("0s"),
        Some(std::time::Duration::from_secs(0))
    );
}

#[test]
fn parse_duration_minutes() {
    assert_eq!(
        parse_duration_string("1m"),
        Some(std::time::Duration::from_secs(60))
    );
    assert_eq!(
        parse_duration_string("5m"),
        Some(std::time::Duration::from_secs(300))
    );
}

#[test]
fn parse_duration_milliseconds() {
    assert_eq!(
        parse_duration_string("500ms"),
        Some(std::time::Duration::from_millis(500))
    );
    assert_eq!(
        parse_duration_string("100ms"),
        Some(std::time::Duration::from_millis(100))
    );
}

#[test]
fn parse_duration_invalid() {
    assert_eq!(parse_duration_string("30"), None);
    assert_eq!(parse_duration_string("abc"), None);
    assert_eq!(parse_duration_string(""), None);
}

#[test]
fn parse_duration_ignores_surrounding_space() {
    assert_eq!(parse_duration_string("  30s\t"), Some(Duration::from_secs(30)));
    assert_eq!(duration_from_text(" 30s"), None);
}

#[test]
fn parse_duration_edge_cases() {
    assert_eq!(parse_duration_string("s"), None);
    assert_eq!(parse_duration_string("m"), None);
    assert_eq!(parse_duration_string("ms"), None);
    assert_eq!(parse_duration_string("xms"), None);
    assert_eq!(parse_duration_string("-5s"), None);
    assert_eq!(parse_duration_string("+5s"), Some(Duration::from_secs(5)));
    assert_eq!(parse_duration_string("1.5s"), None);
    assert_eq!(parse_duration_string("007s"), Some(Duration::from_secs(7)));
    assert_eq!(
        parse_duration_string("18446744073709551615s"),
        Some(Duration::from_secs(u64::MAX))
    );
    assert_eq!(parse_duration_string("18446744073709551616s"), None);
    // 307445734561825861 * 60 passes u64::MAX
    assert_eq!(parse_duration_string("307445734561825861m"), None);
    assert_eq!(
        parse_duration_string("307445734561825860m"),
        Some(Duration::from_secs(307_445_734_561_825_860 * 60))
    );
}

#[test]
fn extract_placeholders_single() {
    assert_eq!(
        extract_path_placeholders("/users/{id}"),
        vec!["id".to_string()]
    );
}

#[test]
fn extract_placeholders_multiple() {
    assert_eq!(
        extract_path_placeholders("/repos/{owner}/{repo}/issues/{number}"),
        vec![
            "owner".to_string(),
            "repo".to_string(),
            "number".to_string()
        ]
    );
}

#[test]
fn extract_placeholders_none() {
    assert!(extract_path_placeholders("/health").is_empty());
    assert!(extract_path_placeholders("/users").is_empty());
}

#[test]
fn extract_placeholders_edge_cases() {
    assert!(extract_path_placeholders("").is_empty());
    assert!(extract_path_placeholders("/a/{}").is_empty());
    assert_eq!(extract_path_placeholders("/a/{id"), vec!["id".to_string()]);
    assert_eq!(
        extract_path_placeholders("{a}{b}"),
        vec!["a".to_string(), "b".to_string()]
    );
    assert_eq!(
        extract_path_placeholders("/x/{a{b}/c}"),
        vec!["a{b".to_string()]
    );
    assert_eq!(
        extract_path_placeholders("/{id}/{id}"),
        vec!["id".to_string(), "id".to_string()]
    );
    assert!(extract_path_placeholders("/a/{").is_empty());
}

#[test]
fn http_method_supports_body() {
    assert!(HttpMethod::Post.supports_body());
    assert!(HttpMethod::Put.supports_body());
    assert!(HttpMethod::Patch.supports_body());
    assert!(!HttpMethod::Get.supports_body());
    assert!(!HttpMethod::Delete.supports_body());
    assert!(!HttpMethod::Head.supports_body());
    assert!(!HttpMethod::Options.supports_body());
}

#[test]
fn http_method_parse_any_case() {
    assert_eq!(HttpMethod::parse("GET"), Some(HttpMethod::Get));
    assert_eq!(HttpMethod::parse("get"), Some(HttpMethod::Get));
    assert_eq!(HttpMethod::parse("Post"), Some(HttpMethod::Post));
    assert_eq!(HttpMethod::parse("put"), Some(HttpMethod::Put));
    assert_eq!(HttpMethod::parse("DELETE"), Some(HttpMethod::Delete));
    assert_eq!(HttpMethod::parse("patch"), Some(HttpMethod::Patch));
    assert_eq!(HttpMethod::parse("head"), Some(HttpMethod::Head));
    assert_eq!(HttpMethod::parse("options"), Some(HttpMethod::Options));
    assert_eq!(HttpMethod::parse("TRACE"), None);
    assert_eq!(HttpMethod::parse(""), None);
    assert_eq!(HttpMethod::from_upper("get"), None);
    assert_eq!(HttpMethod::from_upper("GET"), Some(HttpMethod::Get));
}

#[test]
fn http_method_to_method() {
    assert_eq!(HttpMethod::Get.to_method(), Method::Get);
    assert_eq!(HttpMethod::Post.to_method(), Method::Post);
    assert_eq!(HttpMethod::Put.to_method(), Method::Put);
    assert_eq!(HttpMethod::Delete.to_method(), Method::Delete);
    assert_eq!(HttpMethod::Patch.to_method(), Method::Patch);
    assert_eq!(HttpMethod::Head.to_method(), Method::Head);
    assert_eq!(HttpMethod::Options.to_method(), Method::Options);
}

#[test]
fn pincer_mode_parse() {
    assert_eq!(PincerMode::parse("full"), Some(PincerMode::Full));
    assert_eq!(PincerMode::parse("FULL"), Some(PincerMode::Full));
    assert_eq!(PincerMode::parse("wrapper"), Some(PincerMode::Wrapper));
    assert_eq!(PincerMode::parse("impl_only"), Some(PincerMode::ImplOnly));
    assert_eq!(PincerMode::parse("implonly"), Some(PincerMode::ImplOnly));
    assert_eq!(PincerMode::parse("impl-only"), Some(PincerMode::ImplOnly));
    assert_eq!(PincerMode::parse("other"), None);
    assert_eq!(PincerMode::default(), PincerMode::Full);
    assert_eq!(PincerMode::from_lower("FULL"), None);
}

#[test]
fn collection_format_separator() {
    assert_eq!(CollectionFormat::Multi.separator(), None);
    assert_eq!(CollectionFormat::Csv.separator(), Some(","));
    assert_eq!(CollectionFormat::Ssv.separator(), Some(" "));
    assert_eq!(CollectionFormat::Pipes.separator(), Some("|"));
    assert_eq!(CollectionFormat::default(), CollectionFormat::Multi);
}

#[test]
fn collection_format_names() {
    let named = |s: &str| parse_collection_format(s).expect("a known format");
    assert_eq!(named("csv"), CollectionFormat::Csv);
    assert_eq!(named("COMMA"), CollectionFormat::Csv);
    assert_eq!(named("ssv"), CollectionFormat::Ssv);
    assert_eq!(named("space"), CollectionFormat::Ssv);
    assert_eq!(named("pipes"), CollectionFormat::Pipes);
    assert_eq!(named("pipe"), CollectionFormat::Pipes);
    assert_eq!(named("multi"), CollectionFormat::Multi);
    assert_eq!(named("Multi"), CollectionFormat::Multi);
    // an unknown name is refused, not replaced by a default
    for unknown in ["tsv", "", "csv ", "multiple", "TSV"] {
        assert!(matches!(
            parse_collection_format(unknown),
            Err(CompilationError::UnknownCollectionFormat(name)) if name == unknown
        ));
    }
    assert_eq!(CollectionFormat::parse("tsv"), None);
    assert_eq!(CollectionFormat::parse("Csv"), Some(CollectionFormat::Csv));
    assert_eq!(CollectionFormat::from_lower("Csv"), None);
}

#[test]
fn parse_pincer_args_basic() {
    let args = PincerArgs {
        url: Some("https://api.example.com".to_string()),
        ..PincerArgs::default()
    };
    assert!(args.check().is_ok());
    assert_eq!(args.url, Some("https://api.example.com".to_string()));
    assert!(args.user_agent.is_none());
    assert_eq!(args.user_agent(), pincer::binding::DEFAULT_USER_AGENT);
}

#[test]
fn parse_pincer_args_with_user_agent() {
    let args = PincerArgs {
        url: Some("https://api.example.com".to_string()),
        user_agent: Some("my-app/1.0".to_string()),
        ..PincerArgs::default()
    };
    assert!(args.check().is_ok());
    assert_eq!(args.url, Some("https://api.example.com".to_string()));
    assert_eq!(args.user_agent, Some("my-app/1.0".to_string()));
    assert_eq!(args.user_agent(), "my-app/1.0");
}

#[test]
fn parse_pincer_args_missing_url() {
    let args = PincerArgs {
        user_agent: Some("my-app/1.0".to_string()),
        ..PincerArgs::default()
    };
    let result = args.check();
    assert!(matches!(result, Err(CompilationError::MissingUrl)));
}

#[test]
fn pincer_args_modes() {
    let wrapper = PincerArgs::default().with_mode_named("wrapper").expect("mode");
    assert_eq!(wrapper.mode, PincerMode::Wrapper);
    assert!(matches!(wrapper.check(), Err(CompilationError::MissingUrl)));
    let impl_only = PincerArgs::default().with_mode_named("impl_only").expect("mode");
    assert!(impl_only.check().is_ok());
    let unknown = PincerArgs::default().with_mode_named("partial");
    assert!(matches!(unknown, Err(CompilationError::UnknownMode(name)) if name == "partial"));
}

#[test]
fn expand_custom_http_get() {
    let result = parse_method_spec("GET /users/{id}");
    let attrs = result.expect("expand_custom_http should succeed for GET");
    assert_eq!(attrs.method, HttpMethod::Get);
    assert_eq!(attrs.path, "/users/{id}");
}

#[test]
fn expand_custom_http_options() {
    let result = parse_method_spec("OPTIONS /users");
    let attrs = result.expect("expand_custom_http should succeed for OPTIONS");
    assert_eq!(attrs.method, HttpMethod::Options);
    assert_eq!(attrs.path, "/users");
}

#[test]
fn expand_custom_http_invalid_format() {
    let result = parse_method_spec("/users");
    assert!(
        matches!(result, Err(CompilationError::InvalidMethodSpec(s)) if s == "/users"),
        "expand_custom_http should fail without method"
    );
}

#[test]
fn expand_custom_http_invalid_method() {
    let result = parse_method_spec("UNKNOWN /users");
    assert!(
        matches!(result, Err(CompilationError::UnsupportedMethod(s)) if s == "UNKNOWN"),
        "expand_custom_http should fail for unknown method"
    );
}

#[test]
fn method_spec_splits_at_first_space() {
    let attrs = parse_method_spec("post /a b").expect("spec");
    assert_eq!(attrs.method, HttpMethod::Post);
    assert_eq!(attrs.path, "/a b");
    let attrs = parse_method_spec("GET ").expect("spec");
    assert_eq!(attrs.path, "");
    assert!(matches!(
        parse_method_spec(" /x"),
        Err(CompilationError::UnsupportedMethod(s)) if s.is_empty()
    ));
}

#[test]
fn compilation_errors_describe_themselves() {
    let e = CompilationError::UnclassifiedParameter {
        name: "q".to_string(),
        placeholders: vec!["id".to_string(), "n".to_string()],
        method: HttpMethod::Get,
    };
    assert_eq!(
        e.to_string(),
        "parameter 'q' does not match any URL placeholder (available: id, n) and GET requests do not support body"
    );
    let e = CompilationError::UnclassifiedParameter {
        name: "q".to_string(),
        placeholders: vec![],
        method: HttpMethod::Delete,
    };
    assert_eq!(
        e.to_string(),
        "parameter 'q' does not match any URL placeholder (available: ) and DELETE requests do not support body"
    );
    let e = CompilationError::MultipleUnattributed {
        names: vec!["a".to_string(), "b".to_string()],
        placeholders: vec!["id".to_string(), "n".to_string()],
    };
    assert_eq!(
        e.to_string(),
        "multiple unattributed parameters found: a, b (available placeholders: id, n); only one body parameter is allowed"
    );
    let e = CompilationError::UnsatisfiedPlaceholder {
        name: "id".to_string(),
    };
    assert_eq!(e.to_string(), "placeholder 'id' is filled by no path parameter");
    let e = CompilationError::DuplicatePathParameter {
        name: "id".to_string(),
    };
    assert_eq!(
        e.to_string(),
        "placeholder 'id' is filled by more than one path parameter"
    );
    let e = CompilationError::MultipleBodies {
        names: vec!["x".to_string(), "y".to_string(), "z".to_string()],
    };
    assert_eq!(e.to_string(), "more than one parameter holds the body: x, y, z");
    assert_eq!(
        CompilationError::UnknownCollectionFormat("tsv".to_string()).to_string(),
        "unknown collection format: tsv"
    );
    assert_eq!(
        CompilationError::UnknownRenameRule("x".to_string()).to_string(),
        "unknown rename rule: x"
    );
    assert_eq!(
        CompilationError::InvalidMethodSpec("/users".to_string()).to_string(),
        "expected a method and a path, such as \"GET /users/{id}\", found: /users"
    );
    assert_eq!(
        CompilationError::UnsupportedMethod("TRACE".to_string()).to_string(),
        "unsupported HTTP method: TRACE"
    );
    assert_eq!(
        CompilationError::UnknownMode("half".to_string()).to_string(),
        "unknown mode: half"
    );
    assert_eq!(
        CompilationError::MissingUrl.to_string(),
        "missing base URL (required for the full and wrapper modes)"
    );
}

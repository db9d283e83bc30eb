use pincer::{ContentType, Method, ParamLocation, ParamMeta, ParameterMetadata, PathTemplate};

#[test]
fn content_type_as_str() {
    assert_eq!(ContentType::Json.as_str(), "application/json");
    assert_eq!(
        ContentType::FormUrlEncoded.as_str(),
        "application/x-www-form-urlencoded"
    );
    assert_eq!(ContentType::PlainText.as_str(), "text/plain");
    assert_eq!(
        ContentType::OctetStream.as_str(),
        "application/octet-stream"
    );
}

#[test]
fn content_type_display() {
    assert_eq!(ContentType::Json.to_string(), "application/json");
}

#[test]
fn method_display() {
    assert_eq!(Method::Get.to_string(), "GET");
    assert_eq!(Method::Post.to_string(), "POST");
    assert_eq!(Method::Put.to_string(), "PUT");
    assert_eq!(Method::Delete.to_string(), "DELETE");
    assert_eq!(Method::Patch.to_string(), "PATCH");
    assert_eq!(Method::Head.to_string(), "HEAD");
    assert_eq!(Method::Options.to_string(), "OPTIONS");
}

#[test]
fn method_is_safe() {
    assert!(Method::Get.is_safe());
    assert!(Method::Head.is_safe());
    assert!(Method::Options.is_safe());
    assert!(!Method::Post.is_safe());
    assert!(!Method::Put.is_safe());
    assert!(!Method::Delete.is_safe());
    assert!(!Method::Patch.is_safe());
}

#[test]
fn method_is_idempotent() {
    assert!(Method::Get.is_idempotent());
    assert!(Method::Head.is_idempotent());
    assert!(Method::Options.is_idempotent());
    assert!(Method::Put.is_idempotent());
    assert!(Method::Delete.is_idempotent());
    assert!(!Method::Post.is_idempotent());
    assert!(!Method::Patch.is_idempotent());
}

#[test]
fn param_location_display() {
    assert_eq!(ParamLocation::Path.to_string(), "path");
    assert_eq!(ParamLocation::Query.to_string(), "query");
    assert_eq!(ParamLocation::Header.to_string(), "header");
    assert_eq!(ParamLocation::Body.to_string(), "body");
    assert_eq!(ParamLocation::Form.to_string(), "form");
}

#[test]
fn param_meta_construction() {
    let meta = ParamMeta {
        name: "id".to_string(),
        location: ParamLocation::Path,
        declared_type: "u64".to_string(),
        required: true,
    };
    assert_eq!(meta.name, "id");
    assert_eq!(meta.location, ParamLocation::Path);
    assert_eq!(meta.declared_type, "u64");
    assert!(meta.required);
}

#[test]
fn parameter_metadata_construction() {
    let params = vec![
        ParamMeta {
            name: "id".to_string(),
            location: ParamLocation::Path,
            declared_type: "u64".to_string(),
            required: true,
        },
        ParamMeta {
            name: "limit".to_string(),
            location: ParamLocation::Query,
            declared_type: "Option<u32>".to_string(),
            required: false,
        },
    ];

    let meta = ParameterMetadata {
        method_name: "get_user".to_string(),
        parameters: params,
    };

    assert_eq!(meta.method_name, "get_user");
    assert_eq!(meta.parameters.len(), 2);
    assert_eq!(meta.parameters.first().expect("first param").name, "id");
    assert_eq!(meta.parameters.get(1).expect("second param").name, "limit");
}

#[test]
fn parameter_metadata_default() {
    let meta = ParameterMetadata::default();
    assert_eq!(meta.method_name, "");
    assert!(meta.parameters.is_empty());
}

#[test]
fn path_template_as_str() {
    let template = PathTemplate::new("/users/{id}/posts/{post_id}");
    assert_eq!(template.as_str(), "/users/{id}/posts/{post_id}");
}

#[test]
fn path_template_as_ref() {
    let template = PathTemplate::new("/users/{id}");
    let s: &str = template.as_ref();
    assert_eq!(s, "/users/{id}");
}

#[test]
fn method_into_http() {
    let into = |m: Method| http::Method::from_bytes(m.as_str().as_bytes()).expect("a method");
    assert_eq!(into(Method::Get), http::Method::GET);
    assert_eq!(into(Method::Post), http::Method::POST);
    assert_eq!(into(Method::Put), http::Method::PUT);
    assert_eq!(into(Method::Delete), http::Method::DELETE);
    assert_eq!(into(Method::Patch), http::Method::PATCH);
    assert_eq!(into(Method::Head), http::Method::HEAD);
    assert_eq!(into(Method::Options), http::Method::OPTIONS);
}

#[test]
fn method_from_http() {
    assert_eq!(
        Method::from_name(http::Method::GET.as_str()).expect("GET"),
        Method::Get
    );
    assert_eq!(
        Method::from_name(http::Method::POST.as_str()).expect("POST"),
        Method::Post
    );
    assert_eq!(
        Method::from_name(http::Method::OPTIONS.as_str()).expect("OPTIONS"),
        Method::Options
    );
    let other = Method::from_name(http::Method::TRACE.as_str());
    assert!(matches!(
        other,
        Err(pincer::Error::InvalidRequest(m)) if m == "unsupported HTTP method: TRACE"
    ));
    assert!(Method::from_name("get").is_err());
}

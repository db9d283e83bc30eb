use pincer::{DefaultErrorDecoder, Error, ErrorDecoder};

#[test]
fn error_display() {
    let err = Error::http(404, "Not Found");
    assert_eq!(err.to_string(), "HTTP error 404: Not Found");

    let err = Error::Timeout;
    assert_eq!(err.to_string(), "request timeout");

    let err = Error::connection("failed to connect");
    assert_eq!(err.to_string(), "connection error: failed to connect");

    let err = Error::json_deserialization("user.address.city", "missing field `city`");
    assert_eq!(
        err.to_string(),
        "JSON deserialization error at 'user.address.city': missing field `city`"
    );
}

#[test]
fn error_display_of_every_variant() {
    assert_eq!(Error::tls("bad cert").to_string(), "TLS error: bad cert");
    assert_eq!(
        Error::invalid_request("no").to_string(),
        "invalid request: no"
    );
    assert_eq!(
        Error::JsonSerialization("x".to_string()).to_string(),
        "JSON serialization error: x"
    );
    assert_eq!(
        Error::FormSerialization("y".to_string()).to_string(),
        "form serialization error: y"
    );
    assert_eq!(
        Error::QuerySerialization("z".to_string()).to_string(),
        "query serialization error: z"
    );
    assert_eq!(
        Error::TooManyRedirects { count: 11, max: 10 }.to_string(),
        "too many redirects (11 exceeded max of 10)"
    );
    assert_eq!(
        Error::InvalidRedirect("where".to_string()).to_string(),
        "invalid redirect: where"
    );
    let parse = url::Url::parse("not a url").expect_err("no url");
    assert_eq!(
        Error::InvalidUrl(parse).to_string(),
        format!("invalid URL: {parse}")
    );
    assert_eq!(Error::http(0, "").to_string(), "HTTP error 0: ");
    assert_eq!(Error::http(65535, "m").to_string(), "HTTP error 65535: m");
}

#[test]
fn error_status() {
    let err = Error::http(404, "Not Found");
    assert_eq!(err.status(), Some(404));
    assert!(err.is_client_error());
    assert!(!err.is_server_error());

    let err = Error::http(500, "Internal Server Error");
    assert_eq!(err.status(), Some(500));
    assert!(!err.is_client_error());
    assert!(err.is_server_error());

    let err = Error::Timeout;
    assert_eq!(err.status(), None);
    assert!(!err.is_client_error());
    assert!(!err.is_server_error());
}

#[test]
fn error_status_ranges() {
    assert!(Error::http(400, "").is_client_error());
    assert!(Error::http(499, "").is_client_error());
    assert!(!Error::http(399, "").is_client_error());
    assert!(Error::http(599, "").is_server_error());
    assert!(!Error::http(600, "").is_server_error());
}

#[test]
fn error_is_timeout() {
    assert!(Error::Timeout.is_timeout());
    assert!(!Error::http(404, "Not Found").is_timeout());
}

#[test]
fn error_is_connection() {
    assert!(Error::connection("failed").is_connection());
    assert!(!Error::Timeout.is_connection());
}

#[test]
fn error_is_not_found() {
    assert!(Error::http(404, "Not Found").is_not_found());
    assert!(!Error::http(400, "Bad Request").is_not_found());
    assert!(!Error::Timeout.is_not_found());
}

#[test]
fn error_body() {
    let err = Error::http(404, "Not Found");
    assert!(err.body().is_none());

    let body = bytes::Bytes::from(r#"{"error": "not found"}"#);
    let err = Error::http_with_body(404, "Not Found", body.clone());
    assert_eq!(err.body(), Some(&body));

    assert!(Error::Timeout.body().is_none());
}

#[test]
fn default_error_decoder() {
    let decoder = DefaultErrorDecoder;
    let body = bytes::Bytes::from("test");
    assert!(decoder.decode(404, &body).is_none());
    assert!(decoder.decode(500, &body).is_none());
}

#[test]
fn transport_failures() {
    assert!(matches!(
        Error::from_transport("tls handshake failed", true),
        Error::Connection(m) if m == "tls handshake failed"
    ));
    assert!(matches!(
        Error::from_transport("tls handshake failed", false),
        Error::Tls(m) if m == "tls handshake failed"
    ));
    assert!(matches!(
        Error::from_transport("bad certificate", false),
        Error::Tls(_)
    ));
    assert!(matches!(
        Error::from_transport("openssl said no", false),
        Error::Tls(_)
    ));
    assert!(matches!(
        Error::from_transport("connection reset", false),
        Error::Connection(m) if m == "connection reset"
    ));
    // the words are looked for as they are written
    assert!(matches!(
        Error::from_transport("TLS", false),
        Error::Connection(_)
    ));
    assert!(matches!(Error::from_transport("", false), Error::Connection(m) if m.is_empty()));
    assert!(pincer::text::contains_str("abc", ""));
    assert!(pincer::text::contains_str("", ""));
    assert!(!pincer::text::contains_str("", "a"));
    assert!(pincer::text::contains_str("xxabc", "abc"));
    assert!(!pincer::text::contains_str("ab", "abc"));
}

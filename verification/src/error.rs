//! Errors: those of compiling a declaration and those of making a call.

use vstd::prelude::*;
use crate::attrs::HttpMethod;
use crate::specs::urls::{parse_error_message, parse_error_text};
use crate::text::{
    contains_str, decimal_of, decimal_string, join_texts, joined, occurs, texts,
};

verus! {

/// Why a declaration cannot be compiled. Compilation stops at the first of
/// these: no part of a plan is usable after one.
#[derive(Debug)]
pub enum CompilationError {
    /// One parameter has no role and matches no placeholder, and the verb
    /// carries no body.
    UnclassifiedParameter {
        /// The parameter's name.
        name: String,
        /// The placeholders of the path template.
        placeholders: Vec<String>,
        /// The verb of the endpoint.
        method: HttpMethod,
    },
    /// More than one parameter has no role and matches no placeholder, so that
    /// none of them can be taken for the body.
    MultipleUnattributed {
        /// The names of those parameters, in declaration order.
        names: Vec<String>,
        /// The placeholders of the path template.
        placeholders: Vec<String>,
    },
    /// A placeholder of the path template is filled by no path parameter.
    UnsatisfiedPlaceholder {
        /// The placeholder's name.
        name: String,
    },
    /// A placeholder of the path template is filled by more than one path parameter.
    DuplicatePathParameter {
        /// The placeholder's name.
        name: String,
    },
    /// More than one parameter holds the request body.
    MultipleBodies {
        /// The names of the body-bearing parameters, in declaration order.
        names: Vec<String>,
    },
    /// A collection format's name is unknown.
    UnknownCollectionFormat(String),
    /// A rename rule's name is unknown.
    UnknownRenameRule(String),
    /// A verb specification is not of the form `METHOD /path`.
    InvalidMethodSpec(String),
    /// The verb of a verb specification is none of the supported methods.
    UnsupportedMethod(String),
    /// A binding mode's name is unknown.
    UnknownMode(String),
    /// The binding mode needs a base URL and none was declared.
    MissingUrl,
}

impl CompilationError {
    /// The text that describes the fault, with the names that it is about.
    pub open spec fn text(self) -> Seq<char> {
        match self {
            CompilationError::UnclassifiedParameter { name, placeholders, method } => "parameter '"@
                + name@ + "' does not match any URL placeholder (available: "@ + joined(
                texts(placeholders@),
                ", "@,
            ) + ") and "@ + method.method().name() + " requests do not support body"@,
            CompilationError::MultipleUnattributed { names, placeholders } =>
                "multiple unattributed parameters found: "@ + joined(texts(names@), ", "@)
                    + " (available placeholders: "@ + joined(texts(placeholders@), ", "@)
                    + "); only one body parameter is allowed"@,
            CompilationError::UnsatisfiedPlaceholder { name } => "placeholder '"@ + name@
                + "' is filled by no path parameter"@,
            CompilationError::DuplicatePathParameter { name } => "placeholder '"@ + name@
                + "' is filled by more than one path parameter"@,
            CompilationError::MultipleBodies { names } =>
                "more than one parameter holds the body: "@ + joined(texts(names@), ", "@),
            CompilationError::UnknownCollectionFormat(s) => "unknown collection format: "@ + s@,
            CompilationError::UnknownRenameRule(s) => "unknown rename rule: "@ + s@,
            CompilationError::InvalidMethodSpec(s) =>
                "expected a method and a path, such as \"GET /users/{id}\", found: "@ + s@,
            CompilationError::UnsupportedMethod(s) => "unsupported HTTP method: "@ + s@,
            CompilationError::UnknownMode(s) => "unknown mode: "@ + s@,
            CompilationError::MissingUrl =>
                "missing base URL (required for the full and wrapper modes)"@,
        }
    }

    /// The text that describes the fault, with the names that it is about.
    #[must_use]
    pub fn to_string(&self) -> (r: String)
        ensures
            r@ == self.text(),
    {
        match self {
            CompilationError::UnclassifiedParameter { name, placeholders, method } => {
                let mut out = "parameter '".to_owned();
                out.append(name.as_str());
                out.append("' does not match any URL placeholder (available: ");
                out.append(join_texts(placeholders, ", ").as_str());
                out.append(") and ");
                out.append(method.to_method().as_str());
                out.append(" requests do not support body");
                out
            },
            CompilationError::MultipleUnattributed { names, placeholders } => {
                let mut out = "multiple unattributed parameters found: ".to_owned();
                out.append(join_texts(names, ", ").as_str());
                out.append(" (available placeholders: ");
                out.append(join_texts(placeholders, ", ").as_str());
                out.append("); only one body parameter is allowed");
                out
            },
            CompilationError::UnsatisfiedPlaceholder { name } => {
                let mut out = "placeholder '".to_owned();
                out.append(name.as_str());
                out.append("' is filled by no path parameter");
                out
            },
            CompilationError::DuplicatePathParameter { name } => {
                let mut out = "placeholder '".to_owned();
                out.append(name.as_str());
                out.append("' is filled by more than one path parameter");
                out
            },
            CompilationError::MultipleBodies { names } => prefixed(
                "more than one parameter holds the body: ",
                join_texts(names, ", ").as_str(),
            ),
            CompilationError::UnknownCollectionFormat(s) => prefixed(
                "unknown collection format: ",
                s.as_str(),
            ),
            CompilationError::UnknownRenameRule(s) => prefixed("unknown rename rule: ", s.as_str()),
            CompilationError::InvalidMethodSpec(s) => prefixed(
                "expected a method and a path, such as \"GET /users/{id}\", found: ",
                s.as_str(),
            ),
            CompilationError::UnsupportedMethod(s) => prefixed(
                "unsupported HTTP method: ",
                s.as_str(),
            ),
            CompilationError::UnknownMode(s) => prefixed("unknown mode: ", s.as_str()),
            CompilationError::MissingUrl =>
                "missing base URL (required for the full and wrapper modes)".to_owned(),
        }
    }
}

/// Decoders of HTTP error responses into typed errors.
///
/// A decoder sees the status code and the body of a response and either
/// gives the typed error that they hold, or `None` to leave the response to
/// the plain HTTP error.
pub trait ErrorDecoder {
    /// The decoded error type.
    type Error;

    /// Decode an HTTP error response into a typed error.
    fn decode(&self, status: u16, body: &bytes::Bytes) -> Option<Self::Error>;
}

/// Default error decoder that always returns `None`.
#[derive(Debug, Clone, Copy)]
pub struct DefaultErrorDecoder;

impl Default for DefaultErrorDecoder {
    fn default() -> Self {
        DefaultErrorDecoder
    }
}

impl ErrorDecoder for DefaultErrorDecoder {
    type Error = ();

    fn decode(&self, status: u16, body: &bytes::Bytes) -> (r: Option<()>)
        ensures
            r is None,
    {
        None
    }
}

/// Main error type of a call.
#[derive(Debug)]
pub enum Error {
    /// HTTP-level errors (non-2xx status codes).
    Http {
        /// HTTP status code.
        status: u16,
        /// Error message.
        message: String,
        /// Response body, if available.
        body: Option<bytes::Bytes>,
    },
    /// Network/connection errors.
    Connection(String),
    /// TLS/SSL errors.
    Tls(String),
    /// Request timeout.
    Timeout,
    /// Invalid request configuration.
    InvalidRequest(String),
    /// JSON serialization error, with the encoder's message.
    JsonSerialization(String),
    /// JSON deserialization error with path context.
    JsonDeserialization {
        /// JSON path to the error (e.g., "user.address.city").
        path: String,
        /// Error message.
        message: String,
    },
    /// Form URL-encoded serialization error, with the encoder's message.
    FormSerialization(String),
    /// Query string serialization error, with the encoder's message.
    QuerySerialization(String),
    /// URL parsing error.
    InvalidUrl(url::ParseError),
    /// Too many redirects.
    TooManyRedirects {
        /// Number of redirects followed.
        count: usize,
        /// Maximum allowed redirects.
        max: usize,
    },
    /// Invalid redirect response.
    InvalidRedirect(String),
}

/// Result type of a call.
pub type Result<T> = std::result::Result<T, Error>;

/// True for the message of a failure that has to do with TLS: it speaks of
/// `ssl`, `tls` or a `certificate`.
pub open spec fn speaks_of_tls(message: Seq<char>) -> bool {
    occurs(message, "ssl"@) || occurs(message, "tls"@) || occurs(message, "certificate"@)
}

impl Error {
    /// The error for a failure of the transport. A failure to connect is a
    /// connection error. Of the others, one whose message speaks of TLS is a
    /// TLS error, and any other is a connection error too.
    #[must_use]
    pub fn from_transport(message: &str, failed_to_connect: bool) -> (r: Self)
        ensures
            !failed_to_connect && speaks_of_tls(message@) ==> (r matches Error::Tls(m) && m@
                == message@),
            failed_to_connect || !speaks_of_tls(message@) ==> (r matches Error::Connection(m)
                && m@ == message@),
    {
        if failed_to_connect {
            return Error::connection(message);
        }
        if contains_str(message, "ssl") || contains_str(message, "tls") || contains_str(
            message,
            "certificate",
        ) {
            return Error::tls(message);
        }
        Error::connection(message)
    }

    /// The status code of an HTTP error.
    pub open spec fn http_status(self) -> Option<u16> {
        match self {
            Error::Http { status, .. } => Some(status),
            _ => None,
        }
    }

    /// The text that describes the error.
    pub open spec fn text(self) -> Seq<char> {
        match self {
            Error::Http { status, message, .. } => "HTTP error "@ + decimal_of(status as nat)
                + ": "@ + message@,
            Error::Connection(m) => "connection error: "@ + m@,
            Error::Tls(m) => "TLS error: "@ + m@,
            Error::Timeout => "request timeout"@,
            Error::InvalidRequest(m) => "invalid request: "@ + m@,
            Error::JsonSerialization(m) => "JSON serialization error: "@ + m@,
            Error::JsonDeserialization { path, message } => "JSON deserialization error at '"@
                + path@ + "': "@ + message@,
            Error::FormSerialization(m) => "form serialization error: "@ + m@,
            Error::QuerySerialization(m) => "query serialization error: "@ + m@,
            Error::InvalidUrl(e) => "invalid URL: "@ + parse_error_text(e),
            Error::TooManyRedirects { count, max } => "too many redirects ("@ + decimal_of(
                count as nat,
            ) + " exceeded max of "@ + decimal_of(max as nat) + ")"@,
            Error::InvalidRedirect(m) => "invalid redirect: "@ + m@,
        }
    }

    /// Create an HTTP error from status code and message.
    #[must_use]
    pub fn http(status: u16, message: &str) -> (r: Self)
        ensures
            r matches Error::Http { status: s, message: m, body: b } && s == status && m@
                == message@ && b is None,
    {
        Error::Http { status, message: message.to_owned(), body: None }
    }

    /// Create an HTTP error with body.
    #[must_use]
    pub fn http_with_body(status: u16, message: &str, body: bytes::Bytes) -> (r: Self)
        ensures
            r matches Error::Http { status: s, message: m, body: b } && s == status && m@
                == message@ && b == Some(body),
    {
        Error::Http { status, message: message.to_owned(), body: Some(body) }
    }

    /// Create a connection error.
    #[must_use]
    pub fn connection(message: &str) -> (r: Self)
        ensures
            r matches Error::Connection(m) && m@ == message@,
    {
        Error::Connection(message.to_owned())
    }

    /// Create a TLS error.
    #[must_use]
    pub fn tls(message: &str) -> (r: Self)
        ensures
            r matches Error::Tls(m) && m@ == message@,
    {
        Error::Tls(message.to_owned())
    }

    /// Create an invalid request error.
    #[must_use]
    pub fn invalid_request(message: &str) -> (r: Self)
        ensures
            r matches Error::InvalidRequest(m) && m@ == message@,
    {
        Error::InvalidRequest(message.to_owned())
    }

    /// Create a JSON deserialization error with path context.
    #[must_use]
    pub fn json_deserialization(path: &str, message: &str) -> (r: Self)
        ensures
            r matches Error::JsonDeserialization { path: p, message: m } && p@ == path@ && m@
                == message@,
    {
        Error::JsonDeserialization { path: path.to_owned(), message: message.to_owned() }
    }

    /// Returns `true` if this is a timeout error.
    #[must_use]
    pub fn is_timeout(&self) -> (r: bool)
        ensures
            r == (*self is Timeout),
    {
        match self {
            Error::Timeout => true,
            _ => false,
        }
    }

    /// Returns `true` if this is a connection error.
    #[must_use]
    pub fn is_connection(&self) -> (r: bool)
        ensures
            r == (*self is Connection),
    {
        match self {
            Error::Connection(_) => true,
            _ => false,
        }
    }

    /// Returns the HTTP status code if this is an HTTP error.
    #[must_use]
    pub fn status(&self) -> (r: Option<u16>)
        ensures
            r == self.http_status(),
    {
        match self {
            Error::Http { status, .. } => Some(*status),
            _ => None,
        }
    }

    /// Returns `true` if this is a client error (4xx).
    #[must_use]
    pub fn is_client_error(&self) -> (r: bool)
        ensures
            r == (self.http_status() matches Some(s) && 400 <= s < 500),
    {
        match self.status() {
            Some(s) => 400 <= s && s < 500,
            None => false,
        }
    }

    /// Returns `true` if this is a server error (5xx).
    #[must_use]
    pub fn is_server_error(&self) -> (r: bool)
        ensures
            r == (self.http_status() matches Some(s) && 500 <= s < 600),
    {
        match self.status() {
            Some(s) => 500 <= s && s < 600,
            None => false,
        }
    }

    /// Returns `true` if this is a 404 Not Found error.
    #[must_use]
    pub fn is_not_found(&self) -> (r: bool)
        ensures
            r == (self.http_status() == Some(404u16)),
    {
        match self.status() {
            Some(s) => s == 404,
            None => false,
        }
    }

    /// Returns the response body if this is an HTTP error with a body.
    #[must_use]
    pub fn body(&self) -> (r: Option<&bytes::Bytes>)
        ensures
            match *self {
                Error::Http { body: Some(b), .. } => r == Some(&b),
                _ => r is None,
            },
    {
        match self {
            Error::Http { body, .. } => body.as_ref(),
            _ => None,
        }
    }

    /// The text that describes the error.
    #[must_use]
    pub fn to_string(&self) -> (r: String)
        ensures
            r@ == self.text(),
    {
        match self {
            Error::Http { status, message, .. } => {
                let mut out = "HTTP error ".to_owned();
                out.append(decimal_string(*status as u64).as_str());
                out.append(": ");
                out.append(message.as_str());
                out
            },
            Error::Connection(m) => prefixed("connection error: ", m.as_str()),
            Error::Tls(m) => prefixed("TLS error: ", m.as_str()),
            Error::Timeout => "request timeout".to_owned(),
            Error::InvalidRequest(m) => prefixed("invalid request: ", m.as_str()),
            Error::JsonSerialization(m) => prefixed("JSON serialization error: ", m.as_str()),
            Error::JsonDeserialization { path, message } => {
                let mut out = "JSON deserialization error at '".to_owned();
                out.append(path.as_str());
                out.append("': ");
                out.append(message.as_str());
                out
            },
            Error::FormSerialization(m) => prefixed("form serialization error: ", m.as_str()),
            Error::QuerySerialization(m) => prefixed("query serialization error: ", m.as_str()),
            Error::InvalidUrl(e) => prefixed("invalid URL: ", parse_error_message(e).as_str()),
            Error::TooManyRedirects { count, max } => {
                let mut out = "too many redirects (".to_owned();
                out.append(decimal_string(*count as u64).as_str());
                out.append(" exceeded max of ");
                out.append(decimal_string(*max as u64).as_str());
                out.append(")");
                out
            },
            Error::InvalidRedirect(m) => prefixed("invalid redirect: ", m.as_str()),
        }
    }
}

/// One text behind another.
pub fn prefixed(head: &str, tail: &str) -> (r: String)
    ensures
        r@ == head@ + tail@,
{
    let mut out = head.to_owned();
    out.append(tail);
    out
}

} // verus!

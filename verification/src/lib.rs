//! Declarative HTTP endpoints: rules that turn a description of an endpoint
//! into requests and that interpret the responses.

pub mod assemble;
pub mod attrs;
pub mod binding;
pub mod body;
pub mod classify;
pub mod config;
pub mod error;
pub mod headers;
pub mod interpret;
pub mod method;
pub mod middleware;
pub mod multipart;
pub mod param_meta;
pub mod path;
pub mod path_template;
pub mod plan;
pub mod query;
pub mod rename;
pub mod request;
pub mod response;
pub mod specs;
pub mod text;
pub mod types;

pub use crate::assemble::{build_request, build_request_now, ArgValue, Argument};
pub use crate::attrs::{
    extract_path_placeholders, parse_collection_format, parse_duration_string, CollectionFormat,
    HttpMethod, MethodAttrs, MethodOptions, MultipartOptions, ParamKind, PincerMode, QueryOptions,
};
pub use crate::binding::{ApiClient, ClientBuilder, PincerArgs, PincerClient};
pub use crate::body::{to_form, to_query_string, ContentType};
pub use crate::classify::{parse_method_params, MethodParam, ParamDecl};
pub use crate::config::{ClientConfig, ClientConfigBuilder};
pub use crate::error::{CompilationError, DefaultErrorDecoder, Error, ErrorDecoder, Result};
pub use crate::headers::Headers;
pub use crate::interpret::{interpret_response, Decoded, TransportEvent};
pub use crate::method::Method;
pub use crate::multipart::{Form, Part};
pub use crate::param_meta::{ParamLocation, ParamMeta, ParameterMetadata};
pub use crate::path_template::PathTemplate;
pub use crate::plan::{compile_endpoint, EndpointDeclaration, RequestPlan};
pub use crate::query::{FieldValue, QueryField, QueryRecord, ToQueryPairs};
pub use crate::rename::RenameRule;
pub use crate::request::{Extensions, Request, RequestBuilder};
pub use crate::response::Response;
pub use crate::types::{analyze_return_type, ReturnTypeKind, TypeDesc};

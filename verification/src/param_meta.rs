//! Parameter metadata that travels with a request.
//!
//! Middleware can read it for documentation, validation and debugging; it is
//! no part of what goes over the wire.

use vstd::prelude::*;

verus! {

/// Parameter location in the HTTP request.
#[derive(Debug, Clone, Copy, PartialEq, Eq, Hash, Structural)]
pub enum ParamLocation {
    /// Path parameter (e.g., `/users/{id}`)
    Path,
    /// Query parameter (e.g., `?limit=10`)
    Query,
    /// Header parameter
    Header,
    /// Request body (JSON)
    Body,
    /// Form data (URL-encoded or multipart)
    Form,
}

impl ParamLocation {
    /// The location in lower case.
    pub open spec fn label(self) -> Seq<char> {
        match self {
            ParamLocation::Path => "path"@,
            ParamLocation::Query => "query"@,
            ParamLocation::Header => "header"@,
            ParamLocation::Body => "body"@,
            ParamLocation::Form => "form"@,
        }
    }

    /// The location in lower case.
    #[must_use]
    pub fn as_str(&self) -> (r: &'static str)
        ensures
            r@ == self.label(),
    {
        match self {
            ParamLocation::Path => "path",
            ParamLocation::Query => "query",
            ParamLocation::Header => "header",
            ParamLocation::Body => "body",
            ParamLocation::Form => "form",
        }
    }

    /// The location in lower case, as an owned string.
    #[must_use]
    pub fn to_string(&self) -> (r: String)
        ensures
            r@ == self.label(),
    {
        self.as_str().to_owned()
    }
}

/// Metadata about a single parameter.
#[derive(Debug, PartialEq, Eq)]
pub struct ParamMeta {
    /// The parameter name as declared in the method signature.
    pub name: String,
    /// Where the parameter is sent in the HTTP request.
    pub location: ParamLocation,
    /// The declared type's name (e.g., "u64", "Option<String>").
    pub declared_type: String,
    /// Whether the parameter is required (not an optional type).
    pub required: bool,
}

/// All parameter metadata for a method call.
#[derive(Debug, PartialEq, Eq)]
pub struct ParameterMetadata {
    /// The method name that was called.
    pub method_name: String,
    /// Metadata for each parameter.
    pub parameters: Vec<ParamMeta>,
}

/// The metadata of a parameter in contracts.
pub struct ParamMetaView {
    /// The parameter name.
    pub name: Seq<char>,
    /// Where the parameter is sent.
    pub location: ParamLocation,
    /// The declared type's name.
    pub declared_type: Seq<char>,
    /// Whether the parameter is required.
    pub required: bool,
}

impl View for ParamMeta {
    type V = ParamMetaView;

    open spec fn view(&self) -> ParamMetaView {
        ParamMetaView {
            name: self.name@,
            location: self.location,
            declared_type: self.declared_type@,
            required: self.required,
        }
    }
}

/// The metadata of a call in contracts: the method name and the parameters.
pub struct ParameterMetadataView {
    /// The method name.
    pub method_name: Seq<char>,
    /// The metadata of each parameter, in order.
    pub parameters: Seq<ParamMetaView>,
}

/// The views of a sequence of parameter metadata.
pub open spec fn meta_views(params: Seq<ParamMeta>) -> Seq<ParamMetaView> {
    Seq::new(params.len(), |i: int| params[i]@)
}

impl View for ParameterMetadata {
    type V = ParameterMetadataView;

    open spec fn view(&self) -> ParameterMetadataView {
        ParameterMetadataView {
            method_name: self.method_name@,
            parameters: meta_views(self.parameters@),
        }
    }
}

impl Clone for ParamMeta {
    fn clone(&self) -> (r: Self)
        ensures
            r@ == self@,
    {
        ParamMeta {
            name: self.name.clone(),
            location: self.location,
            declared_type: self.declared_type.clone(),
            required: self.required,
        }
    }
}

impl Clone for ParameterMetadata {
    fn clone(&self) -> (r: Self)
        ensures
            r@ == self@,
    {
        let mut parameters: Vec<ParamMeta> = Vec::new();
        let mut i: usize = 0;
        while i < self.parameters.len()
            invariant
                i <= self.parameters.len(),
                meta_views(parameters@) == meta_views(self.parameters@).take(i as int),
            decreases self.parameters.len() - i,
        {
            let p = self.parameters[i].clone();
            proof {
                assert(meta_views(parameters@.push(p)) == meta_views(parameters@).push(p@));
            }
            parameters.push(p);
            i += 1;
        }
        proof {
            assert(meta_views(self.parameters@).take(self.parameters.len() as int)
                == meta_views(self.parameters@));
        }
        ParameterMetadata { method_name: self.method_name.clone(), parameters }
    }
}

impl Default for ParameterMetadata {
    fn default() -> (r: Self)
        ensures
            r.method_name@.len() == 0,
            r.parameters@.len() == 0,
    {
        ParameterMetadata { method_name: String::new(), parameters: Vec::new() }
    }
}

} // verus!

//! HTTP request methods.

use vstd::prelude::*;
use crate::error::{prefixed, Error};

verus! {

/// HTTP request method.
#[derive(Debug, Clone, Copy, PartialEq, Eq, Hash, Structural)]
pub enum Method {
    /// GET: retrieve a resource.
    Get,
    /// POST: create a resource.
    Post,
    /// PUT: replace a resource.
    Put,
    /// DELETE: remove a resource.
    Delete,
    /// PATCH: partially update a resource.
    Patch,
    /// HEAD: retrieve headers only.
    Head,
    /// OPTIONS: retrieve the allowed methods.
    Options,
}

impl Method {
    /// The method's name on the wire.
    pub open spec fn name(self) -> Seq<char> {
        match self {
            Method::Get => "GET"@,
            Method::Post => "POST"@,
            Method::Put => "PUT"@,
            Method::Delete => "DELETE"@,
            Method::Patch => "PATCH"@,
            Method::Head => "HEAD"@,
            Method::Options => "OPTIONS"@,
        }
    }

    /// The method with the given name on the wire, if it is one.
    pub open spec fn named(name: Seq<char>) -> Option<Method> {
        if name == "GET"@ {
            Some(Method::Get)
        } else if name == "POST"@ {
            Some(Method::Post)
        } else if name == "PUT"@ {
            Some(Method::Put)
        } else if name == "DELETE"@ {
            Some(Method::Delete)
        } else if name == "PATCH"@ {
            Some(Method::Patch)
        } else if name == "HEAD"@ {
            Some(Method::Head)
        } else if name == "OPTIONS"@ {
            Some(Method::Options)
        } else {
            None
        }
    }

    /// The method with the given name on the wire. The name is taken as it is
    /// written; any other name is an invalid request.
    pub fn from_name(name: &str) -> (r: Result<Self, Error>)
        ensures
            match Self::named(name@) {
                Some(m) => r matches Ok(x) && x == m,
                None => r matches Err(Error::InvalidRequest(message)) && message@
                    == "unsupported HTTP method: "@ + name@,
            },
    {
        if name.eq("GET") {
            Ok(Method::Get)
        } else if name.eq("POST") {
            Ok(Method::Post)
        } else if name.eq("PUT") {
            Ok(Method::Put)
        } else if name.eq("DELETE") {
            Ok(Method::Delete)
        } else if name.eq("PATCH") {
            Ok(Method::Patch)
        } else if name.eq("HEAD") {
            Ok(Method::Head)
        } else if name.eq("OPTIONS") {
            Ok(Method::Options)
        } else {
            Err(Error::InvalidRequest(prefixed("unsupported HTTP method: ", name)))
        }
    }

    /// Returns `true` if the method is safe (does not modify resources).
    #[must_use]
    pub fn is_safe(&self) -> (r: bool)
        ensures
            r == (*self is Get || *self is Head || *self is Options),
    {
        match self {
            Method::Get | Method::Head | Method::Options => true,
            _ => false,
        }
    }

    /// Returns `true` if the method is idempotent.
    #[must_use]
    pub fn is_idempotent(&self) -> (r: bool)
        ensures
            r == !(*self is Post || *self is Patch),
    {
        match self {
            Method::Post | Method::Patch => false,
            _ => true,
        }
    }

    /// The method's name on the wire, in upper case.
    #[must_use]
    pub fn as_str(&self) -> (r: &'static str)
        ensures
            r@ == self.name(),
    {
        match self {
            Method::Get => "GET",
            Method::Post => "POST",
            Method::Put => "PUT",
            Method::Delete => "DELETE",
            Method::Patch => "PATCH",
            Method::Head => "HEAD",
            Method::Options => "OPTIONS",
        }
    }

    /// The method's name on the wire, as an owned string.
    #[must_use]
    pub fn to_string(&self) -> (r: String)
        ensures
            r@ == self.name(),
    {
        self.as_str().to_owned()
    }
}

} // verus!

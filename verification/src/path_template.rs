//! The path template that a request was built from.

use vstd::prelude::*;

verus! {

/// A path template as declared, before parameter substitution.
///
/// It travels with a request so that middleware can see the pattern
/// (`/users/{id}`) rather than the resolved path (`/users/123`).
#[derive(Debug, PartialEq, Eq, Hash)]
pub struct PathTemplate(pub String);

impl View for PathTemplate {
    type V = Seq<char>;

    open spec fn view(&self) -> Seq<char> {
        self.0@
    }
}

impl PathTemplate {
    /// Create a new path template.
    #[must_use]
    pub fn new(template: &str) -> (r: Self)
        ensures
            r@ == template@,
    {
        PathTemplate(template.to_owned())
    }

    /// Get the template string.
    #[must_use]
    pub fn as_str(&self) -> (r: &str)
        ensures
            r@ == self@,
    {
        self.0.as_str()
    }

    /// The template as an owned string.
    #[must_use]
    pub fn to_string(&self) -> (r: String)
        ensures
            r@ == self@,
    {
        self.0.clone()
    }
}

impl Clone for PathTemplate {
    fn clone(&self) -> (r: Self)
        ensures
            r@ == self@,
    {
        PathTemplate(self.0.clone())
    }
}

impl AsRef<str> for PathTemplate {
    fn as_ref(&self) -> (r: &str)
        ensures
            r@ == self@,
    {
        self.0.as_str()
    }
}

} // verus!

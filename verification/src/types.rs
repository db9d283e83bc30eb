//! Descriptors of declared types, and what the rules read from them.

use vstd::prelude::*;

verus! {

/// What the rules need to know of a declared type.
#[derive(Debug, PartialEq, Eq)]
pub enum TypeDesc {
    /// The empty tuple `()`.
    Unit,
    /// A named type: the last segment of its path and, where it is generic, its
    /// first type argument.
    Path { name: String, arg: Option<Box<TypeDesc>> },
    /// A reference, shared or mutable, to another type.
    Reference(Box<TypeDesc>),
    /// Any other type.
    Other,
}

/// How a response is turned into the declared result.
#[derive(Debug, Clone, Copy, PartialEq, Eq, Structural)]
pub enum ReturnTypeKind {
    /// Decode the body as JSON.
    Json,
    /// Hand the raw response back.
    RawResponse,
    /// There is no value.
    Unit,
}

impl TypeDesc {
    /// The name of a named type.
    pub open spec fn path_name(self) -> Option<Seq<char>> {
        match self {
            TypeDesc::Path { name, .. } => Some(name@),
            _ => None,
        }
    }

    /// True for a named type with the given name.
    pub open spec fn is_named(self, name: Seq<char>) -> bool {
        self.path_name() == Some(name)
    }

    /// The first type argument of the named generic type `name`, where `self` is one.
    pub open spec fn payload_of(self, name: Seq<char>) -> Option<TypeDesc> {
        match self {
            TypeDesc::Path { name: n, arg: Some(inner) } => if n@ == name {
                Some(*inner)
            } else {
                None
            },
            _ => None,
        }
    }

    /// The type behind one reference, or the type itself.
    pub open spec fn referent(self) -> TypeDesc {
        match self {
            TypeDesc::Reference(inner) => *inner,
            _ => self,
        }
    }

    /// The unit type.
    pub fn unit() -> (r: Self)
        ensures
            r == TypeDesc::Unit,
    {
        TypeDesc::Unit
    }

    /// A named type without type arguments.
    pub fn named(name: &str) -> (r: Self)
        ensures
            r matches TypeDesc::Path { name: n, arg: None } && n@ == name@,
    {
        TypeDesc::Path { name: name.to_owned(), arg: None }
    }

    /// A named generic type with its first type argument.
    pub fn generic(name: &str, arg: TypeDesc) -> (r: Self)
        ensures
            r matches TypeDesc::Path { name: n, arg: Some(a) } && n@ == name@ && *a == arg,
    {
        TypeDesc::Path { name: name.to_owned(), arg: Some(Box::new(arg)) }
    }

    /// A reference to a type.
    pub fn reference(inner: TypeDesc) -> (r: Self)
        ensures
            r matches TypeDesc::Reference(a) && *a == inner,
    {
        TypeDesc::Reference(Box::new(inner))
    }
}

impl Clone for TypeDesc {
    fn clone(&self) -> (r: Self)
        ensures
            r == *self,
        decreases *self,
    {
        match self {
            TypeDesc::Unit => TypeDesc::Unit,
            TypeDesc::Path { name, arg } => {
                let a = match arg {
                    Some(inner) => Some(Box::new((**inner).clone())),
                    None => None,
                };
                TypeDesc::Path { name: name.clone(), arg: a }
            },
            TypeDesc::Reference(inner) => TypeDesc::Reference(Box::new((**inner).clone())),
            TypeDesc::Other => TypeDesc::Other,
        }
    }
}

fn has_name(ty: &TypeDesc, name: &str) -> (r: bool)
    ensures
        r == ty.is_named(name@),
{
    match ty {
        TypeDesc::Path { name: n, .. } => n.as_str().eq(name),
        _ => false,
    }
}

/// Check if a type is `Option<T>`.
pub fn is_option_type(ty: &TypeDesc) -> (r: bool)
    ensures
        r == ty.is_named("Option"@),
{
    has_name(ty, "Option")
}

/// Check if a type is `Vec<T>`.
pub fn is_vec_type(ty: &TypeDesc) -> (r: bool)
    ensures
        r == ty.is_named("Vec"@),
{
    has_name(ty, "Vec")
}

/// Check if a type is the unit type `()`.
pub fn is_unit_type(ty: &TypeDesc) -> (r: bool)
    ensures
        r == (*ty is Unit),
{
    match ty {
        TypeDesc::Unit => true,
        _ => false,
    }
}

/// Check if a type is the raw response envelope, `Response<_>`.
pub fn is_response_type(ty: &TypeDesc) -> (r: bool)
    ensures
        r == ty.is_named("Response"@),
{
    has_name(ty, "Response")
}

/// True for the names of the primitive and standard types that are no records.
pub open spec fn is_plain_name(name: Seq<char>) -> bool {
    name == "bool"@ || name == "char"@ || name == "str"@ || name == "String"@ || name == "i8"@
        || name == "i16"@ || name == "i32"@ || name == "i64"@ || name == "i128"@ || name
        == "isize"@ || name == "u8"@ || name == "u16"@ || name == "u32"@ || name == "u64"@ || name
        == "u128"@ || name == "usize"@ || name == "f32"@ || name == "f64"@ || name == "Option"@
        || name == "Vec"@ || name == "Box"@ || name == "Result"@ || name == "Cow"@
}

fn plain_name(name: &str) -> (r: bool)
    ensures
        r == is_plain_name(name@),
{
    name.eq("bool") || name.eq("char") || name.eq("str") || name.eq("String") || name.eq("i8")
        || name.eq("i16") || name.eq("i32") || name.eq("i64") || name.eq("i128") || name.eq(
        "isize",
    ) || name.eq("u8") || name.eq("u16") || name.eq("u32") || name.eq("u64") || name.eq("u128")
        || name.eq("usize") || name.eq("f32") || name.eq("f64") || name.eq("Option") || name.eq(
        "Vec",
    ) || name.eq("Box") || name.eq("Result") || name.eq("Cow")
}

/// True when a type, or what it refers to, is a named type that is none of the
/// primitive and standard types: such a type is taken for a structured record.
pub open spec fn is_record(ty: TypeDesc) -> bool {
    match ty.referent().path_name() {
        Some(name) => !is_plain_name(name),
        None => false,
    }
}

/// Check if a type appears to be a structured record (not a primitive, an
/// optional or a list). One reference in front of the type is looked through.
pub fn is_struct_type(ty: &TypeDesc) -> (r: bool)
    ensures
        r == is_record(*ty),
{
    let inner: &TypeDesc = match ty {
        TypeDesc::Reference(b) => &**b,
        other => other,
    };
    match inner {
        TypeDesc::Path { name, .. } => !plain_name(name.as_str()),
        _ => false,
    }
}

/// Unwrap `Result<T>` to get `T`, returns None if not a Result.
pub fn unwrap_result_type(ty: &TypeDesc) -> (r: Option<&TypeDesc>)
    ensures
        r is Some == ty.payload_of("Result"@) is Some,
        r is Some ==> *r.unwrap() == ty.payload_of("Result"@).unwrap(),
{
    match ty {
        TypeDesc::Path { name, arg: Some(inner) } => if name.as_str().eq("Result") {
            Some(&**inner)
        } else {
            None
        },
        _ => None,
    }
}

/// Unwrap `Option<T>` to get `T`, returns None if not an Option.
pub fn unwrap_option_type(ty: &TypeDesc) -> (r: Option<&TypeDesc>)
    ensures
        r is Some == ty.payload_of("Option"@) is Some,
        r is Some ==> *r.unwrap() == ty.payload_of("Option"@).unwrap(),
{
    match ty {
        TypeDesc::Path { name, arg: Some(inner) } => if name.as_str().eq("Option") {
            Some(&**inner)
        } else {
            None
        },
        _ => None,
    }
}

/// The payload of the named generic wrapper `name`, or the type itself where it
/// is no such wrapper.
pub open spec fn peeled(ty: TypeDesc, name: Seq<char>) -> TypeDesc {
    match ty.payload_of(name) {
        Some(inner) => inner,
        None => ty,
    }
}

/// The kind of a declared result type. One outer `Result` is looked through;
/// where a 404 stands for an absent value, one `Option` below it is looked
/// through as well. What remains decides: the unit type has no value, the
/// response envelope is handed back raw, anything else is decoded as JSON.
/// An endpoint without a declared result has no value.
pub open spec fn return_kind(declared: Option<TypeDesc>, not_found_as_none: bool)
    -> ReturnTypeKind {
    match declared {
        None => ReturnTypeKind::Unit,
        Some(ty) => {
            let payload = peeled(ty, "Result"@);
            let inner = if not_found_as_none {
                peeled(payload, "Option"@)
            } else {
                payload
            };
            if inner is Unit {
                ReturnTypeKind::Unit
            } else if inner.is_named("Response"@) {
                ReturnTypeKind::RawResponse
            } else {
                ReturnTypeKind::Json
            }
        },
    }
}

/// Analyze the declared result type to determine how to handle the response.
pub fn analyze_return_type(declared: &Option<TypeDesc>, not_found_as_none: bool) -> (r:
    ReturnTypeKind)
    ensures
        r == return_kind(*declared, not_found_as_none),
{
    let ty: &TypeDesc = match declared {
        None => {
            return ReturnTypeKind::Unit;
        },
        Some(ty) => ty,
    };
    let payload: &TypeDesc = match unwrap_result_type(ty) {
        Some(inner) => inner,
        None => ty,
    };
    let inner: &TypeDesc = if not_found_as_none {
        match unwrap_option_type(payload) {
            Some(inner) => inner,
            None => payload,
        }
    } else {
        payload
    };
    if is_unit_type(inner) {
        ReturnTypeKind::Unit
    } else if is_response_type(inner) {
        ReturnTypeKind::RawResponse
    } else {
        ReturnTypeKind::Json
    }
}

} // verus!

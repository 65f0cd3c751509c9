//! The type classifier: from a declared native type to its shape.
//!
//! Classification is purely structural. A generic container named like the
//! optional wrapper with one type argument classifies as `Optional`; in return
//! position only, a generic container named like the fallible wrapper with two
//! type arguments classifies as `Fallible`; a reference classifies as a
//! `Handle` with the reference's mutability; anything else is `Plain` under
//! its own name. Classification always succeeds; unsupported conversions are
//! rejected later, when the adapter runs.

use vstd::prelude::*;
use vstd::string::StringExecFns;

verus! {

/// How a handle parameter borrows the native value behind it: through a
/// shared reference or through an exclusive one.
#[derive(Clone, Copy, Debug, PartialEq, Eq, Structural)]
pub enum Mutability {
    Shared,
    Exclusive,
}

/// A declared native type, as far as the classifier reads it: the name of the
/// last path segment, up to two angle-bracketed type arguments, and
/// references.
#[derive(Debug, PartialEq, Eq)]
pub enum DeclaredType {
    /// A path type whose last segment carries no type arguments we read.
    Named(String),
    /// A path type whose last segment carries one type argument.
    Generic(String, Box<DeclaredType>),
    /// A path type whose last segment carries two type arguments.
    Generic2(String, Box<DeclaredType>, Box<DeclaredType>),
    /// A reference type, shared or exclusive.
    Reference(Mutability, Box<DeclaredType>),
}

/// The shape of a parameter or return type, derived structurally from the
/// declared type at bind time.
#[derive(Debug, PartialEq, Eq)]
pub enum TypeDescriptor {
    /// A by-value type, converted through the runtime's conversion hooks.
    Plain(String),
    /// The optional wrapper around an inner shape; nil-checked at extraction.
    Optional(Box<TypeDescriptor>),
    /// The fallible wrapper around a success and an error shape; only ever
    /// produced for return types.
    Fallible(Box<TypeDescriptor>, Box<TypeDescriptor>),
    /// An opaque handle to a boxed native value, fetched through the accessor
    /// matching the mutability.
    Handle(Box<TypeDescriptor>, Mutability),
}

/// The name of the optional wrapper: a generic container with this name and
/// one type argument classifies as `Optional`.
pub open spec fn optional_wrapper_name() -> Seq<char> {
    "Option"@
}

/// The name of the fallible wrapper: in return position, a generic container
/// with this name and two type arguments classifies as `Fallible`.
pub open spec fn fallible_wrapper_name() -> Seq<char> {
    "Result"@
}

/// The shape of a declared parameter type.
pub open spec fn spec_classify_param(t: DeclaredType) -> TypeDescriptor
    decreases t,
{
    match t {
        DeclaredType::Named(name) => TypeDescriptor::Plain(name),
        DeclaredType::Generic(name, arg) => if name@ == optional_wrapper_name() {
            TypeDescriptor::Optional(Box::new(spec_classify_param(*arg)))
        } else {
            TypeDescriptor::Plain(name)
        },
        DeclaredType::Generic2(name, _, _) => TypeDescriptor::Plain(name),
        DeclaredType::Reference(m, inner) => TypeDescriptor::Handle(
            Box::new(spec_classify_param(*inner)),
            m,
        ),
    }
}

/// The shape of a declared return type: the fallible-wrapper rule applies
/// here, at the outermost position only, and never to parameters.
pub open spec fn spec_classify_return(t: DeclaredType) -> TypeDescriptor {
    match t {
        DeclaredType::Generic2(name, ok, err) => if name@ == fallible_wrapper_name() {
            TypeDescriptor::Fallible(
                Box::new(spec_classify_param(*ok)),
                Box::new(spec_classify_param(*err)),
            )
        } else {
            TypeDescriptor::Plain(name)
        },
        _ => spec_classify_param(t),
    }
}

fn name_matches(name: &String, wrapper: &str) -> (r: bool)
    ensures
        r == (name@ == wrapper@),
{
    let w: String = String::from_str(wrapper);
    *name == w
}

/// Classify a declared parameter type.
pub fn classify_param(t: &DeclaredType) -> (d: TypeDescriptor)
    ensures
        d == spec_classify_param(*t),
    decreases *t,
{
    match t {
        DeclaredType::Named(name) => TypeDescriptor::Plain(name.clone()),
        DeclaredType::Generic(name, arg) => {
            if name_matches(name, "Option") {
                TypeDescriptor::Optional(Box::new(classify_param(arg)))
            } else {
                TypeDescriptor::Plain(name.clone())
            }
        },
        DeclaredType::Generic2(name, _, _) => TypeDescriptor::Plain(name.clone()),
        DeclaredType::Reference(m, inner) => TypeDescriptor::Handle(
            Box::new(classify_param(inner)),
            *m,
        ),
    }
}

/// Classify a declared return type.
pub fn classify_return(t: &DeclaredType) -> (d: TypeDescriptor)
    ensures
        d == spec_classify_return(*t),
{
    match t {
        DeclaredType::Generic2(name, ok, err) => {
            if name_matches(name, "Result") {
                TypeDescriptor::Fallible(
                    Box::new(classify_param(ok)),
                    Box::new(classify_param(err)),
                )
            } else {
                TypeDescriptor::Plain(name.clone())
            }
        },
        _ => classify_param(t),
    }
}

} // verus!

//! The unwrap-strategy selector: for each parameter shape, the extraction
//! procedure the adapter emits for it. Four shapes are supported: a plain
//! value, an optional plain value, a handle behind a reference, and an
//! optional handle. Any other shape has no extraction procedure and is
//! rejected at bind time.

use vstd::prelude::*;
use crate::descriptor::{Mutability, TypeDescriptor};

verus! {

/// The extraction procedure for one parameter, executed in slot order before
/// the native call.
#[derive(Debug, PartialEq, Eq)]
pub enum ExtractionStrategy {
    /// Read the slot (it must exist) and convert it to the named native type;
    /// failure is a fatal conversion error.
    PlainConvert(String),
    /// Bind `None` when the slot is absent or nil; otherwise convert as for a
    /// plain value, and failure stays fatal.
    OptionalPlain(String),
    /// Read the slot, unwrap it as a handle, and fetch the payload through
    /// the accessor matching the mutability; any failure is fatal.
    HandleFetch(Mutability, String),
    /// Bind `None` when the slot is absent or nil; otherwise perform the full
    /// handle fetch, and any failure along that path stays fatal.
    OptionalHandleFetch(Mutability, String),
}

/// Whether a strategy tolerates an absent or nil slot.
pub open spec fn strategy_optional(st: ExtractionStrategy) -> bool {
    st is OptionalPlain || st is OptionalHandleFetch
}

/// The extraction procedure for a parameter shape, or `None` when the shape
/// is unsupported in parameter position.
pub open spec fn spec_select_strategy(d: TypeDescriptor) -> Option<ExtractionStrategy> {
    match d {
        TypeDescriptor::Plain(name) => Some(ExtractionStrategy::PlainConvert(name)),
        TypeDescriptor::Optional(inner) => match *inner {
            TypeDescriptor::Plain(name) => Some(ExtractionStrategy::OptionalPlain(name)),
            TypeDescriptor::Handle(h, m) => match *h {
                TypeDescriptor::Plain(name) => Some(
                    ExtractionStrategy::OptionalHandleFetch(m, name),
                ),
                _ => None,
            },
            _ => None,
        },
        TypeDescriptor::Handle(h, m) => match *h {
            TypeDescriptor::Plain(name) => Some(ExtractionStrategy::HandleFetch(m, name)),
            _ => None,
        },
        TypeDescriptor::Fallible(_, _) => None,
    }
}

/// Select the extraction procedure for a parameter shape.
pub fn select_strategy(d: &TypeDescriptor) -> (r: Option<ExtractionStrategy>)
    ensures
        r == spec_select_strategy(*d),
{
    match d {
        TypeDescriptor::Plain(name) => Some(ExtractionStrategy::PlainConvert(name.clone())),
        TypeDescriptor::Optional(inner) => match &**inner {
            TypeDescriptor::Plain(name) => Some(ExtractionStrategy::OptionalPlain(name.clone())),
            TypeDescriptor::Handle(h, m) => match &**h {
                TypeDescriptor::Plain(name) => Some(
                    ExtractionStrategy::OptionalHandleFetch(*m, name.clone()),
                ),
                _ => None,
            },
            _ => None,
        },
        TypeDescriptor::Handle(h, m) => match &**h {
            TypeDescriptor::Plain(name) => Some(
                ExtractionStrategy::HandleFetch(*m, name.clone()),
            ),
            _ => None,
        },
        TypeDescriptor::Fallible(_, _) => None,
    }
}

/// A supported strategy exists exactly for the four supported shapes, and
/// the strategy it yields is optional exactly when the shape is.
pub proof fn lemma_strategy_optional_matches_shape(d: TypeDescriptor)
    ensures
        spec_select_strategy(d) matches Some(st) ==> (strategy_optional(st) <==> d is Optional),
{
}

} // verus!

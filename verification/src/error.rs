//! The error kinds of the adapter. Once one occurs inside the adapter body it
//! is fatal and aborts the current call; there is no local recovery. Each
//! carries the offending slot index and both expected and actual type
//! information where applicable.

use vstd::prelude::*;
use crate::value::ValueKind;

verus! {

/// Why a handle could not be fetched from a slot.
#[derive(Debug, PartialEq, Eq)]
pub enum HandleFault {
    /// The slot did not hold a handle at all; carries the slot's runtime kind.
    NotAHandle(ValueKind),
    /// The handle boxes a native type other than the declared one; carries
    /// the underlying access error: the name of the type actually boxed.
    WrongType(String),
}

/// A fatal error raised while a call runs.
#[derive(Debug, PartialEq, Eq)]
pub enum AdapterError {
    /// The argument count falls outside the declared arity contract; raised
    /// by the host dispatcher, before the adapter body runs.
    ArityMismatch { got: usize, min: usize, max: usize },
    /// Value-to-native conversion failed at a slot.
    ConversionError { slot: usize, expected: String, actual: ValueKind },
    /// A slot expected to hold a handle did not, or held a handle of the
    /// wrong underlying native type.
    HandleTypeMismatch { slot: usize, expected: String, fault: HandleFault },
    /// The native function's own fallible return path produced an error
    /// value; carries that value's textual representation.
    DomainError { message: String },
}

/// A bind-time error: the signature holds a parameter whose shape no
/// extraction procedure supports, so no adapter is emitted for it.
#[derive(Clone, Copy, Debug, PartialEq, Eq, Structural)]
pub enum BindError {
    /// The parameter at this index has an unsupported shape.
    UnsupportedParameter { index: usize },
}

} // verus!

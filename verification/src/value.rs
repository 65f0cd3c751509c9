//! A model of the embedding runtime's dynamic value type, as far as the
//! adapter reads it: a nil test, a runtime kind for diagnostics, a fallible
//! conversion hook from value to each supported native plain type, a total
//! conversion hook from native values back to runtime values, and an opaque
//! handle with a shared-borrow and an exclusive-borrow accessor.
//!
//! Numeric payloads are carried as the bit pattern of the runtime's numeric
//! value; the adapter never interprets them.

use vstd::prelude::*;
use vstd::string::StringExecFns;

verus! {

/// The runtime kind of a value, reported in conversion diagnostics.
#[derive(Clone, Copy, Debug, PartialEq, Eq, Structural)]
pub enum ValueKind {
    Nil,
    Number,
    Text,
    Bool,
    Handle,
}

/// An opaque boxed native value reachable from a runtime value: it names the
/// underlying native type and carries the payload as a machine word.
#[derive(Debug, PartialEq, Eq)]
pub struct HandleValue {
    /// The name of the native type the handle boxes.
    pub native_type: String,
    /// The boxed payload, opaque to the runtime.
    pub data: u64,
}

/// A dynamic runtime value at the embedding boundary.
#[derive(Debug, PartialEq, Eq)]
pub enum Value {
    /// The runtime's nil sentinel.
    Nil,
    /// A numeric value, carried as its bit pattern.
    Number(u64),
    /// A textual value.
    Text(String),
    /// A boolean value.
    Bool(bool),
    /// An opaque handle to a boxed native value.
    Handle(HandleValue),
}

/// A native value produced by the inbound conversion hook, or handed to the
/// outbound one.
#[derive(Debug, PartialEq, Eq)]
pub enum NativeValue {
    /// A native numeric value, carried as its bit pattern.
    Number(u64),
    /// A native string.
    Text(String),
    /// A native boolean.
    Bool(bool),
    /// The runtime value itself, passed through unconverted.
    Runtime(Value),
}

impl Clone for HandleValue {
    fn clone(&self) -> (res: Self)
        ensures
            res == *self,
    {
        HandleValue { native_type: self.native_type.clone(), data: self.data }
    }
}

impl Clone for Value {
    fn clone(&self) -> (res: Self)
        ensures
            res == *self,
    {
        match self {
            Value::Nil => Value::Nil,
            Value::Number(bits) => Value::Number(*bits),
            Value::Text(s) => Value::Text(s.clone()),
            Value::Bool(b) => Value::Bool(*b),
            Value::Handle(h) => Value::Handle(h.clone()),
        }
    }
}

impl Value {
    /// The runtime kind of this value.
    pub open spec fn spec_kind(self) -> ValueKind {
        match self {
            Value::Nil => ValueKind::Nil,
            Value::Number(_) => ValueKind::Number,
            Value::Text(_) => ValueKind::Text,
            Value::Bool(_) => ValueKind::Bool,
            Value::Handle(_) => ValueKind::Handle,
        }
    }

    /// Nil-test predicate.
    pub open spec fn spec_is_nil(self) -> bool {
        self is Nil
    }

    /// The runtime kind of this value.
    pub fn kind(&self) -> (k: ValueKind)
        ensures
            k == self.spec_kind(),
    {
        match self {
            Value::Nil => ValueKind::Nil,
            Value::Number(_) => ValueKind::Number,
            Value::Text(_) => ValueKind::Text,
            Value::Bool(_) => ValueKind::Bool,
            Value::Handle(_) => ValueKind::Handle,
        }
    }

    /// Nil-test predicate.
    pub fn is_nil(&self) -> (r: bool)
        ensures
            r == self.spec_is_nil(),
    {
        matches!(self, Value::Nil)
    }
}

/// The native type name whose values are the runtime's numbers.
pub open spec fn number_native_type() -> Seq<char> {
    "f64"@
}

/// The native type name whose values are the runtime's strings.
pub open spec fn text_native_type() -> Seq<char> {
    "String"@
}

/// The native type name whose values are the runtime's booleans.
pub open spec fn bool_native_type() -> Seq<char> {
    "bool"@
}

/// The native type name that takes the runtime value itself, unconverted.
pub open spec fn value_native_type() -> Seq<char> {
    "Value"@
}

/// The inbound conversion hook: from a runtime value to the supported native
/// plain type of the given name. `None` on a kind mismatch or an unsupported
/// name; the adapter turns that into a fatal conversion error.
pub open spec fn spec_convert_plain(expected: Seq<char>, v: Value) -> Option<NativeValue> {
    if expected == number_native_type() {
        match v {
            Value::Number(bits) => Some(NativeValue::Number(bits)),
            _ => None,
        }
    } else if expected == text_native_type() {
        match v {
            Value::Text(s) => Some(NativeValue::Text(s)),
            _ => None,
        }
    } else if expected == bool_native_type() {
        match v {
            Value::Bool(b) => Some(NativeValue::Bool(b)),
            _ => None,
        }
    } else if expected == value_native_type() {
        Some(NativeValue::Runtime(v))
    } else {
        None
    }
}

/// The inbound conversion hook.
pub fn convert_plain(expected: &String, v: &Value) -> (r: Option<NativeValue>)
    ensures
        r == spec_convert_plain(expected@, *v),
{
    let number_name: String = String::from_str("f64");
    let text_name: String = String::from_str("String");
    let bool_name: String = String::from_str("bool");
    let value_name: String = String::from_str("Value");
    if *expected == number_name {
        match v {
            Value::Number(bits) => Some(NativeValue::Number(*bits)),
            _ => None,
        }
    } else if *expected == text_name {
        match v {
            Value::Text(s) => Some(NativeValue::Text(s.clone())),
            _ => None,
        }
    } else if *expected == bool_name {
        match v {
            Value::Bool(b) => Some(NativeValue::Bool(*b)),
            _ => None,
        }
    } else if *expected == value_name {
        Some(NativeValue::Runtime(v.clone()))
    } else {
        None
    }
}

/// The outbound conversion hook, from a native value back to a runtime value.
/// It is total: only the inbound direction performs validation.
pub open spec fn spec_to_value(nv: NativeValue) -> Value {
    match nv {
        NativeValue::Number(bits) => Value::Number(bits),
        NativeValue::Text(s) => Value::Text(s),
        NativeValue::Bool(b) => Value::Bool(b),
        NativeValue::Runtime(v) => v,
    }
}

/// The outbound conversion hook.
pub fn to_value(nv: NativeValue) -> (v: Value)
    ensures
        v == spec_to_value(nv),
{
    match nv {
        NativeValue::Number(bits) => Value::Number(bits),
        NativeValue::Text(s) => Value::Text(s),
        NativeValue::Bool(b) => Value::Bool(b),
        NativeValue::Runtime(v) => v,
    }
}

/// What either handle accessor yields: the payload when the handle's
/// underlying native type is the expected one, and otherwise the access
/// error, carrying the name of the type the handle actually boxes.
pub open spec fn spec_fetch(h: HandleValue, expected: Seq<char>) -> Result<u64, String> {
    if h.native_type@ == expected {
        Ok(h.data)
    } else {
        Err(h.native_type)
    }
}

impl HandleValue {
    /// The shared-borrow accessor: fetches the payload for a handle parameter
    /// declared behind a shared reference.
    pub fn fetch_shared(&self, expected: &String) -> (r: Result<u64, String>)
        ensures
            r == spec_fetch(*self, expected@),
    {
        if self.native_type == *expected {
            Ok(self.data)
        } else {
            Err(self.native_type.clone())
        }
    }

    /// The exclusive-borrow accessor: fetches the payload for a handle
    /// parameter declared behind an exclusive reference.
    pub fn fetch_exclusive(&self, expected: &String) -> (r: Result<u64, String>)
        ensures
            r == spec_fetch(*self, expected@),
    {
        if self.native_type == *expected {
            Ok(self.data)
        } else {
            Err(self.native_type.clone())
        }
    }
}

} // verus!

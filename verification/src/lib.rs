//! Adapter generation for binding statically typed native functions into a
//! dynamically typed embedded runtime's calling convention.
//!
//! Given a native function's declared signature, this library classifies each
//! parameter and the return type into a shape ([`descriptor::TypeDescriptor`]),
//! derives the accepted-argument-count contract, selects an extraction
//! procedure per parameter, and composes them into a call adapter that
//! extracts and type-checks arguments, hands them to the native function, and
//! converts the result back into the runtime's value representation.

pub mod adapter;
pub mod arity;
pub mod descriptor;
pub mod error;
pub mod signature;
pub mod strategy;
pub mod value;

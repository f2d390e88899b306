//! The error type of the bindings and the messages it renders.

use vstd::prelude::*;

use crate::util::{decimal, usize_to_decimal};
use crate::value::ValType;

verus! {

/// Errors returned by the bindings' operations.
#[derive(Debug, Clone, PartialEq, Eq)]
#[allow(inconsistent_fields)]
pub enum Error {
    /// Global WAMR runtime initialization failed.
    RuntimeInit,
    /// A module failed to load/validate. Carries WAMR's diagnostic message.
    ModuleLoad(String),
    /// A module failed to instantiate. Carries WAMR's diagnostic message.
    Instantiate(String),
    /// No exported function with the requested name was found.
    FuncNotFound(String),
    /// A call trapped or otherwise failed. Carries WAMR's exception string.
    Trap(String),
    /// The number of provided arguments/results did not match the callee.
    SignatureMismatch {
        /// What was expected (e.g. result count).
        expected: usize,
        /// What was actually provided.
        provided: usize,
    },
    /// No exported global with the requested name was found.
    GlobalNotFound(String),
    /// Attempted to set an immutable (`const`) global.
    GlobalImmutable,
    /// A value's type did not match the expected type.
    TypeMismatch {
        /// The type that was required.
        expected: ValType,
        /// The type that was provided.
        provided: ValType,
    },
    /// No exported linear memory with the requested name was found.
    MemoryNotFound(String),
    /// Encountered a Wasm value type these bindings do not model (only the four
    /// numeric types `i32`/`i64`/`f32`/`f64` are supported).
    UnsupportedType,
}

impl Error {
    /// The human-readable message of the error.
    pub open spec fn spec_message(&self) -> Seq<char> {
        match self {
            Error::RuntimeInit => "failed to initialize the WAMR runtime"@,
            Error::ModuleLoad(msg) => "failed to load Wasm module: "@ + msg@,
            Error::Instantiate(msg) => "failed to instantiate Wasm module: "@ + msg@,
            Error::FuncNotFound(name) => "exported function not found: "@ + name@,
            Error::Trap(msg) => "Wasm trap: "@ + msg@,
            Error::SignatureMismatch { expected, provided } => "signature mismatch: expected "@
                + decimal(*expected as nat) + ", provided "@ + decimal(*provided as nat),
            Error::GlobalNotFound(name) => "exported global not found: "@ + name@,
            Error::GlobalImmutable => "cannot set an immutable global"@,
            Error::TypeMismatch { expected, provided } => "type mismatch: expected "@
                + expected.spec_name() + ", provided "@ + provided.spec_name(),
            Error::MemoryNotFound(name) => "exported memory not found: "@ + name@,
            Error::UnsupportedType => "unsupported Wasm value type (only i32/i64/f32/f64)"@,
        }
    }

    /// Renders the error as a human-readable message, e.g.
    /// `"exported function not found: add"`.
    pub fn message(&self) -> (s: String)
        ensures
            s@ == self.spec_message(),
    {
        match self {
            Error::RuntimeInit => String::from_str("failed to initialize the WAMR runtime"),
            Error::ModuleLoad(msg) => prefixed("failed to load Wasm module: ", msg.as_str()),
            Error::Instantiate(msg) => prefixed(
                "failed to instantiate Wasm module: ",
                msg.as_str(),
            ),
            Error::FuncNotFound(name) => prefixed("exported function not found: ", name.as_str()),
            Error::Trap(msg) => prefixed("Wasm trap: ", msg.as_str()),
            Error::SignatureMismatch { expected, provided } => {
                let mut s = String::from_str("signature mismatch: expected ");
                let e = usize_to_decimal(*expected);
                s.append(e.as_str());
                s.append(", provided ");
                let p = usize_to_decimal(*provided);
                s.append(p.as_str());
                s
            },
            Error::GlobalNotFound(name) => prefixed("exported global not found: ", name.as_str()),
            Error::GlobalImmutable => String::from_str("cannot set an immutable global"),
            Error::TypeMismatch { expected, provided } => {
                let mut s = String::from_str("type mismatch: expected ");
                s.append(expected.name());
                s.append(", provided ");
                s.append(provided.name());
                s
            },
            Error::MemoryNotFound(name) => prefixed("exported memory not found: ", name.as_str()),
            Error::UnsupportedType => String::from_str(
                "unsupported Wasm value type (only i32/i64/f32/f64)",
            ),
        }
    }
}

/// `head` followed by `tail`.
fn prefixed(head: &str, tail: &str) -> (s: String)
    ensures
        s@ == head@ + tail@,
{
    let mut s = String::from_str(head);
    s.append(tail);
    s
}

/// The message of the error that reports a name holding a NUL byte.
pub open spec fn interior_nul_message(what: Seq<char>) -> Seq<char> {
    what + " contains an interior NUL byte"@
}

/// The error reported when a host-function module or function name holds a
/// NUL byte and so cannot be handed to the runtime as a C string.
pub fn interior_nul(what: &str) -> (e: Error)
    ensures
        e matches Error::Instantiate(msg) && msg@ == interior_nul_message(what@),
{
    Error::Instantiate(prefixed(what, " contains an interior NUL byte"))
}

/// An owned copy of a name, for the errors that report it.
pub fn owned_name(name: &str) -> (s: String)
    ensures
        s@ == name@,
{
    String::from_str(name)
}

} // verus!

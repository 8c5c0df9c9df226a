//! Error taxonomy of the encoder wrapper.
//!
//! Every fallible operation of this crate reports one of these variants;
//! none of them aborts the process.

use vstd::prelude::*;

verus! {

/// Errors reported by the configuration stage, the encoding session and the
/// tag stage.
#[derive(Debug, Clone, PartialEq, Eq)]
pub enum LameError {
    /// Allocating the native encoder state, or computing the derived
    /// parameters during `build`, failed. The stage is gone; start over.
    InitializationFailed,
    /// A configuration setter rejected its value; the payload names the
    /// parameter. Retry with a different value on a fresh stage.
    InvalidParameter(String),
    /// The native encode or flush call reported the contained negative
    /// status code. The session stays usable; the dominant cause is an
    /// undersized output buffer.
    EncodingFailed(i32),
    /// A wrapper-level capacity check failed before the native call.
    BufferTooSmall {
        /// Bytes the call would need.
        required: usize,
        /// Bytes the caller supplied.
        provided: usize,
    },
    /// A native allocation failed.
    OutOfMemory,
    /// A wrapper-level precondition on the input failed before any native
    /// call; the payload says which one.
    InvalidInput(String),
    /// Unexpected native-layer state; treat as a bug signal.
    InternalError(String),
    /// A native call handed back a null pointer where none was expected.
    NullPointer,
}

} // verus!

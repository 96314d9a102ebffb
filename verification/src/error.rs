//! The typed failures of the packed calling convention.
//!
//! None of these is a transient condition: each signals a protocol or usage
//! violation and aborts the current call attempt.

use vstd::prelude::*;

verus! {

/// Why a packed call attempt was aborted.
#[derive(Debug, Clone, Copy, PartialEq, Eq, Structural)]
pub enum PackedError {
    /// A type code that cannot be decoded, or a raw value whose member does
    /// not pair with its type code.
    Decode,
    /// Heterogeneous vector elements, or a returned type code not matching
    /// the caller's expectation.
    TypeMismatch,
    /// The registry returned an invalid handle for a name; at this layer
    /// indistinguishable from other native lookup failures.
    NotFound,
    /// A string argument contains an embedded null byte and cannot cross the
    /// boundary.
    Encoding,
    /// An extension handle was used after its release.
    UseAfterRelease,
    /// The native call returned this non-success status code.
    NativeCall(i32),
}

impl PackedError {
    /// A short name for the error, for callers that print failures.
    pub fn describe(&self) -> (r: &'static str)
        ensures
            r@ == match self {
                PackedError::Decode => "unrecognized type code"@,
                PackedError::TypeMismatch => "type mismatch"@,
                PackedError::NotFound => "name not registered"@,
                PackedError::Encoding => "embedded null byte"@,
                PackedError::UseAfterRelease => "handle used after release"@,
                PackedError::NativeCall(_) => "native call failed"@,
            },
    {
        match self {
            PackedError::Decode => "unrecognized type code",
            PackedError::TypeMismatch => "type mismatch",
            PackedError::NotFound => "name not registered",
            PackedError::Encoding => "embedded null byte",
            PackedError::UseAfterRelease => "handle used after release",
            PackedError::NativeCall(_) => "native call failed",
        }
    }
}

} // verus!

//! A packed calling convention: a host process invokes functions exposed by a
//! dynamically loaded native module through a uniform, self-describing
//! argument-passing mechanism, without compile-time knowledge of each
//! function's signature.
//!
//! This crate holds the verified core: the packed value codec, the managed
//! argument builder, the marshalling protocol, the registry lookup decisions,
//! and the extension-handle ownership state machine. The native module itself
//! and the dynamic-library plumbing live outside the verified boundary.

pub mod arg;
pub mod call;
pub mod codec;
pub mod convert;
pub mod error;
pub mod ext;
pub mod managed;
pub mod registry;
pub mod raw;
pub mod type_code;

pub use arg::PackedArg;
pub use arg::PackedFunc;
pub use error::PackedError;
pub use ext::ExtHandle;
pub use ext::ExtState;
pub use managed::ManagedPackedArg;
pub use managed::ManagedPackedVec;
pub use raw::PackedValue;
pub use raw::PackedVec;
pub use type_code::PackedTypeCode;

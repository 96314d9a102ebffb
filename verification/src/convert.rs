//! Conversion of a decoded semantic argument to the caller's statically
//! expected result type: numeric extraction, owned-string materialization,
//! vector reconstruction, or handle reinterpretation. A value of any other
//! shape than the expected one fails with a type mismatch error.

use vstd::prelude::*;

use crate::arg::{PackedArg, PackedFunc, SpecArg};
use crate::error::PackedError;

verus! {

impl PackedArg {
    /// The signed integer this value holds.
    pub fn into_i64(self) -> (r: Result<i64, PackedError>)
        ensures
            r == match self@ {
                SpecArg::Int64(i) => Ok::<i64, PackedError>(i),
                _ => Err::<i64, PackedError>(PackedError::TypeMismatch),
            },
    {
        match self {
            PackedArg::Int64(i) => Ok(i),
            _ => Err(PackedError::TypeMismatch),
        }
    }

    /// The signed integer this value holds, narrowed by truncation to the
    /// caller's expected width.
    pub fn into_i32(self) -> (r: Result<i32, PackedError>)
        ensures
            r == match self@ {
                SpecArg::Int64(i) => Ok::<i32, PackedError>(i as i32),
                _ => Err::<i32, PackedError>(PackedError::TypeMismatch),
            },
    {
        match self {
            PackedArg::Int64(i) => Ok(#[verifier::truncate] (i as i32)),
            _ => Err(PackedError::TypeMismatch),
        }
    }

    /// The unsigned integer this value holds.
    pub fn into_u64(self) -> (r: Result<u64, PackedError>)
        ensures
            r == match self@ {
                SpecArg::UInt64(u) => Ok::<u64, PackedError>(u),
                _ => Err::<u64, PackedError>(PackedError::TypeMismatch),
            },
    {
        match self {
            PackedArg::UInt64(u) => Ok(u),
            _ => Err(PackedError::TypeMismatch),
        }
    }

    /// The float this value holds, as its bit pattern.
    pub fn into_f64_bits(self) -> (r: Result<u64, PackedError>)
        ensures
            r == match self@ {
                SpecArg::Float64Bits(b) => Ok::<u64, PackedError>(b),
                _ => Err::<u64, PackedError>(PackedError::TypeMismatch),
            },
    {
        match self {
            PackedArg::Float64Bits(b) => Ok(b),
            _ => Err(PackedError::TypeMismatch),
        }
    }

    /// The owned string this value holds.
    pub fn into_string(self) -> (r: Result<String, PackedError>)
        ensures
            match self@ {
                SpecArg::String(s) => r matches Ok(v) && v@ == s,
                _ => r == Err::<String, PackedError>(PackedError::TypeMismatch),
            },
    {
        match self {
            PackedArg::String(s) => Ok(s),
            _ => Err(PackedError::TypeMismatch),
        }
    }

    /// The function handle this value holds, for a callee-returned function
    /// the caller means to invoke in turn.
    pub fn into_func(self) -> (r: Result<PackedFunc, PackedError>)
        ensures
            match self@ {
                SpecArg::Func(f) => r matches Ok(v) && v@ == f,
                _ => r == Err::<PackedFunc, PackedError>(PackedError::TypeMismatch),
            },
    {
        match self {
            PackedArg::Func(f) => Ok(f),
            _ => Err(PackedError::TypeMismatch),
        }
    }

    /// The opaque native address this value holds: either a raw pointer or
    /// an extension handle of whatever extension type code.
    pub fn into_handle(self) -> (r: Result<usize, PackedError>)
        ensures
            r == match self@ {
                SpecArg::Ptr(p) => Ok::<usize, PackedError>(p),
                SpecArg::Ext(_, p) => Ok::<usize, PackedError>(p),
                _ => Err::<usize, PackedError>(PackedError::TypeMismatch),
            },
    {
        match self {
            PackedArg::Ptr(p) => Ok(p),
            PackedArg::Ext(_, p) => Ok(p),
            _ => Err(PackedError::TypeMismatch),
        }
    }

    /// The elements of the vector this value holds, in order, for the caller
    /// to convert one by one to its expected element type.
    pub fn into_vec(self) -> (r: Result<Vec<PackedArg>, PackedError>)
        ensures
            match self@ {
                SpecArg::Vec(elems) => r matches Ok(v) && crate::arg::view_args(v@) == elems,
                _ => r == Err::<Vec<PackedArg>, PackedError>(PackedError::TypeMismatch),
            },
    {
        match self {
            PackedArg::Vec(v) => Ok(v),
            _ => Err(PackedError::TypeMismatch),
        }
    }
}

} // verus!

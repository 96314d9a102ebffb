//! Type codes: the small integer discriminants that select the active member
//! of a raw packed value on the wire.
//!
//! The assignment is a shared agreement between both sides of the boundary:
//! Unknown=0, Int64=1, Float64=2, Ptr=3, Str=4, Func=5, Vector=6; codes of 7
//! and above (and any unassigned code) stand for extension types and are
//! carried through the generic pointer member.

use vstd::prelude::*;

verus! {

/// The named type codes of the packed calling convention.
#[derive(Debug, Clone, Copy, PartialEq, Eq, Structural)]
pub enum PackedTypeCode {
    Unknown,
    Int64,
    Float64,
    Ptr,
    Str,
    Func,
    Vector,
}

/// The wire value of a named type code.
pub open spec fn spec_code_u32(c: PackedTypeCode) -> u32 {
    match c {
        PackedTypeCode::Unknown => 0,
        PackedTypeCode::Int64 => 1,
        PackedTypeCode::Float64 => 2,
        PackedTypeCode::Ptr => 3,
        PackedTypeCode::Str => 4,
        PackedTypeCode::Func => 5,
        PackedTypeCode::Vector => 6,
    }
}

/// The named type code that a wire value selects. A value outside the named
/// range selects the generic pointer member: extension codes travel as
/// pointers, and which extension type they stand for is the caller's to
/// resolve.
pub open spec fn spec_code_from_u32(v: u32) -> PackedTypeCode {
    if v == 0 {
        PackedTypeCode::Unknown
    } else if v == 1 {
        PackedTypeCode::Int64
    } else if v == 2 {
        PackedTypeCode::Float64
    } else if v == 3 {
        PackedTypeCode::Ptr
    } else if v == 4 {
        PackedTypeCode::Str
    } else if v == 5 {
        PackedTypeCode::Func
    } else if v == 6 {
        PackedTypeCode::Vector
    } else {
        PackedTypeCode::Ptr
    }
}

impl PackedTypeCode {
    /// The wire value of this type code.
    pub fn to_u32(self) -> (r: u32)
        ensures
            r == spec_code_u32(self),
    {
        match self {
            PackedTypeCode::Unknown => 0,
            PackedTypeCode::Int64 => 1,
            PackedTypeCode::Float64 => 2,
            PackedTypeCode::Ptr => 3,
            PackedTypeCode::Str => 4,
            PackedTypeCode::Func => 5,
            PackedTypeCode::Vector => 6,
        }
    }

    /// The named type code selected by a wire value.
    pub fn from_u32(v: u32) -> (r: PackedTypeCode)
        ensures
            r == spec_code_from_u32(v),
    {
        if v == 0 {
            PackedTypeCode::Unknown
        } else if v == 1 {
            PackedTypeCode::Int64
        } else if v == 2 {
            PackedTypeCode::Float64
        } else if v == 3 {
            PackedTypeCode::Ptr
        } else if v == 4 {
            PackedTypeCode::Str
        } else if v == 5 {
            PackedTypeCode::Func
        } else if v == 6 {
            PackedTypeCode::Vector
        } else {
            PackedTypeCode::Ptr
        }
    }
}

/// Round trip: every named type code survives the passage to its wire value
/// and back.
pub proof fn lemma_code_round_trip(c: PackedTypeCode)
    ensures
        spec_code_from_u32(spec_code_u32(c)) == c,
{
}

} // verus!

//! The raw side of the wire: a model of the fixed-width packed value union
//! and of the vector descriptor.
//!
//! On the wire a raw packed value is a union holding exactly one of an
//! integer, a float, a raw pointer, a string buffer, a function handle or a
//! pointer to a vector descriptor; the paired type code alone determines the
//! active member. Here each member's referent is held as a plain value: the
//! float by its bit pattern, pointers and handles by their addresses, the
//! string by its contents, the vector by its elements and their shared
//! element type code.

use vstd::prelude::*;

verus! {

broadcast use vstd::seq::group_seq_axioms, vstd::std_specs::vec::group_vec_axioms;

/// Mathematical model of one raw packed value: the active union member,
/// with what it points at held as a plain value.
pub enum SpecValue {
    Int64(i64),
    Float64Bits(u64),
    Ptr(usize),
    Str(Seq<char>),
    Func(usize),
    Vector(u32, Seq<SpecValue>),
}

/// One raw packed value as built and consumed by the marshalling code.
/// `Vector` carries the vector descriptor; `Str` carries the contents of the
/// null-terminated buffer; `Float64Bits` carries the float's bit pattern.
#[derive(Debug)]
pub enum PackedValue {
    Int64(i64),
    Float64Bits(u64),
    Ptr(usize),
    Str(String),
    Func(usize),
    Vector(PackedVec),
}

/// A vector descriptor: the shared element type code and the elements.
/// All elements of one vector share one type code; the descriptor's count is
/// the length of `elems`.
#[derive(Debug)]
pub struct PackedVec {
    pub type_code: u32,
    pub elems: Vec<PackedValue>,
}

/// The model of one raw value.
pub open spec fn view_value(v: PackedValue) -> SpecValue
    decreases v,
{
    match v {
        PackedValue::Int64(i) => SpecValue::Int64(i),
        PackedValue::Float64Bits(b) => SpecValue::Float64Bits(b),
        PackedValue::Ptr(p) => SpecValue::Ptr(p),
        PackedValue::Str(s) => SpecValue::Str(s@),
        PackedValue::Func(h) => SpecValue::Func(h),
        PackedValue::Vector(pv) => SpecValue::Vector(pv.type_code, view_values(pv.elems@)),
    }
}

/// The models of a sequence of raw values, elementwise.
pub open spec fn view_values(s: Seq<PackedValue>) -> Seq<SpecValue>
    decreases s,
{
    if s.len() == 0 {
        Seq::empty()
    } else {
        view_values(s.drop_last()).push(view_value(s.last()))
    }
}

/// Elementwise reading of `view_values`.
pub proof fn lemma_view_values_index(s: Seq<PackedValue>)
    ensures
        view_values(s).len() == s.len(),
        forall|i: int| 0 <= i < s.len() ==> view_values(s)[i] == view_value(s[i]),
    decreases s,
{
    if s.len() > 0 {
        lemma_view_values_index(s.drop_last());
    }
}

impl View for PackedValue {
    type V = SpecValue;

    open spec fn view(&self) -> SpecValue {
        view_value(*self)
    }
}

} // verus!

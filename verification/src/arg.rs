//! Semantic arguments: the tagged values that callers hand to, and receive
//! from, a packed call.
//!
//! A `PackedArg` is the borrowed view of one value crossing the boundary.
//! Raw pointers, function handles and extension handles are held as plain
//! addresses; a float is held by its bit pattern, since no arithmetic is ever
//! done on it on this side of the boundary — the codec only moves it.

use vstd::prelude::*;

verus! {

broadcast use vstd::seq::group_seq_axioms, vstd::std_specs::vec::group_vec_axioms;

/// A resolved function handle: the opaque native entry point, with the name
/// it was resolved under (absent for handles that came back out of a call).
#[derive(Debug)]
pub struct PackedFunc {
    pub name: Option<String>,
    pub handle: usize,
}

/// Mathematical model of a function handle.
pub struct SpecFunc {
    pub name: Option<Seq<char>>,
    pub handle: usize,
}

impl View for PackedFunc {
    type V = SpecFunc;

    open spec fn view(&self) -> SpecFunc {
        SpecFunc {
            name: match self.name {
                Some(n) => Some(n@),
                None => None,
            },
            handle: self.handle,
        }
    }
}

/// One semantic argument or result of a packed call.
///
/// `Float64Bits` holds the bit pattern of the float member; `Ptr`, `Func` and
/// `Ext` hold opaque native addresses; `Ext` pairs the address with the
/// extension type code it was decoded under.
#[derive(Debug)]
pub enum PackedArg {
    Unknown,
    Int64(i64),
    UInt64(u64),
    Float64Bits(u64),
    Ptr(usize),
    String(String),
    Func(PackedFunc),
    Vec(Vec<PackedArg>),
    Ext(u32, usize),
}

/// Mathematical model of one semantic argument.
pub enum SpecArg {
    Unknown,
    Int64(i64),
    UInt64(u64),
    Float64Bits(u64),
    Ptr(usize),
    String(Seq<char>),
    Func(SpecFunc),
    Vec(Seq<SpecArg>),
    Ext(u32, usize),
}

/// The model of one semantic argument.
pub open spec fn view_arg(a: PackedArg) -> SpecArg
    decreases a,
{
    match a {
        PackedArg::Unknown => SpecArg::Unknown,
        PackedArg::Int64(i) => SpecArg::Int64(i),
        PackedArg::UInt64(u) => SpecArg::UInt64(u),
        PackedArg::Float64Bits(b) => SpecArg::Float64Bits(b),
        PackedArg::Ptr(p) => SpecArg::Ptr(p),
        PackedArg::String(s) => SpecArg::String(s@),
        PackedArg::Func(f) => SpecArg::Func(f@),
        PackedArg::Vec(v) => SpecArg::Vec(view_args(v@)),
        PackedArg::Ext(c, p) => SpecArg::Ext(c, p),
    }
}

/// The models of a sequence of semantic arguments, elementwise.
pub open spec fn view_args(s: Seq<PackedArg>) -> Seq<SpecArg>
    decreases s,
{
    if s.len() == 0 {
        Seq::empty()
    } else {
        view_args(s.drop_last()).push(view_arg(s.last()))
    }
}

/// Appending one argument appends its model.
pub proof fn lemma_view_args_push(s: Seq<PackedArg>, a: PackedArg)
    ensures
        view_args(s.push(a)) == view_args(s).push(view_arg(a)),
{
    assert(s.push(a).drop_last() =~= s);
    assert(s.push(a).last() == a);
}

impl View for PackedArg {
    type V = SpecArg;

    open spec fn view(&self) -> SpecArg {
        view_arg(*self)
    }
}

} // verus!

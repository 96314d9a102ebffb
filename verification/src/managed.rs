//! Managed arguments: the owning counterparts of semantic arguments, built
//! before a call.
//!
//! A managed argument owns the backing storage that its raw encoding refers
//! to — the string contents, and recursively the raw values of a vector's
//! elements — so that the encoding stays valid for one native call. A
//! managed vector carries, beside its elements, the already-derived array of
//! their raw values and their one shared element type code: exactly what the
//! vector descriptor on the wire refers to.

use vstd::prelude::*;

use crate::arg::{view_arg, PackedArg, PackedFunc, SpecArg};
use crate::codec::{spec_base_raw, spec_decode};
use crate::error::PackedError;
use crate::raw::{view_value, view_values, PackedValue, PackedVec, SpecValue};

verus! {

broadcast use vstd::seq::group_seq_axioms, vstd::std_specs::vec::group_vec_axioms;

/// One managed argument: either a storage-free semantic value, an owned
/// string destined for the null-terminated buffer member, or an owned
/// vector with its derived descriptor contents.
#[derive(Debug)]
pub enum ManagedPackedArg {
    Base(PackedArg),
    String(String),
    Vec(ManagedPackedVec),
}

/// An owned vector and the derived array that its wire descriptor refers
/// to: `values` holds the raw encoding of each element of `managed`, and
/// `type_code` is their one shared element type code.
#[derive(Debug)]
pub struct ManagedPackedVec {
    pub type_code: u32,
    pub values: Vec<PackedValue>,
    pub managed: Vec<ManagedPackedArg>,
}

/// The raw encoding that a managed argument derives: its type code and raw
/// value, as handed to the native call.
pub open spec fn spec_managed_raw(m: ManagedPackedArg) -> (u32, SpecValue) {
    match m {
        ManagedPackedArg::Base(b) => spec_base_raw(view_arg(b)),
        ManagedPackedArg::String(s) => (4u32, SpecValue::Str(s@)),
        ManagedPackedArg::Vec(v) => (
            6u32,
            SpecValue::Vector(v.type_code, view_values(v.values@)),
        ),
    }
}

/// The semantic value that a managed argument stands for.
pub open spec fn spec_managed_sem(m: ManagedPackedArg) -> SpecArg
    decreases m,
{
    match m {
        ManagedPackedArg::Base(b) => view_arg(b),
        ManagedPackedArg::String(s) => SpecArg::String(s@),
        ManagedPackedArg::Vec(v) => SpecArg::Vec(spec_managed_sems(v.managed@)),
    }
}

/// The semantic values of a sequence of managed arguments, elementwise.
pub open spec fn spec_managed_sems(s: Seq<ManagedPackedArg>) -> Seq<SpecArg>
    decreases s,
{
    if s.len() == 0 {
        Seq::empty()
    } else {
        spec_managed_sems(s.drop_last()).push(spec_managed_sem(s.last()))
    }
}

/// Elementwise reading of `spec_managed_sems`.
pub proof fn lemma_managed_sems_index(s: Seq<ManagedPackedArg>)
    ensures
        spec_managed_sems(s).len() == s.len(),
        forall|i: int|
            0 <= i < s.len() ==> spec_managed_sems(s)[i] == #[trigger] spec_managed_sem(s[i]),
    decreases s,
{
    if s.len() > 0 {
        lemma_managed_sems_index(s.drop_last());
        let init = spec_managed_sems(s.drop_last());
        let last = spec_managed_sem(s.last());
        assert(spec_managed_sems(s) == init.push(last));
        assert forall|i: int| 0 <= i < s.len() implies spec_managed_sems(s)[i]
            == #[trigger] spec_managed_sem(s[i]) by {
            if i < s.len() - 1 {
                assert(s.drop_last()[i] == s[i]);
                assert(init.push(last)[i] == init[i]);
            } else {
                assert(s[i] == s.last());
                assert(init.push(last)[i] == last);
            }
        }
    }
}

/// Well-formedness of a managed argument: a string holds no null character,
/// and a vector's derived array matches its elements — same length, each
/// raw value the encoding of the element beside it, and every element's
/// type code equal to the vector's one element type code (the unknown code
/// for an empty vector). Builders establish this; marshalling relies on it.
pub open spec fn spec_managed_wf(m: ManagedPackedArg) -> bool
    decreases m,
{
    match m {
        ManagedPackedArg::Base(_) => true,
        ManagedPackedArg::String(s) => !s@.contains('\0'),
        ManagedPackedArg::Vec(v) => {
            &&& v.values@.len() == v.managed@.len()
            &&& forall|i: int|
                0 <= i < v.managed@.len() ==> view_value(v.values@[i]) == (
                #[trigger] spec_managed_raw(v.managed@[i])).1
            &&& forall|i: int|
                0 <= i < v.managed@.len() ==> (#[trigger] spec_managed_raw(v.managed@[i])).0
                    == v.type_code
            &&& v.managed@.len() == 0 ==> v.type_code == 0
            &&& spec_managed_all_wf(v.managed@)
        },
    }
}

/// Well-formedness of every managed argument in a sequence.
pub open spec fn spec_managed_all_wf(s: Seq<ManagedPackedArg>) -> bool
    decreases s,
{
    s.len() == 0 || (spec_managed_all_wf(s.drop_last()) && spec_managed_wf(s.last()))
}

/// A sequence is well-formed exactly when each of its elements is.
pub proof fn lemma_all_wf_index(s: Seq<ManagedPackedArg>)
    ensures
        spec_managed_all_wf(s) <==> (forall|i: int|
            0 <= i < s.len() ==> #[trigger] spec_managed_wf(s[i])),
    decreases s,
{
    if s.len() > 0 {
        lemma_all_wf_index(s.drop_last());
        if spec_managed_all_wf(s) {
            assert forall|i: int| 0 <= i < s.len() implies #[trigger] spec_managed_wf(s[i]) by {
                if i < s.len() - 1 {
                    assert(s.drop_last()[i] == s[i]);
                } else {
                    assert(s[i] == s.last());
                }
            }
        } else {
            if forall|i: int| 0 <= i < s.len() ==> #[trigger] spec_managed_wf(s[i]) {
                assert forall|i: int|
                    0 <= i < s.drop_last().len() implies #[trigger] spec_managed_wf(
                    s.drop_last()[i],
                ) by {
                    assert(s.drop_last()[i] == s[i]);
                }
                assert(spec_managed_wf(s.last()));
            }
        }
    }
}

/// Whether a managed argument's raw encoding decodes back to its own
/// semantic value. This excludes the values that the wire cannot carry
/// losslessly: the unknown value, an unsigned integer (which travels through
/// the signed member), a bare string or vector outside its managed form, a
/// function handle still carrying its resolved name (the name does not
/// cross), and an extension handle whose code lies inside the named range.
pub open spec fn spec_encodable(m: ManagedPackedArg) -> bool
    decreases m,
{
    match m {
        ManagedPackedArg::Base(b) => match b {
            PackedArg::Int64(_) => true,
            PackedArg::Float64Bits(_) => true,
            PackedArg::Ptr(_) => true,
            PackedArg::Func(f) => f.name is None,
            PackedArg::Ext(c, _) => c > 6,
            _ => false,
        },
        ManagedPackedArg::String(_) => true,
        ManagedPackedArg::Vec(v) => spec_all_encodable(v.managed@),
    }
}

/// Losslessness of every managed argument in a sequence.
pub open spec fn spec_all_encodable(s: Seq<ManagedPackedArg>) -> bool
    decreases s,
{
    s.len() == 0 || (spec_all_encodable(s.drop_last()) && spec_encodable(s.last()))
}

/// A sequence is lossless exactly when each of its elements is.
pub proof fn lemma_all_encodable_index(s: Seq<ManagedPackedArg>)
    ensures
        spec_all_encodable(s) <==> (forall|i: int|
            0 <= i < s.len() ==> #[trigger] spec_encodable(s[i])),
    decreases s,
{
    if s.len() > 0 {
        lemma_all_encodable_index(s.drop_last());
        if spec_all_encodable(s) {
            assert forall|i: int| 0 <= i < s.len() implies #[trigger] spec_encodable(s[i]) by {
                if i < s.len() - 1 {
                    assert(s.drop_last()[i] == s[i]);
                } else {
                    assert(s[i] == s.last());
                }
            }
        } else {
            if forall|i: int| 0 <= i < s.len() ==> #[trigger] spec_encodable(s[i]) {
                assert forall|i: int|
                    0 <= i < s.drop_last().len() implies #[trigger] spec_encodable(
                    s.drop_last()[i],
                ) by {
                    assert(s.drop_last()[i] == s[i]);
                }
                assert(spec_encodable(s.last()));
            }
        }
    }
}

/// Round trip through the wire: a well-formed managed argument that the wire
/// can carry losslessly decodes, under its own derived type code and raw
/// value, back to exactly the semantic value it stands for. In particular
/// every scalar, every managed string, and every well-formed homogeneous
/// vector of such values — of any length, nesting included — survives the
/// passage with order and length preserved.
pub proof fn lemma_managed_round_trip(m: ManagedPackedArg)
    requires
        spec_managed_wf(m),
        spec_encodable(m),
    ensures
        spec_decode(spec_managed_raw(m).0, spec_managed_raw(m).1) == Some(spec_managed_sem(m)),
    decreases m,
{
    match m {
        ManagedPackedArg::Base(_) => {},
        ManagedPackedArg::String(_) => {},
        ManagedPackedArg::Vec(v) => {
            lemma_all_wf_index(v.managed@);
            lemma_all_encodable_index(v.managed@);
            lemma_managed_sems_index(v.managed@);
            crate::raw::lemma_view_values_index(v.values@);
            let raws = view_values(v.values@);
            let sems = spec_managed_sems(v.managed@);
            assert forall|i: int| 0 <= i < raws.len() implies #[trigger] spec_decode(
                v.type_code,
                raws[i],
            ) == Some(sems[i]) by {
                lemma_managed_round_trip(v.managed@[i]);
            }
            crate::codec::lemma_decode_elems_pointwise(v.type_code, raws, sems);
        },
    }
}

/// Vector round trip, spelled out: a well-formed managed vector of lossless
/// elements decodes back to a vector of the same length whose elements are,
/// in the same order, the semantic values of the managed elements.
pub proof fn lemma_vector_round_trip(v: ManagedPackedVec)
    requires
        spec_managed_wf(ManagedPackedArg::Vec(v)),
        spec_encodable(ManagedPackedArg::Vec(v)),
    ensures
        spec_decode(6, SpecValue::Vector(v.type_code, view_values(v.values@))) matches Some(a) && (
        a matches SpecArg::Vec(sems) && sems.len() == v.managed@.len() && forall|i: int|
            0 <= i < v.managed@.len() ==> sems[i] == #[trigger] spec_managed_sem(v.managed@[i])),
{
    lemma_managed_round_trip(ManagedPackedArg::Vec(v));
    lemma_managed_sems_index(v.managed@);
}

impl ManagedPackedArg {
    /// A managed signed integer argument.
    pub fn from_i64(value: i64) -> (r: ManagedPackedArg)
        ensures
            spec_managed_sem(r) == SpecArg::Int64(value),
            spec_managed_wf(r),
    {
        ManagedPackedArg::Base(PackedArg::Int64(value))
    }

    /// A managed signed integer argument from a narrower integer, widened
    /// exactly.
    pub fn from_i32(value: i32) -> (r: ManagedPackedArg)
        ensures
            spec_managed_sem(r) == SpecArg::Int64(value as i64),
            spec_managed_wf(r),
    {
        ManagedPackedArg::Base(PackedArg::Int64(value as i64))
    }

    /// A managed unsigned integer argument. On the wire it travels through
    /// the signed integer member.
    pub fn from_u64(value: u64) -> (r: ManagedPackedArg)
        ensures
            spec_managed_sem(r) == SpecArg::UInt64(value),
            spec_managed_wf(r),
    {
        ManagedPackedArg::Base(PackedArg::UInt64(value))
    }

    /// A managed float argument, given by its bit pattern.
    pub fn from_f64_bits(bits: u64) -> (r: ManagedPackedArg)
        ensures
            spec_managed_sem(r) == SpecArg::Float64Bits(bits),
            spec_managed_wf(r),
    {
        ManagedPackedArg::Base(PackedArg::Float64Bits(bits))
    }

    /// A managed function argument: functions are first-class, so a resolved
    /// handle can itself be passed, carrying its native handle for the
    /// callee to invoke back.
    pub fn from_func(f: PackedFunc) -> (r: ManagedPackedArg)
        ensures
            spec_managed_sem(r) == SpecArg::Func(f@),
            spec_managed_wf(r),
    {
        ManagedPackedArg::Base(PackedArg::Func(f))
    }

    /// A managed string argument. The string will cross the boundary as a
    /// null-terminated buffer, so a string containing an embedded null
    /// character is refused with an encoding error; every other string is
    /// accepted.
    pub fn new_string(value: &str) -> (r: Result<ManagedPackedArg, PackedError>)
        ensures
            value@.contains('\0') ==> r == Err::<ManagedPackedArg, PackedError>(
                PackedError::Encoding,
            ),
            !value@.contains('\0') ==> (r matches Ok(m) && spec_managed_sem(m) == SpecArg::String(
                value@,
            ) && spec_managed_raw(m) == (4u32, SpecValue::Str(value@)) && spec_managed_wf(m)),
    {
        let n = value.unicode_len();
        let mut i: usize = 0;
        while i < n
            invariant
                n == value@.len(),
                i <= n,
                forall|j: int| 0 <= j < i ==> value@[j] != '\0',
            decreases n - i,
        {
            if value.get_char(i) == '\0' {
                return Err(PackedError::Encoding);
            }
            i = i + 1;
        }
        Ok(ManagedPackedArg::String(value.to_owned()))
    }

    /// The managed vector argument over already-built managed elements.
    ///
    /// Derives each element's raw encoding into one contiguous array and
    /// verifies that all elements share one type code: the wire cannot
    /// represent a heterogeneous vector, so two differing element type codes
    /// are refused with a type mismatch error. An empty vector is accepted
    /// and keeps the unknown element type code.
    pub fn new_vec(elems: Vec<ManagedPackedArg>) -> (r: Result<ManagedPackedArg, PackedError>)
        requires
            forall|i: int| 0 <= i < elems@.len() ==> #[trigger] spec_managed_wf(elems@[i]),
        ensures
            (forall|i: int, j: int|
                0 <= i < elems@.len() && 0 <= j < elems@.len() ==> (#[trigger] spec_managed_raw(
                    elems@[i],
                )).0 == (#[trigger] spec_managed_raw(elems@[j])).0) ==> (r matches Ok(m) && (m
                matches ManagedPackedArg::Vec(v) && v.managed@ == elems@) && spec_managed_sem(m)
                == SpecArg::Vec(spec_managed_sems(elems@)) && spec_managed_wf(m)),
            (exists|i: int, j: int|
                0 <= i < elems@.len() && 0 <= j < elems@.len() && (#[trigger] spec_managed_raw(
                    elems@[i],
                )).0 != (#[trigger] spec_managed_raw(elems@[j])).0) ==> r == Err::<
                ManagedPackedArg,
                PackedError,
            >(PackedError::TypeMismatch),
    {
        let mut values: Vec<PackedValue> = Vec::new();
        let mut type_code: u32 = 0;
        let mut i: usize = 0;
        while i < elems.len()
            invariant
                i <= elems@.len(),
                values@.len() == i,
                forall|j: int| 0 <= j < elems@.len() ==> #[trigger] spec_managed_wf(elems@[j]),
                forall|j: int| 0 <= j < i ==> view_value(values@[j]) == (
                #[trigger] spec_managed_raw(elems@[j])).1,
                forall|j: int| 0 <= j < i ==> (#[trigger] spec_managed_raw(elems@[j])).0
                    == type_code,
                i == 0 ==> type_code == 0,
            decreases elems@.len() - i,
        {
            let (code, value) = elems[i].to_raw();
            if i == 0 {
                type_code = code;
            } else if code != type_code {
                proof {
                    assert(spec_managed_raw(elems@[0]).0 == type_code);
                    assert(spec_managed_raw(elems@[i as int]).0 == code);
                }
                return Err(PackedError::TypeMismatch);
            }
            values.push(value);
            i = i + 1;
        }
        let out = ManagedPackedArg::Vec(ManagedPackedVec { type_code, values, managed: elems });
        proof {
            lemma_all_wf_index(elems@);
            assert(spec_managed_wf(out));
        }
        Ok(out)
    }

    /// The raw encoding of this managed argument, surrendering ownership of
    /// the derived storage to the caller for the duration of the call.
    pub fn to_raw(&self) -> (r: (u32, PackedValue))
        ensures
            r.0 == spec_managed_raw(*self).0,
            r.1@ == spec_managed_raw(*self).1,
    {
        match self {
            ManagedPackedArg::Base(b) => b.to_raw(),
            ManagedPackedArg::String(s) => (4, PackedValue::Str(s.clone())),
            ManagedPackedArg::Vec(v) => (
                6,
                PackedValue::Vector(
                    PackedVec { type_code: v.type_code, elems: clone_values(&v.values) },
                ),
            ),
        }
    }
}

impl From<i64> for ManagedPackedArg {
    /// A managed signed integer argument, as `from_i64`.
    fn from(value: i64) -> ManagedPackedArg {
        ManagedPackedArg::Base(PackedArg::Int64(value))
    }
}

impl vstd::std_specs::convert::FromSpecImpl<i64> for ManagedPackedArg {
    open spec fn obeys_from_spec() -> bool {
        true
    }

    open spec fn from_spec(value: i64) -> ManagedPackedArg {
        ManagedPackedArg::Base(PackedArg::Int64(value))
    }
}

impl From<i32> for ManagedPackedArg {
    /// A managed signed integer argument, widened exactly, as `from_i32`.
    fn from(value: i32) -> ManagedPackedArg {
        ManagedPackedArg::Base(PackedArg::Int64(value as i64))
    }
}

impl vstd::std_specs::convert::FromSpecImpl<i32> for ManagedPackedArg {
    open spec fn obeys_from_spec() -> bool {
        true
    }

    open spec fn from_spec(value: i32) -> ManagedPackedArg {
        ManagedPackedArg::Base(PackedArg::Int64(value as i64))
    }
}

impl From<u64> for ManagedPackedArg {
    /// A managed unsigned integer argument, as `from_u64`.
    fn from(value: u64) -> ManagedPackedArg {
        ManagedPackedArg::Base(PackedArg::UInt64(value))
    }
}

impl vstd::std_specs::convert::FromSpecImpl<u64> for ManagedPackedArg {
    open spec fn obeys_from_spec() -> bool {
        true
    }

    open spec fn from_spec(value: u64) -> ManagedPackedArg {
        ManagedPackedArg::Base(PackedArg::UInt64(value))
    }
}

impl From<PackedFunc> for ManagedPackedArg {
    /// A managed function argument, as `from_func`.
    fn from(value: PackedFunc) -> ManagedPackedArg {
        ManagedPackedArg::Base(PackedArg::Func(value))
    }
}

impl vstd::std_specs::convert::FromSpecImpl<PackedFunc> for ManagedPackedArg {
    open spec fn obeys_from_spec() -> bool {
        true
    }

    open spec fn from_spec(value: PackedFunc) -> ManagedPackedArg {
        ManagedPackedArg::Base(PackedArg::Func(value))
    }
}

/// A copy of one raw value, member for member.
fn clone_value(value: &PackedValue) -> (r: PackedValue)
    ensures
        r@ == value@,
    decreases value,
{
    match value {
        PackedValue::Int64(i) => PackedValue::Int64(*i),
        PackedValue::Float64Bits(b) => PackedValue::Float64Bits(*b),
        PackedValue::Ptr(p) => PackedValue::Ptr(*p),
        PackedValue::Str(s) => PackedValue::Str(s.clone()),
        PackedValue::Func(h) => PackedValue::Func(*h),
        PackedValue::Vector(pv) => PackedValue::Vector(
            PackedVec { type_code: pv.type_code, elems: clone_values(&pv.elems) },
        ),
    }
}

/// A copy of a derived raw value array, element for element.
fn clone_values(values: &Vec<PackedValue>) -> (r: Vec<PackedValue>)
    ensures
        view_values(r@) == view_values(values@),
    decreases values,
{
    let mut out: Vec<PackedValue> = Vec::new();
    let mut i: usize = 0;
    proof {
        crate::raw::lemma_view_values_index(values@);
    }
    while i < values.len()
        invariant
            i <= values@.len(),
            out@.len() == i,
            forall|j: int| 0 <= j < values@.len() ==> #[trigger] view_value(values@[j])
                == crate::raw::view_values(values@)[j],
            forall|j: int| 0 <= j < i ==> #[trigger] view_value(out@[j]) == view_value(values@[j]),
        decreases values@.len() - i,
    {
        proof {
            assert(decreases_to!(values => values[i as int]));
        }
        out.push(clone_value(&values[i]));
        i = i + 1;
    }
    proof {
        crate::raw::lemma_view_values_index(out@);
        assert(view_values(out@) =~= view_values(values@));
    }
    out
}

} // verus!

//! The packed value codec: between a semantic tagged value and its flat,
//! type-code-paired raw encoding.
//!
//! Scalars encode and decode by direct reinterpretation. A string is decoded
//! by a defensive copy, because the source buffer's validity ends with the
//! call. A vector is decoded recursively, every element under the vector's
//! single element type code. A value whose type code is the generic pointer
//! code decodes to a raw pointer; any other code outside the named range is
//! treated as an extension type code and decodes to an extension value —
//! which concrete extension wrapper that corresponds to is the caller's to
//! resolve. Decoding the unknown type code, or a raw value whose active
//! member does not pair with its type code, fails with a decode error.

use vstd::prelude::*;

use crate::arg::{PackedArg, PackedFunc, SpecArg, SpecFunc};
use crate::error::PackedError;
use crate::raw::{PackedValue, SpecValue};

verus! {

broadcast use vstd::seq::group_seq_axioms, vstd::std_specs::vec::group_vec_axioms;

/// The raw encoding of a semantic argument that owns no backing storage:
/// scalars, pointers, function handles and extension handles. Values that
/// need storage behind them (strings, vectors) have no raw encoding of their
/// own — they are marshalled through a managed argument — and map to the
/// unknown type code, as does `Unknown` itself.
pub open spec fn spec_base_raw(a: SpecArg) -> (u32, SpecValue) {
    match a {
        SpecArg::Int64(i) => (1u32, SpecValue::Int64(i)),
        SpecArg::UInt64(u) => (1u32, SpecValue::Int64(u as i64)),
        SpecArg::Float64Bits(b) => (2u32, SpecValue::Float64Bits(b)),
        SpecArg::Ptr(p) => (3u32, SpecValue::Ptr(p)),
        SpecArg::Func(f) => (5u32, SpecValue::Func(f.handle)),
        SpecArg::Ext(c, p) => (c, SpecValue::Ptr(p)),
        _ => (0u32, SpecValue::Int64(0)),
    }
}

/// What decoding a type code and raw value yields, or `None` where decoding
/// fails: on the unknown type code, and on a raw value whose active member
/// does not pair with its type code.
pub open spec fn spec_decode(code: u32, v: SpecValue) -> Option<SpecArg>
    decreases v,
{
    if code == 1 {
        match v {
            SpecValue::Int64(i) => Some(SpecArg::Int64(i)),
            _ => None,
        }
    } else if code == 2 {
        match v {
            SpecValue::Float64Bits(b) => Some(SpecArg::Float64Bits(b)),
            _ => None,
        }
    } else if code == 4 {
        match v {
            SpecValue::Str(s) => Some(SpecArg::String(s)),
            _ => None,
        }
    } else if code == 5 {
        match v {
            SpecValue::Func(h) => Some(SpecArg::Func(SpecFunc { name: None, handle: h })),
            _ => None,
        }
    } else if code == 6 {
        match v {
            SpecValue::Vector(elem_code, elems) => match spec_decode_elems(elem_code, elems) {
                Some(args) => Some(SpecArg::Vec(args)),
                None => None,
            },
            _ => None,
        }
    } else if code == 3 {
        match v {
            SpecValue::Ptr(p) => Some(SpecArg::Ptr(p)),
            _ => None,
        }
    } else if code > 6 {
        match v {
            SpecValue::Ptr(p) => Some(SpecArg::Ext(code, p)),
            _ => None,
        }
    } else {
        None
    }
}

/// Elementwise decoding of a vector's elements, all under the vector's one
/// element type code; `None` as soon as any element fails.
pub open spec fn spec_decode_elems(code: u32, s: Seq<SpecValue>) -> Option<Seq<SpecArg>>
    decreases s,
{
    if s.len() == 0 {
        Some(Seq::empty())
    } else {
        match (spec_decode_elems(code, s.drop_last()), spec_decode(code, s.last())) {
            (Some(init), Some(last)) => Some(init.push(last)),
            _ => None,
        }
    }
}

impl PackedArg {
    /// The raw encoding of a storage-free semantic argument: its type code
    /// and the raw value whose active member it selects.
    pub fn to_raw(&self) -> (r: (u32, PackedValue))
        ensures
            r.0 == spec_base_raw(self@).0,
            r.1@ == spec_base_raw(self@).1,
    {
        match self {
            PackedArg::Int64(i) => (1, PackedValue::Int64(*i)),
            PackedArg::UInt64(u) => (1, PackedValue::Int64(#[verifier::truncate] (*u as i64))),
            PackedArg::Float64Bits(b) => (2, PackedValue::Float64Bits(*b)),
            PackedArg::Ptr(p) => (3, PackedValue::Ptr(*p)),
            PackedArg::Func(f) => (5, PackedValue::Func(f.handle)),
            PackedArg::Ext(c, p) => (*c, PackedValue::Ptr(*p)),
            _ => (0, PackedValue::Int64(0)),
        }
    }

    /// Decode one returned or received (type code, raw value) pair into a
    /// semantic argument. Fails with a decode error exactly where the pair
    /// has no decoding.
    pub fn from_raw(type_code: u32, value: &PackedValue) -> (r: Result<PackedArg, PackedError>)
        ensures
            match spec_decode(type_code, value@) {
                Some(a) => r matches Ok(got) && got@ == a,
                None => r == Err::<PackedArg, PackedError>(PackedError::Decode),
            },
        decreases value,
    {
        match value {
            PackedValue::Int64(i) => {
                if type_code == 1 {
                    Ok(PackedArg::Int64(*i))
                } else {
                    Err(PackedError::Decode)
                }
            },
            PackedValue::Float64Bits(b) => {
                if type_code == 2 {
                    Ok(PackedArg::Float64Bits(*b))
                } else {
                    Err(PackedError::Decode)
                }
            },
            PackedValue::Str(s) => {
                if type_code == 4 {
                    Ok(PackedArg::String(s.clone()))
                } else {
                    Err(PackedError::Decode)
                }
            },
            PackedValue::Func(h) => {
                if type_code == 5 {
                    Ok(PackedArg::Func(PackedFunc { name: None, handle: *h }))
                } else {
                    Err(PackedError::Decode)
                }
            },
            PackedValue::Ptr(p) => {
                if type_code == 3 {
                    Ok(PackedArg::Ptr(*p))
                } else if type_code > 6 {
                    Ok(PackedArg::Ext(type_code, *p))
                } else {
                    Err(PackedError::Decode)
                }
            },
            PackedValue::Vector(pv) => {
                if type_code == 6 {
                    match Self::from_raw_elems(pv.type_code, &pv.elems) {
                        Ok(args) => Ok(PackedArg::Vec(args)),
                        Err(e) => Err(e),
                    }
                } else {
                    Err(PackedError::Decode)
                }
            },
        }
    }

    /// Decode every element of a vector under its one element type code.
    fn from_raw_elems(elem_code: u32, elems: &Vec<PackedValue>) -> (r: Result<
        Vec<PackedArg>,
        PackedError,
    >)
        ensures
            match spec_decode_elems(elem_code, crate::raw::view_values(elems@)) {
                Some(args) => r matches Ok(got) && crate::arg::view_args(got@) == args,
                None => r == Err::<Vec<PackedArg>, PackedError>(PackedError::Decode),
            },
        decreases elems,
    {
        proof {
            crate::raw::lemma_view_values_index(elems@);
        }
        let ghost raws = crate::raw::view_values(elems@);
        let mut out: Vec<PackedArg> = Vec::new();
        let mut i: usize = 0;
        while i < elems.len()
            invariant
                i <= elems@.len(),
                raws == crate::raw::view_values(elems@),
                raws.len() == elems@.len(),
                forall|j: int| 0 <= j < elems@.len() ==> raws[j] == crate::raw::view_value(
                    elems@[j],
                ),
                spec_decode_elems(elem_code, raws.take(i as int)) is Some,
                crate::arg::view_args(out@) == spec_decode_elems(
                    elem_code,
                    raws.take(i as int),
                ).unwrap(),
            decreases elems@.len() - i,
        {
            proof {
                assert(decreases_to!(elems => elems[i as int]));
            }
            match Self::from_raw(elem_code, &elems[i]) {
                Ok(a) => {
                    let ghost prev = out@;
                    out.push(a);
                    proof {
                        assert(out@ == prev.push(a));
                        crate::arg::lemma_view_args_push(prev, a);
                        assert(raws.take(i as int + 1).drop_last() =~= raws.take(i as int));
                        assert(raws.take(i as int + 1).last() == raws[i as int]);
                    }
                },
                Err(_) => {
                    proof {
                        lemma_decode_elems_prefix_fail(elem_code, raws, i as int);
                    }
                    return Err(PackedError::Decode);
                },
            }
            i = i + 1;
        }
        proof {
            assert(raws.take(i as int) =~= raws);
        }
        Ok(out)
    }
}

/// If one element has no decoding, the whole vector has none.
proof fn lemma_decode_elems_prefix_fail(code: u32, s: Seq<SpecValue>, i: int)
    requires
        0 <= i < s.len(),
        spec_decode(code, s[i]) is None,
    ensures
        spec_decode_elems(code, s) is None,
    decreases s,
{
    if s.len() > 0 {
        if i < s.len() - 1 {
            lemma_decode_elems_prefix_fail(code, s.drop_last(), i);
        }
    }
}

/// If every element decodes to a known value, the vector decodes to exactly
/// those values, in order.
pub proof fn lemma_decode_elems_pointwise(code: u32, raws: Seq<SpecValue>, sems: Seq<SpecArg>)
    requires
        raws.len() == sems.len(),
        forall|i: int|
            0 <= i < raws.len() ==> #[trigger] spec_decode(code, raws[i]) == Some(sems[i]),
    ensures
        spec_decode_elems(code, raws) == Some(sems),
    decreases raws,
{
    if raws.len() > 0 {
        assert forall|i: int|
            0 <= i < raws.drop_last().len() implies #[trigger] spec_decode(
            code,
            raws.drop_last()[i],
        ) == Some(sems.drop_last()[i]) by {
            assert(raws.drop_last()[i] == raws[i]);
            assert(sems.drop_last()[i] == sems[i]);
        }
        lemma_decode_elems_pointwise(code, raws.drop_last(), sems.drop_last());
        assert(spec_decode(code, raws.last()) == Some(sems.last()));
        assert(sems.drop_last().push(sems.last()) =~= sems);
    }
}

/// Scalar round trip: every signed integer and every float bit pattern
/// survives the passage through its raw encoding and back.
pub proof fn lemma_scalar_round_trip(a: SpecArg)
    requires
        a is Int64 || a is Float64Bits,
    ensures
        spec_decode(spec_base_raw(a).0, spec_base_raw(a).1) == Some(a),
{
}

} // verus!

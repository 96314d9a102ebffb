//! The call protocol: marshal the managed arguments into parallel type-code
//! and value arrays, hand them with the function handle to the native entry
//! point, and interpret the single returned pair.
//!
//! The native invocation itself crosses the boundary and stands outside this
//! crate; here are the two verified halves around it — what is sent, as a
//! function of the arguments alone, and what every possible reply means.

use vstd::prelude::*;

use crate::arg::{PackedArg, SpecFunc};
use crate::codec::spec_decode;
use crate::error::PackedError;
use crate::managed::{spec_managed_raw, ManagedPackedArg};
use crate::raw::{view_value, PackedValue};

verus! {

broadcast use vstd::seq::group_seq_axioms, vstd::std_specs::vec::group_vec_axioms;

/// The type codes that a sequence of managed arguments marshals to.
pub open spec fn spec_marshal_codes(s: Seq<ManagedPackedArg>) -> Seq<u32> {
    Seq::new(s.len(), |i: int| spec_managed_raw(s[i]).0)
}

/// The raw values that a sequence of managed arguments marshals to.
pub open spec fn spec_marshal_values(s: Seq<ManagedPackedArg>) -> Seq<crate::raw::SpecValue> {
    Seq::new(s.len(), |i: int| spec_managed_raw(s[i]).1)
}

/// Everything the native entry point receives from one call: the resolved
/// handle, the argument count implicit in the arrays, and the two parallel
/// arrays. It is a function of the handle and the arguments alone.
pub open spec fn spec_call_request(f: SpecFunc, args: Seq<ManagedPackedArg>) -> (
    usize,
    Seq<u32>,
    Seq<crate::raw::SpecValue>,
) {
    (f.handle, spec_marshal_codes(args), spec_marshal_values(args))
}

/// Marshal the arguments of one call into the parallel type-code and raw
/// value arrays that the native entry point consumes, in argument order.
pub fn marshal(args: &Vec<ManagedPackedArg>) -> (r: (Vec<u32>, Vec<PackedValue>))
    ensures
        r.0@ == spec_marshal_codes(args@),
        crate::raw::view_values(r.1@) == spec_marshal_values(args@),
{
    let mut type_codes: Vec<u32> = Vec::new();
    let mut values: Vec<PackedValue> = Vec::new();
    let mut i: usize = 0;
    while i < args.len()
        invariant
            i <= args@.len(),
            type_codes@.len() == i,
            values@.len() == i,
            forall|j: int| 0 <= j < i ==> type_codes@[j] == (#[trigger] spec_managed_raw(
                args@[j],
            )).0,
            forall|j: int| 0 <= j < i ==> view_value(values@[j]) == (#[trigger] spec_managed_raw(
                args@[j],
            )).1,
        decreases args@.len() - i,
    {
        let (code, value) = args[i].to_raw();
        type_codes.push(code);
        values.push(value);
        i = i + 1;
    }
    proof {
        assert(type_codes@ =~= spec_marshal_codes(args@));
        crate::raw::lemma_view_values_index(values@);
        assert(crate::raw::view_values(values@) =~= spec_marshal_values(args@));
    }
    (type_codes, values)
}

/// Interpret what came back from the native entry point. A non-success
/// status code aborts the call with a native call error, whatever the output
/// slots hold; on success the returned (type code, value) pair is decoded,
/// and a pair with no decoding fails with a decode error.
pub fn complete_call(status: i32, ret_type: u32, ret_val: &PackedValue) -> (r: Result<
    PackedArg,
    PackedError,
>)
    ensures
        status != 0 ==> r == Err::<PackedArg, PackedError>(PackedError::NativeCall(status)),
        status == 0 ==> match spec_decode(ret_type, ret_val@) {
            Some(a) => r matches Ok(got) && got@ == a,
            None => r == Err::<PackedArg, PackedError>(PackedError::Decode),
        },
{
    if status != 0 {
        Err(PackedError::NativeCall(status))
    } else {
        PackedArg::from_raw(ret_type, ret_val)
    }
}

/// Two resolutions of one entry point behave identically: everything a
/// packed call sends to the native side is a function of the resolved
/// handle and the arguments alone, so handles with equal addresses produce
/// identical requests for identical arguments — and the interpretation of
/// the reply does not depend on the handle at all.
pub proof fn lemma_equal_handles_same_request(
    f1: SpecFunc,
    f2: SpecFunc,
    args: Seq<ManagedPackedArg>,
)
    requires
        f1.handle == f2.handle,
    ensures
        spec_call_request(f1, args) == spec_call_request(f2, args),
{
}

} // verus!

//! The function registry client's decisions.
//!
//! The native registry is a tag-namespaced lookup table mapping names to
//! function handles. Lookup itself is a stateless native query that stands
//! outside this crate; here is the verified interpretation of what it hands
//! back — the protocol has no distinct "not found" status, so an invalid
//! (null) resolved handle is treated as a not-found error, indistinguishable
//! at this layer from any other native lookup failure.

use vstd::prelude::*;

use crate::arg::{PackedFunc, SpecFunc};
use crate::error::PackedError;

verus! {

impl PackedFunc {
    /// Interpret the handle that the native registry resolved for a name.
    /// The null handle means the name is not registered (or the lookup
    /// failed natively — the wire does not distinguish); any other handle
    /// is a callable function carrying the name it was resolved under.
    pub fn resolve(name: &str, handle: usize) -> (r: Result<PackedFunc, PackedError>)
        ensures
            handle == 0 ==> r == Err::<PackedFunc, PackedError>(PackedError::NotFound),
            handle != 0 ==> (r matches Ok(f) && f@ == (SpecFunc {
                name: Some(name@),
                handle,
            })),
    {
        if handle == 0 {
            Err(PackedError::NotFound)
        } else {
            Ok(PackedFunc { name: Some(name.to_owned()), handle })
        }
    }
}

/// Relies on the `format!` macro of std: the result is the concatenation of
/// the two string arguments.
#[verifier::external_body]
fn concat_strs(a: &str, b: &str) -> (r: String)
    ensures
        r@ == a@ + b@,
{
    format!("{}{}", a, b)
}

/// The file name under which a native module of the given bare name is
/// expected inside the given directory, following the platform's shared
/// object naming. The directory part is taken as already ending in its
/// separator. Whether a module actually lies there is for the unverified
/// loader to find out.
pub fn _find_lib(dir: &str, name: &str) -> (r: String)
    ensures
        r@ == dir@ + "lib"@ + name@ + ".so"@,
{
    let prefixed = concat_strs(dir, "lib");
    let named = concat_strs(prefixed.as_str(), name);
    concat_strs(named.as_str(), ".so")
}

} // verus!

//! The extension-object ownership state machine.
//!
//! An extension handle is an opaque foreign object participating in the
//! packed calling convention through a reserved extension type code. A
//! handle is either owned — constructed through the type's registered "new"
//! entry point, to be released through its "release" entry point exactly
//! once — or borrowed, wrapping an externally supplied address without
//! ownership. Either way it ends released; using a released handle is a
//! usage error, detected here by inspecting the state before use.

use vstd::prelude::*;

use crate::arg::{PackedArg, SpecArg};
use crate::error::PackedError;
use crate::managed::{spec_managed_sem, spec_managed_wf, ManagedPackedArg};

verus! {

/// Where an extension handle stands in its lifecycle.
#[derive(Debug, Clone, Copy, PartialEq, Eq, Structural)]
pub enum ExtState {
    /// Constructed through the registered "new" entry point; this side owns
    /// the native object and must release it exactly once.
    Owned,
    /// Wrapping an externally supplied address; the native object belongs to
    /// someone else and is never released from here.
    Borrowed,
    /// Released; the address has been cleared to the null sentinel and the
    /// handle must not be used again.
    Released,
}

/// An opaque foreign handle with its extension type code and its place in
/// the ownership lifecycle.
#[derive(Debug, Clone, Copy, PartialEq, Eq, Structural)]
pub struct ExtHandle {
    pub type_code: u32,
    pub handle: usize,
    pub state: ExtState,
}

/// The state an extension handle is left in by one `release`.
pub open spec fn spec_release(h: ExtHandle) -> ExtHandle {
    if h.state is Owned {
        ExtHandle { type_code: h.type_code, handle: 0, state: ExtState::Released }
    } else {
        h
    }
}

/// Whether one `release` from this state invokes the native destructor.
pub open spec fn spec_release_invokes(h: ExtHandle) -> bool {
    h.state is Owned
}

/// Release is idempotent and owns exactly one destructor call: from an
/// owned handle, the first release invokes the native destructor and any
/// release after it does not; from a borrowed handle, no release ever
/// invokes it. So along every chain of releases the destructor runs exactly
/// once when the handle was owned, and never otherwise.
pub proof fn lemma_release_exactly_once(h: ExtHandle)
    ensures
        spec_release_invokes(h) <==> h.state is Owned,
        !spec_release_invokes(spec_release(h)),
        spec_release(spec_release(h)) == spec_release(h),
        h.state is Borrowed ==> !spec_release_invokes(h) && spec_release(h) == h,
{
}

impl ExtHandle {
    /// An owned handle from the decoded result of the extension type's
    /// registered "new" (or transforming) entry point. The native side
    /// returns the new object's address either as a raw pointer or already
    /// tagged with an extension code; any other shape of result fails with
    /// a type mismatch error.
    pub fn owned_from_result(type_code: u32, ret: PackedArg) -> (r: Result<ExtHandle, PackedError>)
        ensures
            r == match ret@ {
                SpecArg::Ptr(p) => Ok::<ExtHandle, PackedError>(
                    ExtHandle { type_code, handle: p, state: ExtState::Owned },
                ),
                SpecArg::Ext(_, p) => Ok::<ExtHandle, PackedError>(
                    ExtHandle { type_code, handle: p, state: ExtState::Owned },
                ),
                _ => Err::<ExtHandle, PackedError>(PackedError::TypeMismatch),
            },
    {
        match ret.into_handle() {
            Ok(p) => Ok(ExtHandle { type_code, handle: p, state: ExtState::Owned }),
            Err(e) => Err(e),
        }
    }

    /// A borrowed handle around a decoded extension value supplied from
    /// outside: ownership stays with the supplier. Any other shape of value
    /// fails with a type mismatch error.
    pub fn borrowed_from_result(type_code: u32, ret: PackedArg) -> (r: Result<
        ExtHandle,
        PackedError,
    >)
        ensures
            r == match ret@ {
                SpecArg::Ptr(p) => Ok::<ExtHandle, PackedError>(
                    ExtHandle { type_code, handle: p, state: ExtState::Borrowed },
                ),
                SpecArg::Ext(_, p) => Ok::<ExtHandle, PackedError>(
                    ExtHandle { type_code, handle: p, state: ExtState::Borrowed },
                ),
                _ => Err::<ExtHandle, PackedError>(PackedError::TypeMismatch),
            },
    {
        match ret.into_handle() {
            Ok(p) => Ok(ExtHandle { type_code, handle: p, state: ExtState::Borrowed }),
            Err(e) => Err(e),
        }
    }

    /// Whether this side owns the native object.
    pub fn is_owned(&self) -> (r: bool)
        ensures
            r == (self.state is Owned),
    {
        matches!(self.state, ExtState::Owned)
    }

    /// Release the handle, deciding whether the native destructor must now
    /// run. Returns the address to hand to the registered "release" entry
    /// point exactly when the handle was owned; the handle transitions to
    /// released with its address cleared to the null sentinel. On a
    /// borrowed or already released handle this is a no-op, so releasing on
    /// every exit path is always safe.
    pub fn release(&mut self) -> (r: Option<usize>)
        ensures
            *final(self) == spec_release(*old(self)),
            r == if spec_release_invokes(*old(self)) {
                Some(old(self).handle)
            } else {
                None::<usize>
            },
    {
        match self.state {
            ExtState::Owned => {
                let h = self.handle;
                self.handle = 0;
                self.state = ExtState::Released;
                Some(h)
            },
            _ => None,
        }
    }

    /// This handle as a managed call argument, packed under its own
    /// extension type code. A released handle is refused with a
    /// use-after-release error; a live one packs its address.
    pub fn as_arg(&self) -> (r: Result<ManagedPackedArg, PackedError>)
        ensures
            self.state is Released ==> r == Err::<ManagedPackedArg, PackedError>(
                PackedError::UseAfterRelease,
            ),
            !(self.state is Released) ==> (r matches Ok(m) && spec_managed_sem(m)
                == SpecArg::Ext(self.type_code, self.handle) && spec_managed_wf(m)),
    {
        match self.state {
            ExtState::Released => Err(PackedError::UseAfterRelease),
            _ => Ok(ManagedPackedArg::Base(PackedArg::Ext(self.type_code, self.handle))),
        }
    }
}

} // verus!

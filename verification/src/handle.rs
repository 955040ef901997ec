//! The move-only handle to a kernel-owned object.
//!
//! A `Handle` wraps the 32-bit id a kernel issued for an object, together
//! with the rights the holder was granted on it at creation or duplication
//! time. The value is linear: `close` consumes it, so using a handle after
//! closing it — closing it twice included — is a type error, not a runtime
//! one.
//!
//! The two privileged operations are split at the syscall boundary. The
//! library holds the decision and decoding halves, which are verified:
//! [`Handle::check_duplicate`] is the local capability check that
//! short-circuits before the privileged call, and
//! [`Handle::accept_duplicate`] turns the returned word into a typed
//! outcome. The raw calls themselves, and the wiring between these halves,
//! live with the caller that owns the boundary.

use vstd::prelude::*;

use crate::error::demux_spec;
use crate::error::Error;
use crate::error::ERR_ACCESS_DENIED;
use crate::rights::HandleRights;

verus! {

/// An opaque, move-only reference to a kernel-owned object.
///
/// The id has no meaning outside the issuing kernel instance; the rights are
/// fixed when the handle is obtained and never change afterwards.
#[derive(PartialEq, Eq, Structural, Hash, Debug)]
pub struct Handle {
    id: u32,
    rights: HandleRights,
}

impl Handle {
    /// The raw id the kernel issued for this handle.
    pub closed spec fn spec_id(self) -> u32 {
        self.id
    }

    /// The rights granted with this handle.
    pub closed spec fn spec_rights(self) -> HandleRights {
        self.rights
    }

    /// Wrap a kernel-issued id together with the rights it was granted
    /// with. Handles come only from the kernel; this records one it issued.
    pub fn new(id: u32, rights: HandleRights) -> (h: Handle)
        ensures
            h.spec_id() == id,
            h.spec_rights() == rights,
    {
        Handle { id, rights }
    }

    /// The raw id, for handing to a privileged call.
    pub fn raw_id(&self) -> (r: u32)
        ensures
            r == self.spec_id(),
    {
        self.id
    }

    /// The rights granted with this handle.
    pub fn rights(&self) -> (r: HandleRights)
        ensures
            r == self.spec_rights(),
    {
        self.rights
    }

    /// The local capability check before a duplicate call: succeeds exactly
    /// when every requested right is granted on this handle, and fails with
    /// `ERR_ACCESS_DENIED` otherwise. A caller makes the privileged call
    /// only after this check succeeds, so an over-broad request
    /// short-circuits without reaching the kernel.
    pub fn check_duplicate(&self, requested: HandleRights) -> (r: Result<(), Error>)
        ensures
            self.spec_rights().spec_contains(requested) ==> r == Ok::<(), Error>(()),
            !self.spec_rights().spec_contains(requested) ==> (r matches Err(e) && e.errno
                == ERR_ACCESS_DENIED),
    {
        self.rights.has(requested)
    }

    /// Decode the word a duplicate call returned. A success word carries the
    /// id of the new handle, which is wrapped with exactly the rights that
    /// were requested for it; a failure word decodes to its error — most
    /// notably access denied when the kernel refused the requested rights,
    /// or a bad-handle failure when this handle was stale.
    pub fn accept_duplicate(&self, requested: HandleRights, word: u64) -> (r: Result<
        Handle,
        Error,
    >)
        ensures
            match demux_spec(word) {
                Ok(id) => (r matches Ok(h) && h.spec_id() == id && h.spec_rights() == requested),
                Err(e) => r == Err::<Handle, Error>(e),
            },
    {
        match Error::demux(word) {
            Ok(id) => Ok(Handle { id, rights: requested }),
            Err(e) => Err(e),
        }
    }

    /// Consume the handle, yielding the raw id for the close call.
    ///
    /// Consuming the value is what makes close terminal: the handle cannot
    /// be used — or closed — again, whatever the kernel then says. The
    /// caller hands the id to the privileged close call and checks its
    /// outcome internally only; an unexpected failure there means a stale
    /// handle and is never surfaced to the holder.
    pub fn close(self) -> (id: u32)
        ensures
            id == self.spec_id(),
    {
        self.id
    }
}

} // verus!

//! OS resource handles: an owning wrapper around a raw descriptor, and the
//! in-flight form a handle takes while travelling between processes.

use vstd::prelude::*;

use crate::errors::Error;

verus! {

/// Raw OS handle type: a file descriptor.
pub type PlatformHandleType = i32;

/// A raw descriptor is valid when it is non-negative.
pub fn valid_handle(handle: PlatformHandleType) -> (r: bool)
    ensures
        r == (handle >= 0),
{
    handle >= 0
}

/// Owning wrapper around a single valid OS handle.
///
/// Ownership is single-owner and move-only: the wrapped descriptor leaves
/// either by `into_raw` (ownership passes to the caller) or by `close`
/// (the descriptor is closed), each of which consumes the wrapper, so the
/// descriptor cannot be released twice through it.
#[derive(Debug, PartialEq, Eq)]
pub struct PlatformHandle {
    raw: PlatformHandleType,
}

impl PlatformHandle {
    /// The wrapped descriptor.
    pub closed spec fn spec_raw(&self) -> i32 {
        self.raw
    }

    /// A wrapper is well formed when it holds a valid descriptor.
    pub open spec fn well_formed(&self) -> bool {
        self.spec_raw() >= 0
    }

    pub fn new(raw: PlatformHandleType) -> (r: PlatformHandle)
        requires
            raw >= 0,
        ensures
            r.spec_raw() == raw,
            r.well_formed(),
    {
        PlatformHandle { raw }
    }

    /// Releases ownership of the wrapped descriptor to the caller.
    pub fn into_raw(self) -> (r: PlatformHandleType)
        ensures
            r == self.spec_raw(),
    {
        self.raw
    }

    /// Decides the outcome of an OS-level duplication attempt whose raw
    /// result is `newfd`: the OS reports failure with a negative value, and
    /// success with a fresh valid descriptor, which becomes a new owned
    /// handle referring to the same underlying resource as the original.
    pub fn duplicate(newfd: PlatformHandleType) -> (r: Result<PlatformHandle, Error>)
        ensures
            newfd < 0 <==> r is Err,
            match r {
                Ok(p) => p.spec_raw() == newfd && p.well_formed(),
                Err(e) => e == Error::HandleDuplication,
            },
    {
        if newfd < 0 {
            Err(Error::HandleDuplication)
        } else {
            Ok(PlatformHandle::new(newfd))
        }
    }
}

/// A resource handle in flight between processes.
///
/// Before transmission it owns a local handle (and, when the platform needs
/// an explicit duplication on receipt, the id of the process the handle is
/// destined for). After reception it holds the raw value read off the wire,
/// from which a later duplication step produces a receiver-local owned
/// handle. The two forms are exclusive: a well-formed value never holds an
/// owned local handle and a raw remote value at once.
#[derive(Debug, PartialEq, Eq)]
pub struct RemoteHandle {
    pub local_handle: Option<PlatformHandle>,
    pub remote_handle: Option<PlatformHandleType>,
    pub target_pid: Option<u32>,
}

impl RemoteHandle {
    /// At most one of the two forms carries a handle.
    pub open spec fn well_formed(&self) -> bool {
        &&& !(self.local_handle is Some && self.remote_handle is Some)
        &&& (self.local_handle matches Some(h) ==> h.well_formed())
    }

    /// Holds a handle ready to be transmitted to process `target_pid`.
    pub open spec fn ready_to_send(&self) -> bool {
        &&& self.local_handle is Some
        &&& self.local_handle.unwrap().well_formed()
        &&& self.remote_handle is None
        &&& self.target_pid is Some
    }

    /// A local owned handle destined for the process `target_pid`.
    pub fn new_local_with_target(handle: PlatformHandle, target_pid: u32) -> (r: RemoteHandle)
        requires
            handle.well_formed(),
        ensures
            r.local_handle == Some(handle),
            r.remote_handle is None,
            r.target_pid == Some(target_pid),
            r.well_formed(),
            r.ready_to_send(),
    {
        RemoteHandle {
            local_handle: Some(handle),
            remote_handle: None,
            target_pid: Some(target_pid),
        }
    }

    /// The value `new_local` constructs: an owned local handle with no raw
    /// value and no destination process.
    pub closed spec fn spec_new_local(handle: PlatformHandleType) -> RemoteHandle {
        RemoteHandle {
            local_handle: Some(PlatformHandle { raw: handle }),
            remote_handle: None,
            target_pid: None,
        }
    }

    /// What `spec_new_local` holds: exactly one owned local handle, the
    /// one that was installed, and nothing else.
    pub proof fn lemma_new_local(handle: PlatformHandleType)
        ensures
            RemoteHandle::spec_new_local(handle).local_handle matches Some(h) && h.spec_raw()
                == handle,
            RemoteHandle::spec_new_local(handle).remote_handle is None,
            RemoteHandle::spec_new_local(handle).target_pid is None,
            handle >= 0 ==> RemoteHandle::spec_new_local(handle).local_handle.unwrap().well_formed(),
    {
    }

    /// A received handle that is already usable locally.
    pub fn new_local(handle: PlatformHandleType) -> (r: RemoteHandle)
        requires
            handle >= 0,
        ensures
            r == RemoteHandle::spec_new_local(handle),
            r.local_handle matches Some(h) && h.spec_raw() == handle,
            r.remote_handle is None,
            r.target_pid is None,
            r.well_formed(),
    {
        RemoteHandle {
            local_handle: Some(PlatformHandle::new(handle)),
            remote_handle: None,
            target_pid: None,
        }
    }

    /// The value `new_remote` constructs: only the raw value is held.
    pub open spec fn spec_new_remote(handle: PlatformHandleType) -> RemoteHandle {
        RemoteHandle { local_handle: None, remote_handle: Some(handle), target_pid: None }
    }

    /// A received raw value that still needs an OS-level duplication before
    /// it can be used locally.
    pub fn new_remote(handle: PlatformHandleType) -> (r: RemoteHandle)
        ensures
            r == RemoteHandle::spec_new_remote(handle),
            r.local_handle is None,
            r.remote_handle == Some(handle),
            r.target_pid is None,
            r.well_formed(),
    {
        RemoteHandle {
            local_handle: None,
            remote_handle: Some(handle),
            target_pid: None,
        }
    }

    /// Moves the owned local handle out, leaving the in-flight record
    /// without it: ownership passes to the caller exactly once.
    pub fn take_local(&mut self) -> (r: PlatformHandle)
        requires
            old(self).local_handle is Some,
        ensures
            r == old(self).local_handle.unwrap(),
            final(self).local_handle is None,
            final(self).remote_handle == old(self).remote_handle,
            final(self).target_pid == old(self).target_pid,
    {
        self.local_handle.take().unwrap()
    }

    /// The 64-bit value this handle puts on the wire: the raw remote value
    /// when one is held, else the sentinel for "no handle".
    pub open spec fn spec_wire_value(&self) -> i64 {
        match self.remote_handle {
            Some(h) => h as i64,
            None => crate::INVALID_HANDLE_VALUE,
        }
    }

    /// Serializes the handle for transmission.
    pub fn wire_value(&self) -> (r: i64)
        ensures
            r == self.spec_wire_value(),
    {
        match self.remote_handle {
            Some(h) => h as i64,
            None => crate::INVALID_HANDLE_VALUE,
        }
    }

    /// Reconstructs a handle from the 64-bit value read off the wire. On
    /// this platform a received descriptor arrives through the transport's
    /// ancillary data, so the embedded value stays in raw remote form until
    /// the transport installs the real descriptor.
    pub fn from_wire(value: i64) -> (r: RemoteHandle)
        requires
            i32::MIN <= value <= i32::MAX,
        ensures
            r.local_handle is None,
            r.remote_handle == Some(value as i32),
            r.target_pid is None,
            r.well_formed(),
    {
        RemoteHandle::new_remote(value as i32)
    }
}

} // verus!

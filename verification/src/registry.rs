//! The exclusive store for the single live worker handle.
//!
//! At most one worker exists per application lifetime, and only this
//! registry may hold its handle.  Callers never receive a reference into the
//! registry: `put` moves the handle in, `take` moves it out, and everything
//! else sees booleans.  The host serializes access (one lock around the
//! registry), so these operations describe the whole effect of each
//! critical section.

use vstd::prelude::*;
use crate::launcher::WorkerHandle;

verus! {

/// Holds the handle of the live worker, if any.
pub struct ServiceRegistry {
    handle: Option<WorkerHandle>,
}

impl ServiceRegistry {
    /// The stored handle, as specification state.
    pub closed spec fn spec_handle(&self) -> Option<WorkerHandle> {
        self.handle
    }

    /// Whether a handle is currently installed.
    pub open spec fn is_occupied(&self) -> bool {
        self.spec_handle() is Some
    }

    /// An empty registry.
    pub fn new() -> (r: ServiceRegistry)
        ensures
            r.spec_handle() is None,
    {
        ServiceRegistry { handle: None }
    }

    /// Installs a handle.  Refuses, returning the handle to the caller,
    /// when one is already installed: the registry never overwrites.
    pub fn put(&mut self, h: WorkerHandle) -> (r: Result<(), WorkerHandle>)
        ensures
            old(self).spec_handle() is None ==> r is Ok && final(self).spec_handle() == Some(h),
            old(self).spec_handle() is Some ==> (r matches Err(back) && back == h
                && final(self).spec_handle() == old(self).spec_handle()),
    {
        if self.handle.is_some() {
            Err(h)
        } else {
            self.handle = Some(h);
            Ok(())
        }
    }

    /// Atomically removes and returns the current handle, leaving the
    /// registry empty.
    pub fn take(&mut self) -> (r: Option<WorkerHandle>)
        ensures
            r == old(self).spec_handle(),
            final(self).spec_handle() is None,
    {
        self.handle.take()
    }

    /// Non-blocking presence check.
    pub fn is_present(&self) -> (b: bool)
        ensures
            b == self.is_occupied(),
    {
        self.handle.is_some()
    }
}

} // verus!

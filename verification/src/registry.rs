//! The single-occupancy slot that holds the handle of the running worker.

use vstd::prelude::*;

verus! {

/// A spawned worker process as the host sees it: the platform's identifier of
/// the process together with whatever the host needs to write to its input
/// stream and to terminate it.
#[derive(Debug, PartialEq, Eq)]
pub struct ProcessHandle<C> {
    pub id: u32,
    pub control: C,
}

/// A slot for at most one [`ProcessHandle`].
pub struct SidecarRegistry<C> {
    slot: Option<ProcessHandle<C>>,
}

impl<C> View for SidecarRegistry<C> {
    type V = Option<ProcessHandle<C>>;

    closed spec fn view(&self) -> Option<ProcessHandle<C>> {
        self.slot
    }
}

impl<C> SidecarRegistry<C> {
    /// An empty registry.
    pub fn new() -> (registry: Self)
        ensures
            registry@ is None,
    {
        SidecarRegistry { slot: None }
    }

    /// Whether a handle is stored.
    pub fn is_occupied(&self) -> (occupied: bool)
        ensures
            occupied == self@.is_some(),
    {
        self.slot.is_some()
    }

    /// A look at the stored handle, which stays where it is.
    pub fn try_get(&self) -> (handle: Option<&ProcessHandle<C>>)
        ensures
            handle is Some <==> self@ is Some,
            handle matches Some(h) ==> self@ == Some(*h),
    {
        self.slot.as_ref()
    }

    /// Stores `handle`, replacing whatever the slot held.
    pub fn set(&mut self, handle: ProcessHandle<C>)
        ensures
            final(self)@ == Some(handle),
    {
        self.slot = Some(handle);
    }

    /// Removes the stored handle and returns it; the slot is empty afterwards.
    pub fn take(&mut self) -> (handle: Option<ProcessHandle<C>>)
        ensures
            handle == old(self)@,
            final(self)@ is None,
    {
        self.slot.take()
    }
}

} // verus!

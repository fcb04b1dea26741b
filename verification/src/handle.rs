use std::sync::atomic::{AtomicBool, Ordering};
use std::sync::Arc;
use vstd::prelude::*;

verus! {

/// A handle to signal a companion [`Reopen`](crate::Reopen) proxy to reopen
/// its resource on the next operation.
///
/// Cloning creates interchangeable handles: all clones share one underlying
/// atomic cell, so any of them can request the reopen.
#[derive(Debug)]
pub struct Handle(pub(crate) Arc<AtomicBool>);

/// Relies on `Arc::clone`: the returned `Arc` points to the same allocation
/// as the argument, so as a value it is equal to it.
#[verifier::external_body]
pub(crate) fn clone_arc(a: &Arc<AtomicBool>) -> (r: Arc<AtomicBool>)
    ensures
        r == *a,
{
    Arc::clone(a)
}

impl Handle {
    /// The shared atomic cell this handle stores requests in, for
    /// specifications that relate handles and proxies to each other.
    pub closed spec fn cell(&self) -> Arc<AtomicBool> {
        self.0
    }

    /// Asks the companion proxy to reopen its resource on its next operation.
    ///
    /// This is a single atomic store: it never blocks, never allocates, and
    /// is therefore safe to call from a signal handler or any other thread.
    pub fn reopen(&self) {
        self.0.store(true, Ordering::Relaxed);
    }

    /// Creates an unpaired handle, not yet connected to any proxy.
    ///
    /// The flag starts out clear: no reopen is pending.
    pub fn stub() -> Handle {
        Handle(Arc::new(AtomicBool::new(false)))
    }

    /// Gives up the handle for the cell it controls.
    pub(crate) fn into_cell(self) -> (a: Arc<AtomicBool>)
        ensures
            a == self.cell(),
    {
        self.0
    }

    /// Wraps an owning reference to a cell back up as a handle.
    pub(crate) fn from_cell(a: Arc<AtomicBool>) -> (h: Handle)
        ensures
            h.cell() == a,
    {
        Handle(a)
    }
}

impl Clone for Handle {
    /// The clone shares the underlying cell with `self`.
    fn clone(&self) -> (r: Handle)
        ensures
            r.cell() == self.cell(),
    {
        Handle(clone_arc(&self.0))
    }
}

} // verus!

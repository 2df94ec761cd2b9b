//! The shared cancellation signal.

use vstd::prelude::*;
use std::sync::Arc;
use core::sync::atomic::AtomicBool;
use core::sync::atomic::Ordering;

verus! {

/// A shared, thread-safe boolean cell with "request stop" / "should stop"
/// semantics.
///
/// Every worker of a group and the supervisor hold handles to one cell,
/// created by [`TerminateFlag::new`] and shared by [`TerminateFlag::clone_handle`].
/// The library only ever stores `true` into the cell, so a stop request is
/// monotonic: once requested, it is never withdrawn. The cell is a lock-free
/// atomic with sequentially consistent ordering; neither reading nor writing
/// it can block or fail.
pub struct TerminateFlag {
    cell: Arc<AtomicBool>,
}

impl TerminateFlag {
    /// The shared cell behind this handle, as an abstract value: every handle
    /// cloned from this one, directly or through further clones, has the same
    /// `id`, and the crate's contracts track flag sharing through it.
    pub closed spec fn id(&self) -> AtomicBool {
        *self.cell
    }

    /// Creates a fresh flag with no other holders, initially `initial`
    /// (`false` for "continue").
    pub fn new(initial: bool) -> (flag: TerminateFlag) {
        TerminateFlag { cell: Arc::new(AtomicBool::new(initial)) }
    }

    /// A new handle to the same underlying cell (the reference count is
    /// incremented; the boolean itself is never copied).
    pub fn clone_handle(&self) -> (r: TerminateFlag)
        ensures
            r.id() == self.id(),
    {
        TerminateFlag { cell: clone_arc(&self.cell) }
    }

    /// Atomically sets the cell to `true`, requesting that every holder stop.
    ///
    /// Safe to call from any thread, concurrently with reads and with itself;
    /// calling it on an already-stopped flag changes nothing. It never blocks
    /// and, unlike a lock-based cell, has no failure path.
    pub fn request_stop(&self) {
        self.cell.store(true, Ordering::SeqCst);
    }

    /// Atomically reads the cell: `true` once some holder has requested a
    /// stop. Side-effect-free and non-blocking.
    ///
    /// The value is shared mutable state: what a read returns depends on the
    /// stores other threads have made, which is beyond this crate's sequential
    /// contracts, so nothing is promised of the result.
    pub fn should_stop(&self) -> bool {
        self.cell.load(Ordering::SeqCst)
    }
}

/// Relies on `Arc::clone`: the returned `Arc` is a new reference to the same
/// allocation as the argument, so both handles read and write one cell.
#[verifier::external_body]
fn clone_arc(a: &Arc<AtomicBool>) -> (r: Arc<AtomicBool>)
    ensures
        r == *a,
{
    Arc::clone(a)
}

} // verus!

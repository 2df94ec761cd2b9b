//! Joining and terminating thread-like values, and the errors they report.

use vstd::prelude::*;

verus! {

/// A worker execution that ended in an unrecoverable fault instead of
/// returning a value.
///
/// The fault is captured when the worker is joined, never at spawn time, and
/// it never crashes the joining thread.
#[derive(Clone, Copy, Debug, PartialEq, Eq, Structural)]
pub struct AbnormalTermination;

/// A builder was finalised with a number of workers other than the arity the
/// group was declared with. The mismatch is reported, never silently
/// truncated.
#[derive(Clone, Copy, Debug, PartialEq, Eq, Structural)]
pub struct ArityMismatch {
    /// The arity the group was declared with.
    pub expected: usize,
    /// The number of workers actually supplied.
    pub actual: usize,
}

/// Thread-like values that can be joined, synchronising their underlying
/// execution with the current thread.
pub trait Join<T>: Sized {
    /// What a normally returned value of this joinable is known to satisfy:
    /// the postcondition its work was started with.
    spec fn join_ok(&self, value: T) -> bool;

    /// Whether this joinable can report an abnormal termination at all: a
    /// join may return `Err` only where this holds, so a joinable for which
    /// it is false is guaranteed to hand a value over.
    spec fn join_err(&self) -> bool;

    /// Block until the underlying execution has finished, then take ownership
    /// of its outcome: the produced value, or a report that it terminated
    /// abnormally. Consuming `self` makes a second join inexpressible.
    fn join(self) -> (r: Result<T, AbnormalTermination>)
        ensures
            (r matches Ok(v) ==> self.join_ok(v)),
            (r matches Err(_) ==> self.join_err()),
    ;
}

/// Thread types that can ask their underlying function to stop early.
pub trait Terminate {
    /// Request that the underlying work stop at its next flag check.
    ///
    /// Non-blocking, and only a request: a worker that never polls its flag
    /// runs to natural completion regardless.
    fn terminate(&self);
}

} // verus!

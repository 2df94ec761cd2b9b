//! Executions that a worker handle can wrap.
//!
//! The group and handle types of this crate are generic over [`Join`], so any
//! joinable execution can stand behind a handle. This module provides the two
//! executions the crate itself supplies: one that runs its function on the
//! joining thread, and one whose outcome is already determined. An embedding
//! program may add its own implementation of [`Join`] for a native thread
//! handle and reuse every group operation unchanged.

use vstd::prelude::*;
use core::marker::PhantomData;
use core::sync::atomic::AtomicBool;
use crate::flag::TerminateFlag;
use crate::traits::AbnormalTermination;
use crate::traits::Join;

verus! {

/// A unit of work that runs on the joining thread, at join time.
///
/// The function is applied to the cancellation-flag handle the worker was
/// created with, so a stop request made before the join is observed by the
/// function's own flag checks. A fault inside the function is not isolated
/// here: it would propagate to the joining thread, so `join` of this worker
/// never reports an abnormal termination.
#[verifier::reject_recursive_types(T)]
pub struct InlineWorker<T, F> where F: FnOnce(TerminateFlag) -> T {
    work: F,
    flag: TerminateFlag,
    phantom: PhantomData<T>,
}

impl<T, F> InlineWorker<T, F> where F: FnOnce(TerminateFlag) -> T {
    /// The work is callable with the flag handle it owns; established at
    /// creation and relied on when the worker is joined.
    #[verifier::type_invariant]
    spec fn callable(self) -> bool {
        call_requires(self.work, (self.flag,))
    }

    /// The cell of the cancellation flag this worker polls.
    pub closed spec fn flag_id(&self) -> AtomicBool {
        self.flag.id()
    }

    /// Pairs `work` with the flag handle it will be applied to.
    pub fn new(work: F, flag: TerminateFlag) -> (w: Self)
        requires
            call_requires(work, (flag,)),
        ensures
            w.flag_id() == flag.id(),
            forall|v: T| #[trigger] w.join_ok(v) <==> call_ensures(work, (flag,), v),
    {
        InlineWorker { work, flag, phantom: PhantomData }
    }
}

impl<T, F> Join<T> for InlineWorker<T, F> where F: FnOnce(TerminateFlag) -> T {
    closed spec fn join_ok(&self, value: T) -> bool {
        call_ensures(self.work, (self.flag,), value)
    }

    /// Running on the joining thread captures no fault, so joining this
    /// worker always hands a value over.
    open spec fn join_err(&self) -> bool {
        false
    }

    fn join(self) -> (r: Result<T, AbnormalTermination>)
        ensures
            r is Ok,
    {
        proof {
            use_type_invariant(&self);
        }
        let InlineWorker { work, flag, phantom } = self;
        Ok(work(flag))
    }
}

/// A worker whose execution has already finished with a known outcome.
///
/// Joining it merely hands that outcome over. It stands in wherever the
/// execution itself happened elsewhere, and it is the one worker of this
/// crate that can report an abnormal termination.
pub struct CompletedWorker<T> {
    outcome: Result<T, AbnormalTermination>,
}

impl<T> CompletedWorker<T> {
    /// The outcome this worker was created with.
    pub closed spec fn outcome_spec(&self) -> Result<T, AbnormalTermination> {
        self.outcome
    }

    /// Wraps a finished outcome: joining succeeds with exactly `outcome`'s
    /// value, and can fail only where `outcome` is the failure.
    pub fn new(outcome: Result<T, AbnormalTermination>) -> (w: Self)
        ensures
            w.outcome_spec() == outcome,
            forall|v: T| #[trigger] w.join_ok(v) <==> outcome == Ok::<T, AbnormalTermination>(v),
            w.join_err() <==> outcome is Err,
    {
        CompletedWorker { outcome }
    }
}

impl<T> Join<T> for CompletedWorker<T> {
    closed spec fn join_ok(&self, value: T) -> bool {
        self.outcome == Ok::<T, AbnormalTermination>(value)
    }

    /// Only a worker that finished abnormally reports so.
    closed spec fn join_err(&self) -> bool {
        self.outcome is Err
    }

    fn join(self) -> (r: Result<T, AbnormalTermination>)
        ensures
            r == self.outcome_spec(),
    {
        self.outcome
    }
}

} // verus!

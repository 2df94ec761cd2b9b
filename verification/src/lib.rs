//! Cooperative cancellation for a fixed set of worker threads.
//!
//! A supervisor obtains a shared [`flag::TerminateFlag`], hands a clone of it
//! to each spawned worker, and may later request that the workers stop; a
//! worker honours the request only by polling the flag from its own body.
//! Joining a handle or a group collects the workers' results in spawn order,
//! reporting per position whether the worker returned a value or terminated
//! abnormally.

pub mod flag;
pub mod group;
pub mod single;
pub mod traits;
pub mod worker;

use vstd::prelude::*;
use core::marker::PhantomData;
use core::sync::atomic::AtomicBool;
use crate::flag::TerminateFlag;
use crate::traits::AbnormalTermination;
use crate::traits::ArityMismatch;
use crate::traits::Join;

verus! {

/// A fixed set of `N` workers that can all be signalled to finish early
/// through one shared flag.
///
/// The workers only terminate early if their underlying functions poll the
/// flag handle distributed by the builder; [`TerminableThreads::terminate`]
/// is a request, not an interruption.
pub struct TerminableThreads<T, W, const N: usize> {
    threads: Vec<W>,
    terminate_flag: TerminateFlag,
    phantom: PhantomData<T>,
}

impl<T, W, const N: usize> TerminableThreads<T, W, N> {
    /// The workers, in the order they were supplied to the builder.
    pub closed spec fn workers(&self) -> Seq<W> {
        self.threads@
    }

    /// The cell of the shared cancellation flag.
    pub closed spec fn flag_id(&self) -> AtomicBool {
        self.terminate_flag.id()
    }

    /// The set holds exactly the arity it was declared with.
    #[verifier::type_invariant]
    spec fn counted(self) -> bool {
        self.threads@.len() == N
    }

    /// Begins two-phase construction: see [`TerminableThreadsBuilder::new`].
    pub fn build() -> (r: (TerminableThreadsBuilder<T, W, N>, TerminateFlag))
        ensures
            r.1.id() == r.0.flag_id(),
    {
        TerminableThreadsBuilder::new()
    }

    /// Signals all workers to terminate and cease operation: one store to the
    /// shared flag, affecting every worker at once.
    ///
    /// This does not guarantee the workers terminate, or can be terminated:
    /// they do so only if their underlying functions check the flag handed to
    /// them. Never blocks; calling it again changes nothing.
    pub fn terminate(&self) {
        self.terminate_flag.request_stop();
    }
}

impl<T, W: Join<T>, const N: usize> TerminableThreads<T, W, N> {
    /// Joins all `N` workers, optionally signalling termination first.
    ///
    /// Not signalling lets every function run until it finishes naturally,
    /// while signalling may stop work earlier than its natural end. The
    /// report has one position per worker, in the order they were supplied:
    /// the value the worker produced, or the abnormal termination captured
    /// for it. A worker that cannot fail is reported `Ok`, so successes are
    /// never discarded alongside failures.
    pub fn join(self, signal_terminate: bool) -> (report: Vec<Result<T, AbnormalTermination>>)
        ensures
            report@.len() == N,
            forall|i: int| 0 <= i < report@.len()
                ==> (#[trigger] report@[i] matches Ok(v) ==> self.workers()[i].join_ok(v)),
            forall|i: int| 0 <= i < report@.len()
                ==> (#[trigger] report@[i] matches Err(_) ==> self.workers()[i].join_err()),
    {
        proof {
            use_type_invariant(&self);
        }
        if signal_terminate {
            self.terminate();
        }
        let TerminableThreads { threads, terminate_flag, phantom } = self;
        let ghost order = threads@;
        let mut remaining = threads;
        let mut report: Vec<Result<T, AbnormalTermination>> = Vec::new();
        while remaining.len() > 0
            invariant
                report@.len() + remaining@.len() == order.len(),
                remaining@ == order.subrange(report@.len() as int, order.len() as int),
                forall|i: int| 0 <= i < report@.len()
                    ==> (#[trigger] report@[i] matches Ok(v) ==> order[i].join_ok(v)),
                forall|i: int| 0 <= i < report@.len()
                    ==> (#[trigger] report@[i] matches Err(_) ==> order[i].join_err()),
            decreases remaining@.len(),
        {
            let w = remaining.remove(0);
            let outcome = w.join();
            report.push(outcome);
        }
        report
    }
}

/// Two-phase construction for [`TerminableThreads`].
///
/// The builder exists so that the termination flag exists, and can be
/// distributed to worker functions, before any worker is started, while the
/// assembled set only exists once all `N` workers do.
pub struct TerminableThreadsBuilder<T, W, const N: usize> {
    terminate_flag: TerminateFlag,
    phantom: PhantomData<(T, W)>,
}

impl<T, W, const N: usize> TerminableThreadsBuilder<T, W, N> {
    /// The cell of the flag this builder will hand to the assembled set.
    pub closed spec fn flag_id(&self) -> AtomicBool {
        self.terminate_flag.id()
    }

    /// Creates a builder together with a handle to its freshly created flag,
    /// initially not stopped, for distribution to the workers about to be
    /// started.
    pub fn new() -> (r: (Self, TerminateFlag))
        ensures
            r.1.id() == r.0.flag_id(),
    {
        let flag = TerminateFlag::new(false);
        let builder = TerminableThreadsBuilder {
            terminate_flag: flag.clone_handle(),
            phantom: PhantomData,
        };
        (builder, flag)
    }

    /// Consumes the builder and assembles the set from the supplied workers.
    ///
    /// Exactly `N` workers must be supplied: any other count is rejected with
    /// the mismatch, never silently truncated.
    pub fn build_with_threads(self, threads: Vec<W>) -> (r: Result<
        TerminableThreads<T, W, N>,
        ArityMismatch,
    >)
        ensures
            (r is Ok <==> threads@.len() == N),
            (r matches Ok(g) ==> g.workers() == threads@ && g.flag_id() == self.flag_id()),
            (r matches Err(e) ==> e.expected == N && e.actual == threads@.len()),
    {
        if threads.len() != N {
            return Err(ArityMismatch { expected: N, actual: threads.len() });
        }
        Ok(TerminableThreads { threads, terminate_flag: self.terminate_flag, phantom: PhantomData })
    }
}

} // verus!

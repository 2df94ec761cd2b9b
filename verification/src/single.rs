//! A single terminable worker.

use vstd::prelude::*;
use core::marker::PhantomData;
use core::sync::atomic::AtomicBool;
use crate::flag::TerminateFlag;
use crate::traits::AbnormalTermination;
use crate::traits::Join;
use crate::traits::Terminate;
use crate::worker::InlineWorker;

verus! {

/// One unit of work together with a handle to the cancellation flag that was
/// passed into it.
///
/// `W` is the underlying execution handle; joining consumes it exactly once
/// (ownership transfer makes a second join inexpressible), while
/// [`Terminate::terminate`] only writes the shared flag and never blocks.
pub struct TerminableThreadHandle<T, W> {
    running: TerminateFlag,
    inner_thread: W,
    phantom: PhantomData<T>,
}

impl<T, W> TerminableThreadHandle<T, W> {
    /// The cell of the cancellation flag this handle requests stops through.
    pub closed spec fn flag_id(&self) -> AtomicBool {
        self.running.id()
    }
}

impl<T, W: Join<T>> TerminableThreadHandle<T, W> {
    /// Pairs an execution handle with the flag its work was given, so the
    /// holder can both join the work and request that it stop.
    pub fn new(worker: W, flag: &TerminateFlag) -> (h: Self)
        ensures
            h.flag_id() == flag.id(),
            forall|v: T| #[trigger] h.join_ok(v) <==> worker.join_ok(v),
            h.join_err() <==> worker.join_err(),
    {
        TerminableThreadHandle { running: flag.clone_handle(), inner_thread: worker, phantom: PhantomData }
    }
}

impl<T, F> TerminableThreadHandle<T, InlineWorker<T, F>> where F: FnOnce(TerminateFlag) -> T {
    /// Hands `work` a fresh handle to `flag` and wraps the pair as a worker
    /// that runs when joined.
    ///
    /// `work` decides for itself when and whether to honour a stop request
    /// seen through its handle; nothing interrupts it forcibly. Every value a
    /// join of this handle can produce satisfies `work`'s postcondition for
    /// some handle to the same cell.
    pub fn spawn(work: F, flag: &TerminateFlag) -> (h: Self)
        requires
            forall|fl: TerminateFlag| fl.id() == flag.id() ==> #[trigger] call_requires(work, (fl,)),
        ensures
            h.flag_id() == flag.id(),
            !h.join_err(),
            forall|v: T| #[trigger] h.join_ok(v) ==> (exists|fl: TerminateFlag|
                fl.id() == flag.id() && call_ensures(work, (fl,), v)),
    {
        let fl = flag.clone_handle();
        let ghost fl0 = fl;
        let worker = InlineWorker::new(work, fl);
        let h = TerminableThreadHandle::new(worker, flag);
        proof {
            assert forall|v: T| #[trigger] h.join_ok(v) implies (exists|fl2: TerminateFlag|
                fl2.id() == flag.id() && call_ensures(work, (fl2,), v)) by {
                assert(fl0.id() == flag.id() && call_ensures(work, (fl0,), v));
            }
        }
        h
    }
}

impl<T, W: Join<T>> Join<T> for TerminableThreadHandle<T, W> {
    closed spec fn join_ok(&self, value: T) -> bool {
        self.inner_thread.join_ok(value)
    }

    /// The handle fails exactly where its underlying execution can.
    closed spec fn join_err(&self) -> bool {
        self.inner_thread.join_err()
    }

    fn join(self) -> (r: Result<T, AbnormalTermination>) {
        let TerminableThreadHandle { running, inner_thread, phantom } = self;
        inner_thread.join()
    }
}

impl<T, W> Terminate for TerminableThreadHandle<T, W> {
    fn terminate(&self) {
        self.running.request_stop()
    }
}

} // verus!

//! Groups of workers sharing one cancellation flag.

use vstd::prelude::*;
use core::sync::atomic::AtomicBool;
use crate::flag::TerminateFlag;
use crate::single::TerminableThreadHandle;
use crate::traits::AbnormalTermination;
use crate::traits::ArityMismatch;
use crate::traits::Join;
use crate::traits::Terminate;
use crate::worker::InlineWorker;

verus! {

/// An ordered collection of worker handles sharing one cancellation flag.
///
/// Every contained handle was given the same shared cell as the group — no
/// worker holds a private copy — so one [`Terminate::terminate`] call is a
/// single store that every worker observes through its own handle.
pub struct TerminableThreadGroup<T, W> {
    running: TerminateFlag,
    inner_threads: Vec<TerminableThreadHandle<T, W>>,
}

impl<T, W> TerminableThreadGroup<T, W> {
    /// The group's workers, in spawn order.
    pub closed spec fn threads(&self) -> Seq<TerminableThreadHandle<T, W>> {
        self.inner_threads@
    }

    /// The cell of the shared cancellation flag.
    pub closed spec fn flag_id(&self) -> AtomicBool {
        self.running.id()
    }

    /// Every worker of the group holds the group's own flag cell.
    #[verifier::type_invariant]
    pub closed spec fn shares_flag(self) -> bool {
        forall|i: int| 0 <= i < self.inner_threads@.len()
            ==> (#[trigger] self.inner_threads@[i].flag_id()) == self.running.id()
    }
}

impl<T, W: Join<T>> TerminableThreadGroup<T, W> {
    /// Assembles a group from workers that already hold handles to `flag`.
    pub fn from_handles(flag: &TerminateFlag, threads: Vec<TerminableThreadHandle<T, W>>) -> (g: Self)
        requires
            forall|i: int| 0 <= i < threads@.len()
                ==> (#[trigger] threads@[i].flag_id()) == flag.id(),
        ensures
            g.flag_id() == flag.id(),
            g.threads() == threads@,
            forall|i: int| 0 <= i < g.threads().len()
                ==> (#[trigger] g.threads()[i].flag_id()) == g.flag_id(),
    {
        TerminableThreadGroup { running: flag.clone_handle(), inner_threads: threads }
    }

    /// Consumes the group, optionally requesting a stop first, and joins
    /// every worker, preserving spawn order in the output positions.
    ///
    /// The report has one position per worker: the value it produced, or the
    /// abnormal termination captured for it. A worker that cannot fail is
    /// reported `Ok`, so successes are never discarded alongside failures,
    /// and there is no early abort on a failure — every worker is joined
    /// before the first outcome is inspected by the caller.
    pub fn join_all(self, signal_stop: bool) -> (report: Vec<Result<T, AbnormalTermination>>)
        ensures
            report@.len() == self.threads().len(),
            forall|i: int| 0 <= i < report@.len()
                ==> (#[trigger] report@[i] matches Ok(v) ==> self.threads()[i].join_ok(v)),
            forall|i: int| 0 <= i < report@.len()
                ==> (#[trigger] report@[i] matches Err(_) ==> self.threads()[i].join_err()),
    {
        let TerminableThreadGroup { running, inner_threads } = self;
        if signal_stop {
            running.request_stop();
        }
        let ghost order = inner_threads@;
        let mut remaining = inner_threads;
        let mut report: Vec<Result<T, AbnormalTermination>> = Vec::new();
        while remaining.len() > 0
            invariant
                report@.len() + remaining@.len() == order.len(),
                remaining@ == order.subrange(report@.len() as int, order.len() as int),
                forall|i: int| 0 <= i < report@.len()
                    ==> (#[trigger] report@[i] matches Ok(v) ==> order[i].join_ok(v)),
                forall|i: int| 0 <= i < report@.len()
                    ==> (#[trigger] report@[i] matches Err(_) ==> order[i].join_err()),
            decreases remaining@.len(),
        {
            let h = remaining.remove(0);
            let outcome = h.join();
            report.push(outcome);
        }
        report
    }
}

impl<T, F> TerminableThreadGroup<T, InlineWorker<T, F>> where
    F: FnOnce(TerminateFlag) -> T,
 {
    /// Creates a fresh flag and turns each function into a worker holding a
    /// handle to it, in the order given.
    ///
    /// Each worker runs on the joining thread when the group is joined (see
    /// [`InlineWorker`]); the functions must accept whatever flag handle they
    /// are given. Every worker holds the group's own cell and cannot fail,
    /// and every value worker `i` can produce satisfies `funcs[i]`'s
    /// postcondition for some handle to the group's cell.
    pub fn new(funcs: Vec<F>) -> (g: Self)
        requires
            forall|i: int, fl: TerminateFlag| 0 <= i < funcs@.len()
                ==> #[trigger] call_requires(funcs@[i], (fl,)),
        ensures
            g.threads().len() == funcs@.len(),
            forall|i: int| 0 <= i < g.threads().len()
                ==> (#[trigger] g.threads()[i].flag_id()) == g.flag_id(),
            forall|i: int| 0 <= i < g.threads().len()
                ==> !(#[trigger] g.threads()[i].join_err()),
            forall|i: int, v: T| 0 <= i < funcs@.len() && #[trigger] g.threads()[i].join_ok(v)
                ==> (exists|fl: TerminateFlag|
                    fl.id() == g.flag_id() && call_ensures(funcs@[i], (fl,), v)),
    {
        let flag = TerminateFlag::new(false);
        let ghost order = funcs@;
        let mut remaining = funcs;
        let mut handles: Vec<TerminableThreadHandle<T, InlineWorker<T, F>>> = Vec::new();
        while remaining.len() > 0
            invariant
                handles@.len() + remaining@.len() == order.len(),
                remaining@ == order.subrange(handles@.len() as int, order.len() as int),
                forall|i: int, fl: TerminateFlag| 0 <= i < order.len()
                    ==> #[trigger] call_requires(order[i], (fl,)),
                forall|i: int| 0 <= i < handles@.len()
                    ==> (#[trigger] handles@[i].flag_id()) == flag.id(),
                forall|i: int| 0 <= i < handles@.len()
                    ==> !(#[trigger] handles@[i].join_err()),
                forall|i: int, v: T| 0 <= i < handles@.len() && #[trigger] handles@[i].join_ok(v)
                    ==> (exists|fl: TerminateFlag|
                        fl.id() == flag.id() && call_ensures(order[i], (fl,), v)),
            decreases remaining@.len(),
        {
            let f = remaining.remove(0);
            let h = TerminableThreadHandle::spawn(f, &flag);
            handles.push(h);
        }
        TerminableThreadGroup::from_handles(&flag, handles)
    }
}

/// Collapses a per-position report into the all-success form: exactly when
/// every position is `Ok`, the values in order; otherwise the first captured
/// abnormal termination, every position before it being a success.
#[verifier::loop_isolation(false)]
pub fn collapse<T>(report: Vec<Result<T, AbnormalTermination>>) -> (r: Result<
    Vec<T>,
    AbnormalTermination,
>)
    ensures
        (r is Ok <==> (forall|i: int| 0 <= i < report@.len() ==> (#[trigger] report@[i]) is Ok)),
        (r matches Ok(vs) ==> vs@.len() == report@.len()
            && (forall|i: int| 0 <= i < vs@.len()
                ==> report@[i] == Ok::<T, AbnormalTermination>(#[trigger] vs@[i]))),
        (r matches Err(e) ==> (exists|i: int| 0 <= i < report@.len()
            && (#[trigger] report@[i]) == Err::<T, AbnormalTermination>(e)
            && (forall|j: int| 0 <= j < i ==> (#[trigger] report@[j]) is Ok))),
{
    let ghost outcomes = report@;
    let mut remaining = report;
    let mut values: Vec<T> = Vec::new();
    while remaining.len() > 0
        invariant
            values@.len() + remaining@.len() == outcomes.len(),
            remaining@ == outcomes.subrange(values@.len() as int, outcomes.len() as int),
            forall|j: int| 0 <= j < values@.len()
                ==> outcomes[j] == Ok::<T, AbnormalTermination>(#[trigger] values@[j]),
            forall|j: int| 0 <= j < values@.len() ==> (#[trigger] outcomes[j]) is Ok,
        decreases remaining@.len(),
    {
        let ghost k = values@.len() as int;
        match remaining.remove(0) {
            Ok(v) => values.push(v),
            Err(e) => {
                proof {
                    assert(0 <= k < outcomes.len() && outcomes[k] == Err::<T, AbnormalTermination>(e)
                        && (forall|j: int| 0 <= j < k ==> (#[trigger] outcomes[j]) is Ok));
                    assert(exists|i: int| 0 <= i < outcomes.len()
                        && (#[trigger] outcomes[i]) == Err::<T, AbnormalTermination>(e)
                        && (forall|j: int| 0 <= j < i ==> (#[trigger] outcomes[j]) is Ok));
                    assert(!(forall|i: int| 0 <= i < outcomes.len()
                        ==> (#[trigger] outcomes[i]) is Ok));
                }
                return Err(e);
            },
        }
    }
    Ok(values)
}

impl<T, W: Join<T>> Join<Vec<T>> for TerminableThreadGroup<T, W> {
    /// All workers returned normally, each position holding its worker's value
    /// in spawn order.
    open spec fn join_ok(&self, values: Vec<T>) -> bool {
        &&& values@.len() == self.threads().len()
        &&& forall|i: int| 0 <= i < values@.len()
            ==> self.threads()[i].join_ok(#[trigger] values@[i])
    }

    /// Some worker of the group can terminate abnormally; where none can, a
    /// collapsing join is guaranteed to return the values.
    open spec fn join_err(&self) -> bool {
        exists|i: int| 0 <= i < self.threads().len() && (#[trigger] self.threads()[i].join_err())
    }

    /// Joins every worker, then collapses the report: the values in spawn
    /// order exactly when all workers returned normally, or the first
    /// captured abnormal termination otherwise.
    fn join(self) -> (r: Result<Vec<T>, AbnormalTermination>)
        ensures
            (forall|i: int| 0 <= i < self.threads().len()
                ==> !(#[trigger] self.threads()[i].join_err())) ==> r is Ok,
            (r matches Ok(vs) ==> vs@.len() == self.threads().len()
                && (forall|i: int| 0 <= i < vs@.len()
                    ==> self.threads()[i].join_ok(#[trigger] vs@[i]))),
            (r matches Err(_) ==> (exists|i: int| 0 <= i < self.threads().len()
                && (#[trigger] self.threads()[i].join_err()))),
    {
        let ghost pre = self;
        let report = self.join_all(false);
        let r = collapse(report);
        proof {
            if r is Ok {
                let vs = r->Ok_0;
                assert forall|i: int| 0 <= i < vs@.len() implies
                    pre.threads()[i].join_ok(#[trigger] vs@[i]) by {
                    assert(report@[i] == Ok::<T, AbnormalTermination>(vs@[i]));
                }
            } else {
                let e = r->Err_0;
                let i = choose|i: int| 0 <= i < report@.len()
                    && (#[trigger] report@[i]) == Err::<T, AbnormalTermination>(e)
                    && (forall|j: int| 0 <= j < i ==> (#[trigger] report@[j]) is Ok);
                assert(pre.threads()[i].join_err());
            }
        }
        r
    }
}

impl<T, W: Join<T>> Terminate for TerminableThreadGroup<T, W> {
    fn terminate(&self) {
        self.running.request_stop()
    }
}

/// Law: a join report follows spawn order. Where every value that worker `i`
/// can produce equals `expected[i]` — as when each worker was spawned from a
/// function that returns a known constant — and no worker can terminate
/// abnormally, a report admitted by [`TerminableThreadGroup::join_all`] is
/// exactly the `expected` values, each position `Ok`, in spawn order, never
/// completion order, for any number of workers including none.
pub proof fn lemma_report_in_spawn_order<T, W: Join<T>>(
    threads: Seq<TerminableThreadHandle<T, W>>,
    report: Seq<Result<T, AbnormalTermination>>,
    expected: Seq<T>,
)
    requires
        report.len() == threads.len(),
        expected.len() == threads.len(),
        forall|i: int, v: T| 0 <= i < threads.len() && #[trigger] threads[i].join_ok(v)
            ==> v == expected[i],
        forall|i: int| 0 <= i < threads.len() ==> !(#[trigger] threads[i].join_err()),
        forall|i: int| 0 <= i < report.len()
            ==> (#[trigger] report[i] matches Ok(v) ==> threads[i].join_ok(v)),
        forall|i: int| 0 <= i < report.len()
            ==> (#[trigger] report[i] matches Err(_) ==> threads[i].join_err()),
    ensures
        forall|i: int| 0 <= i < report.len()
            ==> (#[trigger] report[i]) == Ok::<T, AbnormalTermination>(expected[i]),
{
    assert forall|i: int| 0 <= i < report.len() implies
        (#[trigger] report[i]) == Ok::<T, AbnormalTermination>(expected[i]) by {
        match report[i] {
            Ok(v) => assert(threads[i].join_ok(v)),
            Err(_) => assert(threads[i].join_err()),
        }
    }
}

/// A fixed-arity group: the same abstraction as [`TerminableThreadGroup`],
/// with the worker count pinned to `N` at the type level.
pub struct TerminableThreadGroupArray<T, W, const N: usize> {
    inner: TerminableThreadGroup<T, W>,
}

impl<T, W, const N: usize> TerminableThreadGroupArray<T, W, N> {
    /// The group's workers, in spawn order.
    pub closed spec fn threads(&self) -> Seq<TerminableThreadHandle<T, W>> {
        self.inner.threads()
    }

    /// The cell of the shared cancellation flag.
    pub closed spec fn flag_id(&self) -> AtomicBool {
        self.inner.flag_id()
    }

    /// The group holds exactly the arity it was declared with.
    #[verifier::type_invariant]
    spec fn counted(self) -> bool {
        self.inner.threads().len() == N
    }
}

impl<T, W: Join<T>, const N: usize> TerminableThreadGroupArray<T, W, N> {
    /// As [`TerminableThreadGroup::join_all`], with the report's length fixed
    /// to the declared arity.
    pub fn join_all(self, signal_stop: bool) -> (report: Vec<Result<T, AbnormalTermination>>)
        ensures
            report@.len() == N,
            forall|i: int| 0 <= i < report@.len()
                ==> (#[trigger] report@[i] matches Ok(v) ==> self.threads()[i].join_ok(v)),
            forall|i: int| 0 <= i < report@.len()
                ==> (#[trigger] report@[i] matches Err(_) ==> self.threads()[i].join_err()),
    {
        proof {
            use_type_invariant(&self);
        }
        let TerminableThreadGroupArray { inner } = self;
        inner.join_all(signal_stop)
    }
}

impl<T, F, const N: usize> TerminableThreadGroupArray<T, InlineWorker<T, F>, N> where
    F: FnOnce(TerminateFlag) -> T,
 {
    /// As [`TerminableThreadGroup::new`], but the number of functions must
    /// equal the declared arity `N`; any other count is rejected, never
    /// silently truncated.
    pub fn new(funcs: Vec<F>) -> (r: Result<Self, ArityMismatch>)
        requires
            forall|i: int, fl: TerminateFlag| 0 <= i < funcs@.len()
                ==> #[trigger] call_requires(funcs@[i], (fl,)),
        ensures
            (r is Ok <==> funcs@.len() == N),
            (r matches Ok(g) ==> g.threads().len() == N
                && (forall|i: int| 0 <= i < g.threads().len()
                    ==> (#[trigger] g.threads()[i].flag_id()) == g.flag_id())
                && (forall|i: int| 0 <= i < g.threads().len()
                    ==> !(#[trigger] g.threads()[i].join_err()))
                && (forall|i: int, v: T| 0 <= i < funcs@.len() && #[trigger] g.threads()[i].join_ok(v)
                    ==> (exists|fl: TerminateFlag|
                        fl.id() == g.flag_id() && call_ensures(funcs@[i], (fl,), v)))),
            (r matches Err(e) ==> e.expected == N && e.actual == funcs@.len()),
    {
        if funcs.len() != N {
            return Err(ArityMismatch { expected: N, actual: funcs.len() });
        }
        Ok(TerminableThreadGroupArray { inner: TerminableThreadGroup::new(funcs) })
    }
}

impl<T, W: Join<T>, const N: usize> Join<Vec<T>> for TerminableThreadGroupArray<T, W, N> {
    /// All `N` workers returned normally, each position holding its worker's
    /// value in spawn order.
    open spec fn join_ok(&self, values: Vec<T>) -> bool {
        &&& values@.len() == self.threads().len()
        &&& forall|i: int| 0 <= i < values@.len()
            ==> self.threads()[i].join_ok(#[trigger] values@[i])
    }

    /// Some worker of the group can terminate abnormally; where none can, a
    /// collapsing join is guaranteed to return the values.
    open spec fn join_err(&self) -> bool {
        exists|i: int| 0 <= i < self.threads().len() && (#[trigger] self.threads()[i].join_err())
    }

    /// Joins every worker, then collapses the report: the `N` values in
    /// spawn order exactly when all workers returned normally, or the first
    /// captured abnormal termination otherwise.
    fn join(self) -> (r: Result<Vec<T>, AbnormalTermination>)
        ensures
            (forall|i: int| 0 <= i < self.threads().len()
                ==> !(#[trigger] self.threads()[i].join_err())) ==> r is Ok,
            (r matches Ok(vs) ==> vs@.len() == self.threads().len()
                && (forall|i: int| 0 <= i < vs@.len()
                    ==> self.threads()[i].join_ok(#[trigger] vs@[i]))),
            (r matches Err(_) ==> (exists|i: int| 0 <= i < self.threads().len()
                && (#[trigger] self.threads()[i].join_err()))),
    {
        let ghost pre = self;
        let TerminableThreadGroupArray { inner } = self;
        let r = inner.join();
        proof {
            assert(pre.threads() =~= inner.threads());
        }
        r
    }
}

impl<T, W: Join<T>, const N: usize> Terminate for TerminableThreadGroupArray<T, W, N> {
    fn terminate(&self) {
        self.inner.terminate()
    }
}

} // verus!

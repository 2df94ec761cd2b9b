use terminable_threads::flag::TerminateFlag;
use terminable_threads::group::collapse;
use terminable_threads::group::TerminableThreadGroup;
use terminable_threads::group::TerminableThreadGroupArray;
use terminable_threads::single::TerminableThreadHandle;
use terminable_threads::traits::AbnormalTermination;
use terminable_threads::traits::Join;
use terminable_threads::traits::Terminate;
use terminable_threads::worker::CompletedWorker;
use terminable_threads::worker::InlineWorker;
use terminable_threads::TerminableThreads;

#[test]
fn constants_in_spawn_order() {
    let mk = |i: i32| move |_f: TerminateFlag| i;
    let group = TerminableThreadGroup::new(vec![mk(10), mk(20), mk(30), mk(40)]);
    let report = group.join_all(false);
    assert_eq!(report, vec![Ok(10), Ok(20), Ok(30), Ok(40)]);
}

#[test]
fn empty_group_joins_to_empty_report() {
    let funcs: Vec<fn(TerminateFlag) -> i32> = vec![];
    let group = TerminableThreadGroup::new(funcs);
    let report = group.join_all(false);
    assert!(report.is_empty());
}

#[test]
fn stop_requested_before_any_check_bounds_iteration_counts() {
    let counting = |f: TerminateFlag| {
        let mut n: u64 = 0;
        while !f.should_stop() {
            n += 1;
        }
        n
    };
    let group = TerminableThreadGroup::new(vec![counting, counting, counting]);
    group.terminate();
    let report = group.join_all(false);
    assert_eq!(report, vec![Ok(0), Ok(0), Ok(0)]);
}

#[test]
fn request_stop_is_idempotent() {
    let flag = TerminateFlag::new(false);
    assert!(!flag.should_stop());
    flag.request_stop();
    assert!(flag.should_stop());
    flag.request_stop();
    assert!(flag.should_stop());
}

#[test]
fn stop_request_is_seen_through_every_handle() {
    let flag = TerminateFlag::new(false);
    let worker_handle = flag.clone_handle();
    assert!(!worker_handle.should_stop());
    flag.request_stop();
    assert!(worker_handle.should_stop());
    assert!(worker_handle.clone_handle().should_stop());
}

#[test]
fn flag_starts_at_its_initial_value() {
    assert!(!TerminateFlag::new(false).should_stop());
    assert!(TerminateFlag::new(true).should_stop());
}

#[test]
fn partial_failure_keeps_per_position_outcomes() {
    let flag = TerminateFlag::new(false);
    let handles = vec![
        TerminableThreadHandle::new(CompletedWorker::new(Ok(1)), &flag),
        TerminableThreadHandle::new(CompletedWorker::new(Err(AbnormalTermination)), &flag),
        TerminableThreadHandle::new(CompletedWorker::new(Ok(3)), &flag),
    ];
    let group = TerminableThreadGroup::from_handles(&flag, handles);
    let report = group.join_all(false);
    assert_eq!(report, vec![Ok(1), Err(AbnormalTermination), Ok(3)]);
}

#[test]
fn collapsing_join_reports_a_failure() {
    let flag = TerminateFlag::new(false);
    let handles = vec![
        TerminableThreadHandle::new(CompletedWorker::new(Ok(1)), &flag),
        TerminableThreadHandle::new(CompletedWorker::new(Err(AbnormalTermination)), &flag),
    ];
    let group = TerminableThreadGroup::from_handles(&flag, handles);
    assert_eq!(group.join(), Err(AbnormalTermination));
}

#[test]
fn collapsing_join_returns_all_values_in_order() {
    let flag = TerminateFlag::new(false);
    let handles = vec![
        TerminableThreadHandle::new(CompletedWorker::new(Ok(7)), &flag),
        TerminableThreadHandle::new(CompletedWorker::new(Ok(8)), &flag),
    ];
    let group = TerminableThreadGroup::from_handles(&flag, handles);
    assert_eq!(group.join(), Ok(vec![7, 8]));
}

#[test]
fn builder_rejects_too_few_workers() {
    let (builder, _flag) = TerminableThreads::<i32, CompletedWorker<i32>, 3>::build();
    let workers = vec![CompletedWorker::new(Ok(1)), CompletedWorker::new(Ok(2))];
    match builder.build_with_threads(workers) {
        Ok(_) => panic!("two workers must not satisfy a declared arity of three"),
        Err(e) => {
            assert_eq!(e.expected, 3);
            assert_eq!(e.actual, 2);
        },
    }
}

#[test]
fn builder_accepts_exact_arity_and_join_keeps_order() {
    let (builder, _flag) = TerminableThreads::<i32, CompletedWorker<i32>, 2>::build();
    let workers = vec![CompletedWorker::new(Ok(5)), CompletedWorker::new(Ok(7))];
    let set = match builder.build_with_threads(workers) {
        Ok(set) => set,
        Err(_) => panic!("exact arity must be accepted"),
    };
    let report = set.join(true);
    assert_eq!(report, vec![Ok(5), Ok(7)]);
}

#[test]
fn builder_flag_reaches_the_workers() {
    let (builder, flag) = TerminableThreads::<bool, InlineWorker<bool, _>, 2>::build();
    let polls = |f: TerminateFlag| f.should_stop();
    let workers = vec![
        InlineWorker::new(polls, flag.clone_handle()),
        InlineWorker::new(polls, flag.clone_handle()),
    ];
    let set = match builder.build_with_threads(workers) {
        Ok(set) => set,
        Err(_) => panic!("exact arity must be accepted"),
    };
    let report = set.join(true);
    assert_eq!(report, vec![Ok(true), Ok(true)]);
}

#[test]
fn array_group_rejects_wrong_arity() {
    let mk = |i: i32| move |_f: TerminateFlag| i;
    match TerminableThreadGroupArray::<i32, _, 2>::new(vec![mk(1), mk(2), mk(3)]) {
        Ok(_) => panic!("three functions must not satisfy a declared arity of two"),
        Err(e) => {
            assert_eq!(e.expected, 2);
            assert_eq!(e.actual, 3);
        },
    }
}

#[test]
fn array_group_joins_at_declared_arity() {
    let mk = |i: i32| move |_f: TerminateFlag| i;
    let group = match TerminableThreadGroupArray::<i32, _, 3>::new(vec![mk(4), mk(5), mk(6)]) {
        Ok(group) => group,
        Err(_) => panic!("exact arity must be accepted"),
    };
    let report = group.join_all(false);
    assert_eq!(report, vec![Ok(4), Ok(5), Ok(6)]);
}

#[test]
fn collapse_keeps_all_values_in_order() {
    let report: Vec<Result<i32, AbnormalTermination>> = vec![Ok(1), Ok(2), Ok(3)];
    assert_eq!(collapse(report), Ok(vec![1, 2, 3]));
    let empty: Vec<Result<i32, AbnormalTermination>> = vec![];
    assert_eq!(collapse(empty), Ok(vec![]));
}

#[test]
fn collapse_reports_the_first_failure() {
    let report: Vec<Result<i32, AbnormalTermination>> =
        vec![Ok(1), Err(AbnormalTermination), Ok(3)];
    assert_eq!(collapse(report), Err(AbnormalTermination));
}

#[test]
fn terminate_then_join_without_signal() {
    let (builder, flag) = TerminableThreads::<bool, InlineWorker<bool, _>, 1>::build();
    let polls = |f: TerminateFlag| f.should_stop();
    let workers = vec![InlineWorker::new(polls, flag.clone_handle())];
    let set = match builder.build_with_threads(workers) {
        Ok(set) => set,
        Err(_) => panic!("exact arity must be accepted"),
    };
    set.terminate();
    assert_eq!(set.join(false), vec![Ok(true)]);
}

#[test]
fn array_group_terminates_and_collapsing_join_collects_values() {
    let mk = |i: i32| move |_f: TerminateFlag| i;
    let group = match TerminableThreadGroupArray::<i32, _, 2>::new(vec![mk(1), mk(2)]) {
        Ok(group) => group,
        Err(_) => panic!("exact arity must be accepted"),
    };
    group.terminate();
    assert_eq!(group.join(), Ok(vec![1, 2]));
}

#[test]
fn single_handle_terminates_and_joins_its_worker() {
    let flag = TerminateFlag::new(false);
    let handle = TerminableThreadHandle::spawn(|f: TerminateFlag| f.should_stop(), &flag);
    handle.terminate();
    assert_eq!(handle.join(), Ok(true));
}

#[test]
fn best_effort_cancellation_scenario() {
    let stops_when_asked: Box<dyn FnOnce(TerminateFlag) -> u64> = Box::new(|f: TerminateFlag| {
        let mut checks: u64 = 0;
        while !f.should_stop() {
            checks += 1;
        }
        42
    });
    let ignores_the_flag: Box<dyn FnOnce(TerminateFlag) -> u64> = Box::new(|_f: TerminateFlag| {
        let mut count: u64 = 0;
        let mut i: u64 = 0;
        while i < 100 {
            count += 1;
            i += 1;
        }
        count
    });
    let group = TerminableThreadGroup::new(vec![stops_when_asked, ignores_the_flag]);
    let report = group.join_all(true);
    assert_eq!(report, vec![Ok(42), Ok(100)]);
}

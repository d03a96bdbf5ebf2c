use task_executor::coordinator::{Notice, ShutdownCoordinator};
use task_executor::logging::{Field, Level, LogContext};
use task_executor::metrics::Metrics;
use task_executor::monitor::Verdict;
use task_executor::outcome::{FaultPayload, JoinOutcome};
use task_executor::ticket::Dispatch;
use task_executor::{ShutdownReason, TaskExecutor};

fn facade() -> TaskExecutor<u32, &'static str, u64> {
    TaskExecutor::new(7, "exit", LogContext::root(), 99)
}

#[test]
fn monitor_is_quiet_for_a_unit_that_returned() {
    let monitor = match facade().spawn_monitor(Some(()), "sync") {
        Dispatch::Scheduled((), monitor) => monitor,
        Dispatch::Refused(_) => panic!("the engine is alive"),
    };
    assert!(matches!(monitor.observe(&JoinOutcome::Completed(Some(3u8))), Verdict::Quiet));
}

#[test]
fn monitor_is_quiet_for_a_unit_that_the_exit_signal_cancelled() {
    let monitor = match facade().spawn_monitor(Some(()), "sync") {
        Dispatch::Scheduled((), monitor) => monitor,
        Dispatch::Refused(_) => panic!("the engine is alive"),
    };
    assert!(matches!(monitor.observe(&JoinOutcome::Completed(None::<u8>)), Verdict::Quiet));
}

#[test]
fn monitor_is_quiet_for_a_unit_that_the_engine_dropped() {
    let monitor = match facade().spawn_monitor(Some(()), "sync") {
        Dispatch::Scheduled((), monitor) => monitor,
        Dispatch::Refused(_) => panic!("the engine is alive"),
    };
    assert!(matches!(monitor.observe(&JoinOutcome::<u8>::Cancelled), Verdict::Quiet));
}

#[test]
fn monitor_escalates_a_fault_with_its_message() {
    let executor = facade().clone_with_name(String::from("sync"));
    let monitor = match executor.spawn_monitor(Some(()), "range") {
        Dispatch::Scheduled((), monitor) => monitor,
        Dispatch::Refused(_) => panic!("the engine is alive"),
    };
    assert_eq!(monitor.name(), "range");
    let joined = JoinOutcome::<u8>::Faulted(FaultPayload::Message("index out of bounds"));
    match monitor.observe(&joined) {
        Verdict::Quiet => panic!("a fault must be escalated"),
        Verdict::Escalate(escalation) => {
            assert_eq!(escalation.reason, ShutdownReason::Failure("index out of bounds"));
            assert!(escalation.reason.is_failure());
            assert_eq!(escalation.signal_tx, 99);
            assert_eq!(escalation.record.level, Level::Critical);
            assert_eq!(escalation.record.level.severity(), 6);
            assert_eq!(escalation.record.message, "Task panic. This is a bug!");
            assert_eq!(
                escalation.record.fields,
                vec![
                    Field::new("service", "sync"),
                    Field::new("task_name", "range"),
                    Field::new("message", "index out of bounds"),
                    Field::new(
                        "advice",
                        "Please check above for a backtrace and notify the developers"
                    ),
                ]
            );
        }
    }
}

#[test]
fn monitor_escalates_a_fault_without_a_message_with_the_sentinel() {
    let monitor = match facade().spawn_monitor(Some(()), "sync") {
        Dispatch::Scheduled((), monitor) => monitor,
        Dispatch::Refused(_) => panic!("the engine is alive"),
    };
    match monitor.observe(&JoinOutcome::<()>::Faulted(FaultPayload::Opaque)) {
        Verdict::Quiet => panic!("a fault must be escalated"),
        Verdict::Escalate(escalation) => {
            assert_eq!(escalation.reason, ShutdownReason::Failure("<none>"));
            assert!(escalation.record.contains("message", "<none>"));
            assert!(escalation.record.contains("task_name", "sync"));
        }
    }
}

#[test]
fn monitor_cannot_be_set_up_with_the_engine_gone() {
    let executor = facade().clone_with_name(String::from("sync"));
    match executor.spawn_monitor(None::<()>, "range") {
        Dispatch::Scheduled(..) => panic!("nothing can be scheduled without an engine"),
        Dispatch::Refused(record) => {
            assert_eq!(record.level, Level::Debug);
            assert_eq!(record.message, "Couldn't spawn monitor task. Runtime shutting down");
            assert_eq!(record.fields, vec![Field::new("service", "sync")]);
        }
    }
}

#[test]
fn each_monitor_escalates_its_own_fault() {
    let executor = facade();
    let mut metrics = Metrics::new(8);
    let first = match executor.spawn(&mut metrics, Some(()), "a") {
        Dispatch::Scheduled((), unit) => unit,
        Dispatch::Refused(_) => panic!("the engine is alive"),
    };
    let second = match executor.spawn(&mut metrics, Some(()), "b") {
        Dispatch::Scheduled((), unit) => unit,
        Dispatch::Refused(_) => panic!("the engine is alive"),
    };
    let fault = JoinOutcome::<Option<()>>::Faulted(FaultPayload::Message("x"));
    let quiet = JoinOutcome::Completed(Some(()));
    assert!(matches!(first.monitor.observe(&fault), Verdict::Escalate(_)));
    assert!(matches!(second.monitor.observe(&quiet), Verdict::Quiet));
}

#[test]
fn coordinator_starts_idle() {
    let coordinator = ShutdownCoordinator::new();
    assert!(!coordinator.exit_fired());
    assert_eq!(coordinator.reason(), None);
}

#[test]
fn coordinator_fires_on_the_first_reason_only() {
    let mut coordinator = ShutdownCoordinator::new();
    assert!(coordinator.receive(Notice::Reason(ShutdownReason::Failure("disk full"))));
    assert!(coordinator.exit_fired());
    assert_eq!(coordinator.reason(), Some(ShutdownReason::Failure("disk full")));
    assert!(!coordinator.receive(Notice::Reason(ShutdownReason::Success("bye"))));
    assert!(!coordinator.receive(Notice::Closed));
    assert!(coordinator.exit_fired());
    assert_eq!(coordinator.reason(), Some(ShutdownReason::Failure("disk full")));
}

#[test]
fn coordinator_fires_when_the_channel_closes() {
    let mut coordinator = ShutdownCoordinator::new();
    assert!(coordinator.receive(Notice::Closed));
    assert!(coordinator.exit_fired());
    assert_eq!(coordinator.reason(), None);
    assert!(!coordinator.receive(Notice::Reason(ShutdownReason::Failure("late"))));
    assert_eq!(coordinator.reason(), None);
}

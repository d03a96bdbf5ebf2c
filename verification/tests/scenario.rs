use std::sync::{Arc, Mutex, Weak};

use exit_future::Exit;
use futures::channel::mpsc::{channel, Sender};
use futures::future::{pending, select};
use task_executor::coordinator::{Notice, ShutdownCoordinator};
use task_executor::logging::{Level, LogContext};
use task_executor::metrics::Metrics;
use task_executor::monitor::Verdict;
use task_executor::outcome::{JoinOutcome, Race};
use task_executor::ticket::Dispatch;
use task_executor::{ShutdownReason, TaskExecutor};
use tokio::runtime::Runtime;

type Facade = TaskExecutor<Weak<Runtime>, Exit, Sender<ShutdownReason>>;

#[test]
fn engine_gone_leaves_the_gauges_of_peer_sync_alone() {
    let runtime = Arc::new(Runtime::new().unwrap());
    let (_signal, exit) = exit_future::signal();
    let (signal_tx, mut signal_rx) = channel::<ShutdownReason>(1);
    let executor: Facade =
        TaskExecutor::new(Arc::downgrade(&runtime), exit, LogContext::root(), signal_tx);
    let mut metrics = Metrics::new(16);
    drop(runtime);

    let engine = executor.runtime().upgrade();
    assert!(engine.is_none());
    match executor.spawn(&mut metrics, engine, "peer-sync") {
        Dispatch::Scheduled(..) => panic!("nothing can be scheduled without an engine"),
        Dispatch::Refused(record) => {
            assert!(record.level.severity() <= Level::Debug.severity());
        }
    }
    assert_eq!(metrics.async_tasks("peer-sync"), 0);
    assert_eq!(metrics.blocking_tasks("peer-sync"), 0);
    assert!(!metrics.tracks("peer-sync"));
    assert!(signal_rx.try_recv().is_err());
}

#[test]
fn failure_given_to_the_coordinator_cancels_a_and_b() {
    let executor = TaskExecutor::new((), (), LogContext::root(), ());
    let mut metrics = Metrics::new(16);
    let a = match executor.spawn(&mut metrics, Some(()), "a") {
        Dispatch::Scheduled((), unit) => unit,
        Dispatch::Refused(_) => panic!("the engine is alive"),
    };
    let b = match executor.spawn(&mut metrics, Some(()), "b") {
        Dispatch::Scheduled((), unit) => unit,
        Dispatch::Refused(_) => panic!("the engine is alive"),
    };
    assert_eq!(metrics.async_tasks("a"), 1);
    assert_eq!(metrics.async_tasks("b"), 1);

    let mut coordinator = ShutdownCoordinator::new();
    let fire = coordinator.receive(Notice::Reason(ShutdownReason::Failure("disk full")));
    assert!(fire);

    let done_a = a.task.finish(&mut metrics, JoinOutcome::Completed(Race::<()>::Exit));
    let done_b = b.task.finish(&mut metrics, JoinOutcome::Completed(Race::<()>::Exit));
    assert_eq!(done_a.value, JoinOutcome::Completed(None));
    assert_eq!(done_b.value, JoinOutcome::Completed(None));
    assert_eq!(done_a.record.unwrap().level, Level::Debug);
    assert_eq!(done_b.record.unwrap().level, Level::Debug);
    assert_eq!(metrics.async_tasks("a"), 0);
    assert_eq!(metrics.async_tasks("b"), 0);

    assert!(matches!(a.monitor.observe(&done_a.value), Verdict::Quiet));
    assert!(matches!(b.monitor.observe(&done_b.value), Verdict::Quiet));
    assert_eq!(coordinator.reason(), Some(ShutdownReason::Failure("disk full")));
    assert!(coordinator.reason().unwrap().is_failure());
    assert!(coordinator.exit_fired());
}

#[test]
fn failure_sent_on_a_real_channel_cancels_tasks_on_a_real_engine() {
    let runtime = Arc::new(Runtime::new().unwrap());
    let (signal, exit) = exit_future::signal();
    let (signal_tx, mut signal_rx) = channel::<ShutdownReason>(1);
    let executor: Facade =
        TaskExecutor::new(Arc::downgrade(&runtime), exit, LogContext::root(), signal_tx);
    let metrics = Arc::new(Mutex::new(Metrics::new(16)));

    let mut handles = Vec::new();
    let mut units = Vec::new();
    for name in ["a", "b"] {
        let engine = executor.runtime().upgrade();
        let dispatch = executor.spawn(&mut metrics.lock().unwrap(), engine, name);
        let (engine, unit) = match dispatch {
            Dispatch::Scheduled(engine, unit) => (engine, unit),
            Dispatch::Refused(_) => panic!("the engine is alive"),
        };
        let exit = unit.task.exit().clone();
        handles.push(engine.spawn(async move {
            Race::from_select(select(Box::pin(pending::<()>()), exit).await)
        }));
        units.push(unit);
    }
    assert_eq!(metrics.lock().unwrap().async_tasks("a"), 1);
    assert_eq!(metrics.lock().unwrap().async_tasks("b"), 1);

    executor.shutdown_sender().try_send(ShutdownReason::Failure("disk full")).unwrap();
    let mut coordinator = ShutdownCoordinator::new();
    let reason = signal_rx.try_recv().unwrap();
    if coordinator.receive(Notice::Reason(reason)) {
        signal.fire().unwrap();
    }

    for (handle, unit) in handles.into_iter().zip(units) {
        let joined = JoinOutcome::from_join(runtime.block_on(handle));
        let done = unit.task.finish(&mut metrics.lock().unwrap(), joined);
        assert_eq!(done.value, JoinOutcome::Completed(None));
        assert_eq!(done.record.unwrap().message, "Async task shutdown, exit received");
        assert!(matches!(unit.monitor.observe(&done.value), Verdict::Quiet));
    }
    assert_eq!(metrics.lock().unwrap().async_tasks("a"), 0);
    assert_eq!(metrics.lock().unwrap().async_tasks("b"), 0);
    assert_eq!(coordinator.reason(), Some(ShutdownReason::Failure("disk full")));
    assert!(signal_rx.try_recv().is_err());
}

#[test]
fn panic_on_a_real_engine_offers_one_failure_to_the_channel() {
    let runtime = Arc::new(Runtime::new().unwrap());
    let (_signal, exit) = exit_future::signal();
    let (signal_tx, mut signal_rx) = channel::<ShutdownReason>(1);
    let executor: Facade =
        TaskExecutor::new(Arc::downgrade(&runtime), exit, LogContext::root(), signal_tx);
    let metrics = Arc::new(Mutex::new(Metrics::new(16)));

    let engine = executor.runtime().upgrade();
    let dispatch = executor.spawn(&mut metrics.lock().unwrap(), engine, "worker");
    let (engine, unit) = match dispatch {
        Dispatch::Scheduled(engine, unit) => (engine, unit),
        Dispatch::Refused(_) => panic!("the engine is alive"),
    };
    let exit = unit.task.exit().clone();
    let limit = metrics.lock().unwrap().limit();
    let handle = engine.spawn(async move {
        let work = Box::pin(async move {
            if limit == 16 {
                panic!("lost the plot");
            }
        });
        Race::from_select(select(work, exit).await)
    });
    assert_eq!(metrics.lock().unwrap().async_tasks("worker"), 1);

    let joined = JoinOutcome::from_join(runtime.block_on(handle));
    assert!(joined.is_fault());
    let done = unit.task.finish(&mut metrics.lock().unwrap(), joined);
    assert!(done.record.is_none());
    assert_eq!(metrics.lock().unwrap().async_tasks("worker"), 0);
    match unit.monitor.observe(&done.value) {
        Verdict::Quiet => panic!("a fault must be escalated"),
        Verdict::Escalate(mut escalation) => {
            assert_eq!(escalation.record.level, Level::Critical);
            assert!(escalation.record.contains("task_name", "worker"));
            assert!(escalation.record.contains("message", "lost the plot"));
            assert!(escalation.signal_tx.try_send(escalation.reason).is_ok());
        }
    }
    assert_eq!(signal_rx.try_recv().unwrap(), ShutdownReason::Failure("lost the plot"));
    assert!(signal_rx.try_recv().is_err());
}

#[test]
fn value_on_a_real_engine_sends_nothing() {
    let runtime = Arc::new(Runtime::new().unwrap());
    let (_signal, exit) = exit_future::signal();
    let (signal_tx, mut signal_rx) = channel::<ShutdownReason>(1);
    let executor: Facade =
        TaskExecutor::new(Arc::downgrade(&runtime), exit, LogContext::root(), signal_tx);
    let metrics = Arc::new(Mutex::new(Metrics::new(16)));

    let engine = executor.runtime().upgrade();
    let dispatch = executor.spawn_handle(&mut metrics.lock().unwrap(), engine, "sum");
    let (engine, ticket) = match dispatch {
        Dispatch::Scheduled(engine, ticket) => (engine, ticket),
        Dispatch::Refused(_) => panic!("the engine is alive"),
    };
    let (engine, monitor) = match executor.spawn_monitor(Some(engine), "sum") {
        Dispatch::Scheduled(engine, monitor) => (engine, monitor),
        Dispatch::Refused(_) => panic!("the engine is alive"),
    };
    let exit = ticket.exit().clone();
    let handle = engine.spawn(async move {
        Race::from_select(select(Box::pin(async { 2 + 2 }), exit).await)
    });
    let joined = JoinOutcome::from_join(runtime.block_on(handle));
    let done = ticket.finish(&mut metrics.lock().unwrap(), joined);
    assert_eq!(done.value, JoinOutcome::Completed(Some(4)));
    assert!(matches!(monitor.observe(&done.value), Verdict::Quiet));
    assert_eq!(metrics.lock().unwrap().async_tasks("sum"), 0);
    drop(executor);
    assert!(signal_rx.try_recv().is_err());
}

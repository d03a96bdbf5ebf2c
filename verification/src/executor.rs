//! The task facade: the handle through which a subsystem spawns its work.
//!
//! A facade bundles a non-owning reference to the execution engine, a
//! receiver of the exit signal, a sender of shutdown reasons and a logging
//! context. The three handles belong to the host; the facade carries them,
//! hands out clones and never looks inside. Cloning a facade is cheap and
//! shares everything but the logging context, which a clone may extend.
//!
//! The engine reference is weak: the host tries to take a strong reference
//! before each spawn call and gives the call what it got. With a strong
//! reference the call counts the unit in and hands the reference back beside
//! the ticket; without one it changes nothing and answers with a debug
//! record.

use crate::logging::{FieldView, Level, LogContext, Record, SERVICE_KEY};
use crate::metrics::Metrics;
use crate::monitor::{monitor_refused_record, Monitor, Supervised, MONITOR_REFUSED};
use crate::ticket::{
    async_spawned, blocking_spawned, refused_record, AsyncTicket, BlockingTicket, DetachedTicket,
    Dispatch, SPAWN_REFUSED,
};
use vstd::prelude::*;

verus! {

/// A facade as contracts see it.
pub struct TaskExecutorView<E, X, S> {
    /// The reference to the execution engine.
    pub runtime: E,
    /// The receiver of the exit signal.
    pub exit: X,
    /// The sender of shutdown reasons.
    pub signal_tx: S,
    /// The fields of the logging context, oldest first.
    pub log: Seq<FieldView>,
}

/// A handle which decides on the spawning of async and blocking tasks.
#[derive(Clone, Debug)]
pub struct TaskExecutor<E, X, S> {
    /// The reference to the engine on which tasks are spawned.
    runtime: E,
    /// The receiver of the exit signal, which shuts a task down when it
    /// resolves.
    exit: X,
    /// Sender given to tasks, so that if they encounter a state in which
    /// execution cannot continue they can request that everything shuts down.
    signal_tx: S,
    log: LogContext,
}

impl<E, X, S> View for TaskExecutor<E, X, S> {
    type V = TaskExecutorView<E, X, S>;

    closed spec fn view(&self) -> TaskExecutorView<E, X, S> {
        TaskExecutorView {
            runtime: self.runtime,
            exit: self.exit,
            signal_tx: self.signal_tx,
            log: self.log@,
        }
    }
}

impl<E, X, S> TaskExecutor<E, X, S> {
    /// Create a new task executor.
    pub fn new(runtime: E, exit: X, log: LogContext, signal_tx: S) -> (executor: Self)
        ensures
            executor@ == (TaskExecutorView { runtime, exit, signal_tx, log: log@ }),
    {
        TaskExecutor { runtime, exit, signal_tx, log }
    }

    /// Returns a reference to the logging context.
    pub fn log(&self) -> (log: &LogContext)
        ensures
            log@ == self@.log,
    {
        &self.log
    }

    /// Whether the ticket is one that this facade hands out for an
    /// exit-coupled unit of that name: it carries a clone of the facade's
    /// exit receiver and the facade's logging context.
    pub open spec fn issues_ticket(
        &self,
        ticket: AsyncTicket<X>,
        name: Seq<char>,
        instrumented: bool,
    ) -> bool where X: Clone {
        &&& ticket@.name == name
        &&& ticket@.instrumented == instrumented
        &&& ticket@.log == self@.log
        &&& cloned(self@.exit, ticket@.exit)
    }

    /// Whether the monitor is one that this facade sets up for a unit of
    /// that name: it carries a clone of the facade's shutdown sender and the
    /// facade's logging context.
    pub open spec fn issues_monitor(&self, monitor: Monitor<S>, name: Seq<char>) -> bool where
        S: Clone {
        &&& monitor@.name == name
        &&& monitor@.log == self@.log
        &&& cloned(self@.signal_tx, monitor@.signal_tx)
    }
}

impl<E: Clone, X: Clone, S: Clone> TaskExecutor<E, X, S> {
    /// Clones the task executor adding a service name. The clone shares the
    /// engine reference, the exit receiver and the shutdown sender; its
    /// logging context has one more field, which holds the service name. The
    /// context of the facade that was cloned is not touched.
    pub fn clone_with_name(&self, service_name: String) -> (derived: Self)
        ensures
            derived@.log == self@.log.push((SERVICE_KEY@, service_name@)),
            cloned(self@.runtime, derived@.runtime),
            cloned(self@.exit, derived@.exit),
            cloned(self@.signal_tx, derived@.signal_tx),
    {
        TaskExecutor {
            runtime: self.runtime.clone(),
            exit: self.exit.clone(),
            signal_tx: self.signal_tx.clone(),
            log: self.log.new_child(SERVICE_KEY, service_name),
        }
    }

    /// Returns the weak engine reference. Whoever wants to schedule on the
    /// engine must first take a strong reference, and must not schedule if
    /// there is none to be had.
    pub fn runtime(&self) -> (runtime: E)
        ensures
            cloned(self@.runtime, runtime),
    {
        self.runtime.clone()
    }

    /// Returns a copy of the exit receiver.
    pub fn exit(&self) -> (exit: X)
        ensures
            cloned(self@.exit, exit),
    {
        self.exit.clone()
    }

    /// Get a channel to request shutting down.
    pub fn shutdown_sender(&self) -> (signal_tx: S)
        ensures
            cloned(self@.signal_tx, signal_tx),
    {
        self.signal_tx.clone()
    }

    /// Sets up the monitor of a unit that was dispatched: the monitor is
    /// later shown how the unit ended and shuts the node down if it faulted.
    /// With the engine gone there is no monitor, only a debug record.
    pub fn spawn_monitor<A>(&self, engine: Option<A>, name: &'static str) -> (out: Dispatch<
        A,
        Monitor<S>,
    >)
        ensures
            match engine {
                Some(strong) => {
                    &&& out matches Dispatch::Scheduled(given, monitor)
                    &&& given == strong
                    &&& self.issues_monitor(monitor, name@)
                },
                None => {
                    &&& out matches Dispatch::Refused(record)
                    &&& record@ == monitor_refused_record(self@.log)
                },
            },
    {
        match engine {
            Some(strong) => Dispatch::Scheduled(
                strong,
                Monitor::issue(name, self.signal_tx.clone(), self.log.duplicate()),
            ),
            None => Dispatch::Refused(Record::new(Level::Debug, MONITOR_REFUSED, &self.log)),
        }
    }

    /// Spawn an async unit that is coupled to the exit signal and monitored.
    ///
    /// The host races the unit against the ticket's exit receiver; the unit
    /// is abandoned when the exit signal comes first. The unit is monitored:
    /// if it faults, the node is asked to shut down.
    ///
    /// `engine` is the strong reference to the engine that the caller took, or
    /// `None` if there was none to be had. With the engine alive the unit is
    /// counted in flight under its name, provided that the registry has a
    /// handle for the name. With the engine gone nothing is counted and the
    /// answer is a debug record.
    pub fn spawn<A>(&self, metrics: &mut Metrics, engine: Option<A>, name: &'static str) -> (out:
        Dispatch<A, Supervised<AsyncTicket<X>, S>>)
        requires
            old(metrics).wf(),
        ensures
            final(metrics).wf(),
            match engine {
                Some(strong) => {
                    &&& out matches Dispatch::Scheduled(given, unit)
                    &&& given == strong
                    &&& self.issues_ticket(unit.task, name@, old(metrics)@.can_track(name@))
                    &&& self.issues_monitor(unit.monitor, name@)
                    &&& final(metrics)@ == async_spawned(old(metrics)@, name@)
                },
                None => {
                    &&& out matches Dispatch::Refused(record)
                    &&& record@ == refused_record(self@.log)
                    &&& final(metrics)@ == old(metrics)@
                },
            },
    {
        match self.spawn_handle(metrics, engine, name) {
            Dispatch::Scheduled(strong, task) => {
                let monitor = Monitor::issue(name, self.signal_tx.clone(), self.log.duplicate());
                Dispatch::Scheduled(strong, Supervised { task, monitor })
            },
            Dispatch::Refused(record) => Dispatch::Refused(record),
        }
    }

    /// A convenience wrapper for `Self::spawn` for a unit whose result is a
    /// `Result` with `()` on both sides. The host settles the ticket with the
    /// race passed through [`crate::outcome::ignoring_error`], which takes no
    /// other result type.
    pub fn spawn_ignoring_error<A>(
        &self,
        metrics: &mut Metrics,
        engine: Option<A>,
        name: &'static str,
    ) -> (out: Dispatch<A, Supervised<AsyncTicket<X>, S>>)
        requires
            old(metrics).wf(),
        ensures
            final(metrics).wf(),
            match engine {
                Some(strong) => {
                    &&& out matches Dispatch::Scheduled(given, unit)
                    &&& given == strong
                    &&& self.issues_ticket(unit.task, name@, old(metrics)@.can_track(name@))
                    &&& self.issues_monitor(unit.monitor, name@)
                    &&& final(metrics)@ == async_spawned(old(metrics)@, name@)
                },
                None => {
                    &&& out matches Dispatch::Refused(record)
                    &&& record@ == refused_record(self@.log)
                    &&& final(metrics)@ == old(metrics)@
                },
            },
    {
        self.spawn(metrics, engine, name)
    }

    /// Spawn an async unit that is not coupled to the exit signal and not
    /// monitored. This is for a unit that does its own cleanup when it is
    /// completed or cancelled, or that comes from a framework which does.
    /// Whoever spawns it is responsible for shutting it down.
    pub fn spawn_without_exit<A>(
        &self,
        metrics: &mut Metrics,
        engine: Option<A>,
        name: &'static str,
    ) -> (out: Dispatch<A, DetachedTicket>)
        requires
            old(metrics).wf(),
        ensures
            final(metrics).wf(),
            match engine {
                Some(strong) => {
                    &&& out matches Dispatch::Scheduled(given, ticket)
                    &&& given == strong
                    &&& ticket@.name == name@
                    &&& ticket@.instrumented == old(metrics)@.can_track(name@)
                    &&& final(metrics)@ == async_spawned(old(metrics)@, name@)
                },
                None => {
                    &&& out matches Dispatch::Refused(record)
                    &&& record@ == refused_record(self@.log)
                    &&& final(metrics)@ == old(metrics)@
                },
            },
    {
        match engine {
            Some(strong) => {
                let instrumented = metrics.track(name);
                metrics.inc_async(name);
                Dispatch::Scheduled(strong, DetachedTicket::issue(name, instrumented))
            },
            None => Dispatch::Refused(Record::new(Level::Debug, SPAWN_REFUSED, &self.log)),
        }
    }

    /// Spawn a blocking unit on the engine's pool for blocking work, where
    /// it cannot starve the cooperative tasks. The unit is monitored: if it
    /// faults, the node is asked to shut down. `now` is the time of the
    /// call, in milliseconds.
    pub fn spawn_blocking<A>(
        &self,
        metrics: &mut Metrics,
        engine: Option<A>,
        name: &'static str,
        now: u64,
    ) -> (out: Dispatch<A, Supervised<BlockingTicket, S>>)
        requires
            old(metrics).wf(),
        ensures
            final(metrics).wf(),
            match engine {
                Some(strong) => {
                    &&& out matches Dispatch::Scheduled(given, unit)
                    &&& given == strong
                    &&& unit.task@.name == name@
                    &&& unit.task@.instrumented == old(metrics)@.can_track(name@)
                    &&& unit.task@.started_at == now
                    &&& unit.task@.log == self@.log
                    &&& self.issues_monitor(unit.monitor, name@)
                    &&& final(metrics)@ == blocking_spawned(old(metrics)@, name@)
                },
                None => {
                    &&& out matches Dispatch::Refused(record)
                    &&& record@ == refused_record(self@.log)
                    &&& final(metrics)@ == old(metrics)@
                },
            },
    {
        match self.spawn_blocking_handle(metrics, engine, name, now) {
            Dispatch::Scheduled(strong, task) => {
                let monitor = Monitor::issue(name, self.signal_tx.clone(), self.log.duplicate());
                Dispatch::Scheduled(strong, Supervised { task, monitor })
            },
            Dispatch::Refused(record) => Dispatch::Refused(record),
        }
    }

    /// Spawn an async unit that is coupled to the exit signal and hand its
    /// ticket to the caller, who looks after the result. Settling the ticket
    /// gives the unit's own value if the unit finished first and no value if
    /// the exit signal did.
    pub fn spawn_handle<A>(
        &self,
        metrics: &mut Metrics,
        engine: Option<A>,
        name: &'static str,
    ) -> (out: Dispatch<A, AsyncTicket<X>>)
        requires
            old(metrics).wf(),
        ensures
            final(metrics).wf(),
            match engine {
                Some(strong) => {
                    &&& out matches Dispatch::Scheduled(given, ticket)
                    &&& given == strong
                    &&& self.issues_ticket(ticket, name@, old(metrics)@.can_track(name@))
                    &&& final(metrics)@ == async_spawned(old(metrics)@, name@)
                },
                None => {
                    &&& out matches Dispatch::Refused(record)
                    &&& record@ == refused_record(self@.log)
                    &&& final(metrics)@ == old(metrics)@
                },
            },
    {
        match engine {
            Some(strong) => {
                let instrumented = metrics.track(name);
                metrics.inc_async(name);
                Dispatch::Scheduled(
                    strong,
                    AsyncTicket::issue(name, instrumented, self.exit.clone(), self.log.duplicate()),
                )
            },
            None => Dispatch::Refused(Record::new(Level::Debug, SPAWN_REFUSED, &self.log)),
        }
    }

    /// Spawn a blocking unit and hand its ticket to the caller. Settling the
    /// ticket hands on what the engine reported, which may be that the unit
    /// faulted. `now` is the time of the call, in milliseconds: the ticket
    /// keeps it, so that the duration observed at the end covers the time
    /// that the unit waited in the engine's queue.
    pub fn spawn_blocking_handle<A>(
        &self,
        metrics: &mut Metrics,
        engine: Option<A>,
        name: &'static str,
        now: u64,
    ) -> (out: Dispatch<A, BlockingTicket>)
        requires
            old(metrics).wf(),
        ensures
            final(metrics).wf(),
            match engine {
                Some(strong) => {
                    &&& out matches Dispatch::Scheduled(given, ticket)
                    &&& given == strong
                    &&& ticket@.name == name@
                    &&& ticket@.instrumented == old(metrics)@.can_track(name@)
                    &&& ticket@.started_at == now
                    &&& ticket@.log == self@.log
                    &&& final(metrics)@ == blocking_spawned(old(metrics)@, name@)
                },
                None => {
                    &&& out matches Dispatch::Refused(record)
                    &&& record@ == refused_record(self@.log)
                    &&& final(metrics)@ == old(metrics)@
                },
            },
    {
        match engine {
            Some(strong) => {
                let instrumented = metrics.track(name);
                metrics.inc_blocking(name);
                Dispatch::Scheduled(
                    strong,
                    BlockingTicket::issue(name, instrumented, now, self.log.duplicate()),
                )
            },
            None => Dispatch::Refused(Record::new(Level::Debug, SPAWN_REFUSED, &self.log)),
        }
    }
}

} // verus!

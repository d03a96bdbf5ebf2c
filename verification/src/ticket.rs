//! Tickets: what a spawn contract hands out, and what settles it.
//!
//! A spawn call that finds the engine alive counts the unit in flight and
//! answers with a ticket. The host dispatches the unit, waits for the
//! engine's join handle, and settles the ticket with what the handle
//! resolved to: a value, a cancellation or a fault. Settling a ticket counts
//! the unit out again. A ticket cannot be copied and is used up by settling
//! it, so every increment is matched by one decrement and no more.

use crate::logging::{FieldView, Level, LogContext, Record, RecordView};
use crate::metrics::{Metrics, MetricsView};
use crate::outcome::{JoinOutcome, Race};
use vstd::prelude::*;

verus! {

/// Message of the record for a spawn call that found the engine gone.
pub const SPAWN_REFUSED: &'static str = "Couldn't spawn task. Runtime shutting down";

/// Message of the record for an exit-coupled unit that finished.
pub const ASYNC_COMPLETED: &'static str = "Async task completed";

/// Message of the record for an exit-coupled unit that lost against the exit
/// signal.
pub const ASYNC_EXIT: &'static str = "Async task shutdown, exit received";

/// Message of the record for a blocking unit that returned.
pub const BLOCKING_COMPLETED: &'static str = "Blocking task completed";

/// Message of the record for a blocking unit that did not return.
pub const BLOCKING_ENDED: &'static str = "Blocking task ended unexpectedly";

/// Key of the field that names the task.
pub const TASK_KEY: &'static str = "task";

/// Key of the field that says why a blocking unit did not return.
pub const ERROR_KEY: &'static str = "error";

/// Why a blocking unit did not return: the engine dropped it.
pub const ERROR_CANCELLED: &'static str = "cancelled";

/// Why a blocking unit did not return: it faulted.
pub const ERROR_PANIC: &'static str = "panic";

/// The answer of a spawn contract. Never an error: a unit that cannot be
/// scheduled is dropped, and all that is left of it is a debug record.
#[derive(Debug)]
pub enum Dispatch<A, T> {
    /// The engine is alive. The answer hands back the strong reference that
    /// the caller took, to dispatch the unit on, and the ticket to settle
    /// when the unit has ended.
    Scheduled(A, T),
    /// The engine is gone. Nothing was counted; the host emits the record.
    Refused(Record),
}

/// What settling a ticket yields: how the unit ended as its caller sees it,
/// and the record to emit, if one is due.
#[derive(Debug)]
pub struct Completion<V> {
    pub value: JoinOutcome<V>,
    pub record: Option<Record>,
}

/// The record for a spawn call that found the engine gone.
pub open spec fn refused_record(context: Seq<FieldView>) -> RecordView {
    RecordView { level: Level::Debug, message: SPAWN_REFUSED@, fields: context }
}

/// The record for an exit-coupled unit: a trace entry when it finished, a
/// debug entry when the exit signal came first, and none when the unit did
/// not return at all.
pub open spec fn async_record<R>(
    context: Seq<FieldView>,
    name: Seq<char>,
    joined: JoinOutcome<Race<R>>,
) -> Option<RecordView> {
    match joined {
        JoinOutcome::Completed(Race::Task(_)) => Some(
            RecordView {
                level: Level::Trace,
                message: ASYNC_COMPLETED@,
                fields: context.push((TASK_KEY@, name)),
            },
        ),
        JoinOutcome::Completed(Race::Exit) => Some(
            RecordView {
                level: Level::Debug,
                message: ASYNC_EXIT@,
                fields: context.push((TASK_KEY@, name)),
            },
        ),
        _ => None,
    }
}

/// How an exit-coupled unit ended as its caller sees it: a unit that won
/// the race against the exit signal resolves to its own value, one that lost
/// it resolves to no value, and one that did not return stays as the engine
/// reported it.
pub open spec fn async_result<R>(joined: JoinOutcome<Race<R>>) -> JoinOutcome<Option<R>> {
    match joined {
        JoinOutcome::Completed(race) => JoinOutcome::Completed(race.spec_value()),
        JoinOutcome::Cancelled => JoinOutcome::Cancelled,
        JoinOutcome::Faulted(payload) => JoinOutcome::Faulted(payload),
    }
}

/// The record for a blocking unit: a trace entry that names the task when it
/// returned, a debug entry that says why when it did not.
pub open spec fn blocking_record<R>(
    context: Seq<FieldView>,
    name: Seq<char>,
    joined: JoinOutcome<R>,
) -> RecordView {
    match joined {
        JoinOutcome::Completed(_) => RecordView {
            level: Level::Trace,
            message: BLOCKING_COMPLETED@,
            fields: context.push((TASK_KEY@, name)),
        },
        JoinOutcome::Cancelled => RecordView {
            level: Level::Debug,
            message: BLOCKING_ENDED@,
            fields: context.push((ERROR_KEY@, ERROR_CANCELLED@)),
        },
        JoinOutcome::Faulted(_) => RecordView {
            level: Level::Debug,
            message: BLOCKING_ENDED@,
            fields: context.push((ERROR_KEY@, ERROR_PANIC@)),
        },
    }
}

/// The registry after an async unit of that name was dispatched: a handle
/// for the name was asked for, and where there is one the gauge went up.
pub open spec fn async_spawned(metrics: MetricsView, name: Seq<char>) -> MetricsView {
    metrics.track(name).inc_async(name)
}

/// The registry after an async unit of that name ended: the gauge went down
/// if it had gone up for the unit.
pub open spec fn async_settled(metrics: MetricsView, name: Seq<char>, instrumented: bool)
    -> MetricsView {
    if instrumented {
        metrics.dec_async(name)
    } else {
        metrics
    }
}

/// The registry after a blocking unit of that name was dispatched.
pub open spec fn blocking_spawned(metrics: MetricsView, name: Seq<char>) -> MetricsView {
    metrics.track(name).inc_blocking(name)
}

/// The registry after a blocking unit of that name ended: its duration was
/// observed and the gauge went down, if the unit was instrumented.
pub open spec fn blocking_settled(
    metrics: MetricsView,
    name: Seq<char>,
    instrumented: bool,
    duration: u64,
) -> MetricsView {
    if instrumented {
        metrics.observe_blocking(name, duration).dec_blocking(name)
    } else {
        metrics
    }
}

/// The time from `started` to `now` on a clock that does not run backwards;
/// 0 if it did.
pub open spec fn elapsed(started: u64, now: u64) -> u64 {
    if now >= started {
        (now - started) as u64
    } else {
        0
    }
}

/// An exit-coupled ticket as contracts see it.
pub struct AsyncTicketView<X> {
    pub name: Seq<char>,
    pub instrumented: bool,
    pub exit: X,
    pub log: Seq<FieldView>,
}

/// The ticket of an exit-coupled async unit. The host races the unit
/// against the ticket's exit receiver and settles the ticket with the side
/// that resolved first.
#[derive(Debug)]
pub struct AsyncTicket<X> {
    name: &'static str,
    instrumented: bool,
    exit: X,
    log: LogContext,
}

impl<X> View for AsyncTicket<X> {
    type V = AsyncTicketView<X>;

    closed spec fn view(&self) -> AsyncTicketView<X> {
        AsyncTicketView {
            name: self.name@,
            instrumented: self.instrumented,
            exit: self.exit,
            log: self.log@,
        }
    }
}

impl<X> AsyncTicket<X> {
    pub(crate) fn issue(name: &'static str, instrumented: bool, exit: X, log: LogContext) -> (ticket:
        Self)
        ensures
            ticket@ == (AsyncTicketView { name: name@, instrumented, exit, log: log@ }),
    {
        AsyncTicket { name, instrumented, exit, log }
    }

    /// The name of the task.
    pub fn name(&self) -> (name: &'static str)
        ensures
            name@ == self@.name,
    {
        self.name
    }

    /// Whether the unit was counted in flight.
    pub fn instrumented(&self) -> (instrumented: bool)
        ensures
            instrumented == self@.instrumented,
    {
        self.instrumented
    }

    /// The exit receiver to race the unit against.
    pub fn exit(&self) -> (exit: &X)
        ensures
            *exit == self@.exit,
    {
        &self.exit
    }

    /// Settles the ticket with what the engine reported of the race between
    /// the unit and the exit signal. The unit resolves to its own value if it
    /// won and to no value if the exit signal did. The gauge goes down
    /// however the unit ended: with a value, abandoned, dropped or faulted.
    pub fn finish<R>(self, metrics: &mut Metrics, joined: JoinOutcome<Race<R>>) -> (done:
        Completion<Option<R>>)
        requires
            old(metrics).wf(),
        ensures
            final(metrics).wf(),
            final(metrics)@ == async_settled(old(metrics)@, self@.name, self@.instrumented),
            done.value == async_result(joined),
            match async_record(self@.log, self@.name, joined) {
                Some(expected) => done.record matches Some(record) && record@ == expected,
                None => done.record is None,
            },
    {
        if self.instrumented {
            metrics.dec_async(self.name);
        }
        match joined {
            JoinOutcome::Completed(Race::Task(value)) => Completion {
                value: JoinOutcome::Completed(Some(value)),
                record: Some(
                    Record::new(Level::Trace, ASYNC_COMPLETED, &self.log).with(TASK_KEY, self.name),
                ),
            },
            JoinOutcome::Completed(Race::Exit) => Completion {
                value: JoinOutcome::Completed(None),
                record: Some(
                    Record::new(Level::Debug, ASYNC_EXIT, &self.log).with(TASK_KEY, self.name),
                ),
            },
            JoinOutcome::Cancelled => Completion { value: JoinOutcome::Cancelled, record: None },
            JoinOutcome::Faulted(payload) => Completion {
                value: JoinOutcome::Faulted(payload),
                record: None,
            },
        }
    }
}

/// A detached ticket as contracts see it.
pub struct DetachedTicketView {
    pub name: Seq<char>,
    pub instrumented: bool,
}

/// The ticket of an async unit that is not coupled to the exit signal: it
/// looks after its own shutdown, and the host runs it to its end.
#[derive(Debug)]
pub struct DetachedTicket {
    name: &'static str,
    instrumented: bool,
}

impl View for DetachedTicket {
    type V = DetachedTicketView;

    closed spec fn view(&self) -> DetachedTicketView {
        DetachedTicketView { name: self.name@, instrumented: self.instrumented }
    }
}

impl DetachedTicket {
    pub(crate) fn issue(name: &'static str, instrumented: bool) -> (ticket: Self)
        ensures
            ticket@ == (DetachedTicketView { name: name@, instrumented }),
    {
        DetachedTicket { name, instrumented }
    }

    /// The name of the task.
    pub fn name(&self) -> (name: &'static str)
        ensures
            name@ == self@.name,
    {
        self.name
    }

    /// Whether the unit was counted in flight.
    pub fn instrumented(&self) -> (instrumented: bool)
        ensures
            instrumented == self@.instrumented,
    {
        self.instrumented
    }

    /// Settles the ticket when the unit has ended, in whatever way.
    pub fn finish(self, metrics: &mut Metrics)
        requires
            old(metrics).wf(),
        ensures
            final(metrics).wf(),
            final(metrics)@ == async_settled(old(metrics)@, self@.name, self@.instrumented),
    {
        if self.instrumented {
            metrics.dec_async(self.name);
        }
    }
}

/// A blocking ticket as contracts see it.
pub struct BlockingTicketView {
    pub name: Seq<char>,
    pub instrumented: bool,
    pub started_at: u64,
    pub log: Seq<FieldView>,
}

/// The ticket of a blocking unit. It remembers when the unit was handed to
/// the engine, so that the observed duration includes the time that the unit
/// waited in the engine's queue.
#[derive(Debug)]
pub struct BlockingTicket {
    name: &'static str,
    instrumented: bool,
    started_at: u64,
    log: LogContext,
}

impl View for BlockingTicket {
    type V = BlockingTicketView;

    closed spec fn view(&self) -> BlockingTicketView {
        BlockingTicketView {
            name: self.name@,
            instrumented: self.instrumented,
            started_at: self.started_at,
            log: self.log@,
        }
    }
}

impl BlockingTicket {
    pub(crate) fn issue(
        name: &'static str,
        instrumented: bool,
        started_at: u64,
        log: LogContext,
    ) -> (ticket: Self)
        ensures
            ticket@ == (BlockingTicketView { name: name@, instrumented, started_at, log: log@ }),
    {
        BlockingTicket { name, instrumented, started_at, log }
    }

    /// The name of the task.
    pub fn name(&self) -> (name: &'static str)
        ensures
            name@ == self@.name,
    {
        self.name
    }

    /// Whether the unit was counted in flight.
    pub fn instrumented(&self) -> (instrumented: bool)
        ensures
            instrumented == self@.instrumented,
    {
        self.instrumented
    }

    /// When the unit was handed to the engine, in milliseconds.
    pub fn started_at(&self) -> (started_at: u64)
        ensures
            started_at == self@.started_at,
    {
        self.started_at
    }

    /// Settles the ticket with what the engine reported and the time at which
    /// it did, in milliseconds. The duration since dispatch is observed and
    /// the gauge goes down, however the unit ended. What the engine reported
    /// is handed on unchanged.
    pub fn finish<R>(self, metrics: &mut Metrics, joined: JoinOutcome<R>, now: u64) -> (done:
        Completion<R>)
        requires
            old(metrics).wf(),
        ensures
            final(metrics).wf(),
            final(metrics)@ == blocking_settled(
                old(metrics)@,
                self@.name,
                self@.instrumented,
                elapsed(self@.started_at, now),
            ),
            done.value == joined,
            done.record matches Some(record) && record@ == blocking_record(
                self@.log,
                self@.name,
                joined,
            ),
    {
        let record = match &joined {
            JoinOutcome::Completed(_) => Record::new(Level::Trace, BLOCKING_COMPLETED, &self.log).with(
                TASK_KEY,
                self.name,
            ),
            JoinOutcome::Cancelled => Record::new(Level::Debug, BLOCKING_ENDED, &self.log).with(
                ERROR_KEY,
                ERROR_CANCELLED,
            ),
            JoinOutcome::Faulted(_) => Record::new(Level::Debug, BLOCKING_ENDED, &self.log).with(
                ERROR_KEY,
                ERROR_PANIC,
            ),
        };
        if self.instrumented {
            let duration = if now >= self.started_at {
                now - self.started_at
            } else {
                0
            };
            metrics.observe_blocking(self.name, duration);
            metrics.dec_blocking(self.name);
        }
        Completion { value: joined, record: Some(record) }
    }
}

} // verus!

//! The panic monitor: from the end of a unit to a request to shut down.
//!
//! A monitor looks at how a dispatched unit ended. A unit that returned a
//! value, or that the engine dropped, needs nothing more. A unit that
//! faulted is a defect, and the rest of the node must not go on against a
//! world that may be inconsistent: the monitor asks for the whole node to be
//! shut down.

use crate::logging::{FieldView, Level, LogContext, Record, RecordView};
use crate::outcome::JoinOutcome;
use crate::reason::ShutdownReason;
use vstd::prelude::*;

verus! {

/// Message of the record for a monitor that could not be set up.
pub const MONITOR_REFUSED: &'static str = "Couldn't spawn monitor task. Runtime shutting down";

/// Message of the record for a unit that faulted.
pub const TASK_PANIC: &'static str = "Task panic. This is a bug!";

/// Key of the field that names the task that faulted.
pub const TASK_NAME_KEY: &'static str = "task_name";

/// Key of the field that holds the diagnostic of the fault.
pub const MESSAGE_KEY: &'static str = "message";

/// Key of the field that says what to do about the fault.
pub const ADVICE_KEY: &'static str = "advice";

/// What to do about a fault.
pub const PANIC_ADVICE: &'static str =
    "Please check above for a backtrace and notify the developers";

/// The record for a monitor that could not be set up.
pub open spec fn monitor_refused_record(context: Seq<FieldView>) -> RecordView {
    RecordView { level: Level::Debug, message: MONITOR_REFUSED@, fields: context }
}

/// The record for a unit that faulted: of the highest severity, it names the
/// task, gives the diagnostic and advises what to do.
pub open spec fn panic_record(context: Seq<FieldView>, name: Seq<char>, diagnostic: Seq<char>)
    -> RecordView {
    RecordView {
        level: Level::Critical,
        message: TASK_PANIC@,
        fields: context.push((TASK_NAME_KEY@, name)).push((MESSAGE_KEY@, diagnostic)).push(
            (ADVICE_KEY@, PANIC_ADVICE@),
        ),
    }
}

/// The reason that a monitor offers for a unit that ended as given, if any:
/// a failure with the fault's diagnostic for a unit that faulted, none for
/// any other.
pub open spec fn escalation_reason<T>(joined: JoinOutcome<T>) -> Option<ShutdownReason> {
    match joined {
        JoinOutcome::Faulted(payload) => Some(ShutdownReason::Failure(payload.spec_diagnostic())),
        _ => None,
    }
}

/// A request to shut the node down. It holds the sender through which the
/// host offers the reason, once: the offer is best effort, a channel that is
/// full or closed drops it, and nobody tries again.
#[derive(Debug)]
pub struct Escalation<S> {
    /// The entry to emit before the reason is offered.
    pub record: Record,
    /// The reason to offer.
    pub reason: ShutdownReason,
    /// The sender to offer it through.
    pub signal_tx: S,
}

/// What a monitor concluded from the end of a unit.
#[derive(Debug)]
pub enum Verdict<S> {
    /// The unit returned or was dropped. Nothing is sent.
    Quiet,
    /// The unit faulted.
    Escalate(Escalation<S>),
}

/// A monitor as contracts see it.
pub struct MonitorView<S> {
    pub name: Seq<char>,
    pub signal_tx: S,
    pub log: Seq<FieldView>,
}

/// The monitor of one dispatched unit. Looking at the end of the unit uses
/// the monitor up, so one fault gives one request and no more.
#[derive(Debug)]
pub struct Monitor<S> {
    name: &'static str,
    signal_tx: S,
    log: LogContext,
}

impl<S> View for Monitor<S> {
    type V = MonitorView<S>;

    closed spec fn view(&self) -> MonitorView<S> {
        MonitorView { name: self.name@, signal_tx: self.signal_tx, log: self.log@ }
    }
}

impl<S> Monitor<S> {
    pub(crate) fn issue(name: &'static str, signal_tx: S, log: LogContext) -> (monitor: Self)
        ensures
            monitor@ == (MonitorView { name: name@, signal_tx, log: log@ }),
    {
        Monitor { name, signal_tx, log }
    }

    /// The name of the task.
    pub fn name(&self) -> (name: &'static str)
        ensures
            name@ == self@.name,
    {
        self.name
    }

    /// Looks at how the unit ended. For a unit that faulted the verdict holds
    /// the critical record, the failure with the fault's diagnostic and the
    /// monitor's sender; for any other unit it is quiet.
    pub fn observe<T>(self, joined: &JoinOutcome<T>) -> (verdict: Verdict<S>)
        ensures
            match *joined {
                JoinOutcome::Faulted(payload) => {
                    &&& verdict matches Verdict::Escalate(escalation)
                    &&& escalation.record@ == panic_record(
                        self@.log,
                        self@.name,
                        payload.spec_diagnostic()@,
                    )
                    &&& Some(escalation.reason) == escalation_reason(*joined)
                    &&& escalation.signal_tx == self@.signal_tx
                },
                _ => verdict is Quiet,
            },
    {
        match joined {
            JoinOutcome::Faulted(payload) => {
                let message = payload.diagnostic();
                let record = Record::new(Level::Critical, TASK_PANIC, &self.log).with(
                    TASK_NAME_KEY,
                    self.name,
                ).with(MESSAGE_KEY, message).with(ADVICE_KEY, PANIC_ADVICE);
                Verdict::Escalate(
                    Escalation {
                        record,
                        reason: ShutdownReason::Failure(message),
                        signal_tx: self.signal_tx,
                    },
                )
            },
            _ => Verdict::Quiet,
        }
    }
}

/// A dispatched unit together with its monitor. The host settles the
/// ticket when the unit has ended and shows the monitor what the engine
/// reported.
#[derive(Debug)]
pub struct Supervised<T, S> {
    pub task: T,
    pub monitor: Monitor<S>,
}

} // verus!

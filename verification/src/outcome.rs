//! What the execution engine reports about a dispatched unit of work.

use vstd::prelude::*;

verus! {

/// The diagnostic used when a fault carries no plain message.
pub const NO_DIAGNOSTIC: &'static str = "<none>";

/// What an unrecovered fault left behind.
#[derive(Copy, Clone, Debug, PartialEq, Eq)]
pub enum FaultPayload {
    /// The fault carried a plain message.
    Message(&'static str),
    /// The fault carried something else, or nothing.
    Opaque,
}

impl FaultPayload {
    /// The best-effort diagnostic for the fault: its message, or
    /// [`NO_DIAGNOSTIC`] when it has none.
    pub open spec fn spec_diagnostic(self) -> &'static str {
        match self {
            FaultPayload::Message(msg) => msg,
            FaultPayload::Opaque => NO_DIAGNOSTIC,
        }
    }

    /// Extracts the best-effort diagnostic. The extraction itself never fails.
    pub fn diagnostic(&self) -> (msg: &'static str)
        ensures
            msg == self.spec_diagnostic(),
    {
        match self {
            FaultPayload::Message(msg) => msg,
            FaultPayload::Opaque => NO_DIAGNOSTIC,
        }
    }
}

/// How a dispatched unit of work ended, as the engine's join handle reports
/// it.
#[derive(Debug, PartialEq, Eq)]
pub enum JoinOutcome<T> {
    /// The unit returned a value. A logical failure of the unit is part of
    /// that value and of no concern here.
    Completed(T),
    /// The engine dropped the unit before it returned.
    Cancelled,
    /// The unit terminated through an unrecovered fault.
    Faulted(FaultPayload),
}

/// The error with which a join handle of the engine resolves for a unit
/// that did not return.
#[verifier::external_type_specification]
#[verifier::external_body]
pub struct ExJoinError(tokio::task::JoinError);

/// What an error of the engine says of the unit that it stands for: the
/// payload of the panic if the unit panicked, `None` if the unit was
/// cancelled. It depends on the error alone.
pub uninterp spec fn join_fault(error: tokio::task::JoinError) -> Option<FaultPayload>;

/// Calls `tokio::task::JoinError::try_into_panic` and, on the payload that
/// it yields, `downcast_ref` of `std::any::Any`. For an error that stands
/// for a panic the result is the payload of the panic: a message if the
/// payload is a `&'static str`, opaque if it is anything else. For an error
/// that stands for a cancelled task the result is `None`. The contract gives
/// this result its name, [`join_fault`], and claims no more of it than that
/// one error always reads the same.
#[verifier::external_body]
fn fault_of(error: tokio::task::JoinError) -> (fault: Option<FaultPayload>)
    ensures
        fault == join_fault(error),
{
    match error.try_into_panic() {
        Ok(payload) => Some(
            match payload.downcast_ref::<&'static str>() {
                Some(message) => FaultPayload::Message(message),
                None => FaultPayload::Opaque,
            },
        ),
        Err(_) => None,
    }
}

impl<T> JoinOutcome<T> {
    /// How a unit ended, from what is known of its join handle: the value
    /// that the unit returned, or, for a unit that did not return, the fault
    /// that ended it, if it was a fault.
    pub open spec fn spec_resolve(joined: Result<T, Option<FaultPayload>>) -> JoinOutcome<T> {
        match joined {
            Ok(value) => JoinOutcome::Completed(value),
            Err(Some(payload)) => JoinOutcome::Faulted(payload),
            Err(None) => JoinOutcome::Cancelled,
        }
    }

    /// How a unit ended, from what is known of its join handle.
    pub fn resolve(joined: Result<T, Option<FaultPayload>>) -> (outcome: JoinOutcome<T>)
        ensures
            outcome == Self::spec_resolve(joined),
    {
        match joined {
            Ok(value) => JoinOutcome::Completed(value),
            Err(Some(payload)) => JoinOutcome::Faulted(payload),
            Err(None) => JoinOutcome::Cancelled,
        }
    }

    /// Reads what a join handle of the engine resolved to. A unit that
    /// returned is completed with its value. A unit that did not is faulted,
    /// with the payload of its panic, if the engine's error stands for a
    /// panic, and cancelled if it does not.
    pub fn from_join(joined: Result<T, tokio::task::JoinError>) -> (outcome: JoinOutcome<T>)
        ensures
            joined matches Ok(value) ==> outcome == JoinOutcome::Completed(value),
            joined matches Err(error) ==> outcome == Self::spec_resolve(Err(join_fault(error))),
    {
        match joined {
            Ok(value) => JoinOutcome::Completed(value),
            Err(error) => Self::resolve(Err(fault_of(error))),
        }
    }

    /// Whether the unit terminated through an unrecovered fault.
    pub fn is_fault(&self) -> (faulted: bool)
        ensures
            faulted == (*self is Faulted),
    {
        match self {
            JoinOutcome::Faulted(_) => true,
            _ => false,
        }
    }
}

/// Which side of the race between a unit of work and the exit signal
/// resolved first.
#[derive(Debug, PartialEq, Eq)]
pub enum Race<T> {
    /// The unit finished first, with this value.
    Task(T),
    /// The exit signal resolved first; the unit is abandoned.
    Exit,
}

/// What `futures::future::select` resolves to: the output of the future that
/// resolved first, on the left or on the right, beside the other future.
#[verifier::external_type_specification]
pub struct ExEither<A, B>(futures::future::Either<A, B>);

impl<T> Race<T> {
    /// Reads the result of a `select` that had the unit on the left and the
    /// exit signal on the right. When both are ready at once `select` gives
    /// the left one, so the unit wins a tie.
    pub fn from_select<X, U, P>(either: futures::future::Either<(T, X), (U, P)>) -> (race: Race<T>)
        ensures
            match either {
                futures::future::Either::Left((value, _)) => race == Race::Task(value),
                futures::future::Either::Right(_) => race is Exit,
            },
    {
        match either {
            futures::future::Either::Left((value, _)) => Race::Task(value),
            futures::future::Either::Right(_) => Race::Exit,
        }
    }

    /// The result that an exit-coupled unit resolves to: its own value when
    /// it won the race, no value when the exit signal did.
    pub open spec fn spec_value(self) -> Option<T> {
        match self {
            Race::Task(value) => Some(value),
            Race::Exit => None,
        }
    }

    /// The result that an exit-coupled unit resolves to.
    pub fn into_value(self) -> (value: Option<T>)
        ensures
            value == self.spec_value(),
    {
        match self {
            Race::Task(value) => Some(value),
            Race::Exit => None,
        }
    }
}

/// Drops the result of a unit whose success and failure both carry nothing,
/// so that it can be run where a unit without a result is expected. A unit
/// with any other result type does not fit, which is the point: a result
/// that starts to carry something cannot be ignored by accident.
pub fn ignoring_error(race: Race<Result<(), ()>>) -> (plain: Race<()>)
    ensures
        plain == match race {
            Race::Task(_) => Race::Task(()),
            Race::Exit => Race::Exit,
        },
{
    match race {
        Race::Task(_) => Race::Task(()),
        Race::Exit => Race::Exit,
    }
}

} // verus!

//! What holds of the facade, its tickets and its monitors as a whole.
//!
//! Each law is stated over the models that the contracts of the functions
//! use, and proved from their definitions.

use crate::coordinator::{CoordinatorView, Notice};
use crate::logging::{has_field, FieldView, SERVICE_KEY};
use crate::metrics::{counter_add, gauge_dec, gauge_inc, MetricsView};
use crate::monitor::escalation_reason;
use crate::outcome::{JoinOutcome, Race};
use crate::reason::ShutdownReason;
use crate::outcome::FaultPayload;
use crate::ticket::{
    async_result, async_settled, async_spawned, blocking_settled, blocking_spawned, elapsed,
};
use vstd::prelude::*;

verus! {

/// Lowering a gauge undoes raising it, and the other way round, at every
/// value of the gauge.
pub proof fn law_gauge_steps_cancel(v: i64)
    ensures
        gauge_dec(gauge_inc(v)) == v,
        gauge_inc(gauge_dec(v)) == v,
{
}

/// A name that is registered stays registered, whatever is counted or
/// observed afterwards: a handle that the registry gave stays good.
pub proof fn law_names_persist(m: MetricsView, name: Seq<char>, other: Seq<char>, duration: u64)
    requires
        m.tracks(name),
    ensures
        m.track(other).tracks(name),
        m.inc_async(other).tracks(name),
        m.dec_async(other).tracks(name),
        m.inc_blocking(other).tracks(name),
        m.dec_blocking(other).tracks(name),
        m.observe_blocking(other, duration).tracks(name),
{
}

/// Counting one unit in and another out comes to the same in either order,
/// for the same name as for two names. So units that overlap in time are
/// counted as if each had run alone, and a gauge reads the number of units
/// of its name that were counted in and not yet out.
pub proof fn law_gauge_steps_commute(m: MetricsView, a: Seq<char>, b: Seq<char>)
    ensures
        m.inc_async(a).dec_async(b) == m.dec_async(b).inc_async(a),
        m.inc_async(a).inc_async(b) == m.inc_async(b).inc_async(a),
        m.inc_blocking(a).dec_blocking(b) == m.dec_blocking(b).inc_blocking(a),
        m.inc_async(a).dec_blocking(b) == m.dec_blocking(b).inc_async(a),
{
    assert(m.inc_async(a).dec_async(b).tasks =~= m.dec_async(b).inc_async(a).tasks);
    assert(m.inc_async(a).inc_async(b).tasks =~= m.inc_async(b).inc_async(a).tasks);
    assert(m.inc_blocking(a).dec_blocking(b).tasks =~= m.dec_blocking(b).inc_blocking(a).tasks);
    assert(m.inc_async(a).dec_blocking(b).tasks =~= m.dec_blocking(b).inc_async(a).tasks);
}

/// Spawning an async unit raises the gauge of its name by exactly one, and
/// settling its ticket lowers that gauge by exactly one. This is stated for
/// a unit that is instrumented, that is, where the registry has a handle for
/// the name, and for a gauge below its maximum.
pub proof fn law_async_gauge_steps(m: MetricsView, name: Seq<char>)
    requires
        m.can_track(name),
        m.async_tasks(name) < i64::MAX,
    ensures
        async_spawned(m, name).async_tasks(name) == m.async_tasks(name) + 1,
        async_settled(async_spawned(m, name), name, true).async_tasks(name) == async_spawned(
            m,
            name,
        ).async_tasks(name) - 1,
{
}

/// After an async unit was spawned and its ticket settled, every gauge of
/// every name reads as it did before the spawn: the net change is zero. It
/// does not matter how the unit ended, nor whether it was instrumented.
pub proof fn law_async_gauge_balanced(m: MetricsView, name: Seq<char>, any: Seq<char>)
    ensures
        async_settled(async_spawned(m, name), name, m.can_track(name)).async_tasks(any)
            == m.async_tasks(any),
        async_settled(async_spawned(m, name), name, m.can_track(name)).blocking_tasks(any)
            == m.blocking_tasks(any),
        async_settled(async_spawned(m, name), name, m.can_track(name)).blocking_durations(any)
            == m.blocking_durations(any),
{
}

/// Settling the ticket of an instrumented unit lowers the gauge of its name
/// by one step in whatever state the registry is by then, as long as the
/// name is still registered, and leaves the gauges of all other names alone.
pub proof fn law_async_settled_once(m: MetricsView, name: Seq<char>, other: Seq<char>)
    requires
        m.tracks(name),
        other != name,
    ensures
        async_settled(m, name, true).async_tasks(name) == gauge_dec(m.async_tasks(name)),
        async_settled(m, name, true).async_tasks(other) == m.async_tasks(other),
        async_settled(m, name, false) == m,
{
}

/// When the exit signal resolves before an exit-coupled unit has finished,
/// the unit resolves to no value, not to an output of its own; when the unit
/// finishes first, it resolves to that output. A unit that did not return
/// resolves to nothing of the kind: the fault or the cancellation is handed
/// on.
pub proof fn law_exit_first_cancels<R>(output: R, payload: FaultPayload)
    ensures
        async_result(JoinOutcome::Completed(Race::<R>::Exit)) == JoinOutcome::<
            Option<R>,
        >::Completed(None),
        async_result(JoinOutcome::Completed(Race::Task(output))) == JoinOutcome::Completed(
            Some(output),
        ),
        async_result(JoinOutcome::<Race<R>>::Cancelled) == JoinOutcome::<Option<R>>::Cancelled,
        async_result(JoinOutcome::<Race<R>>::Faulted(payload)) == JoinOutcome::<
            Option<R>,
        >::Faulted(payload),
{
}

/// A monitor offers a shutdown reason for a unit that faulted and for no
/// other: a unit that returned a value, or that the engine dropped, leads to
/// no reason at all.
pub proof fn law_reason_only_for_fault<T>(joined: JoinOutcome<T>)
    ensures
        escalation_reason(joined) is Some <==> joined is Faulted,
{
}

/// For a unit that faulted a monitor offers one reason: a failure that
/// carries the best-effort diagnostic of the fault.
pub proof fn law_fault_gives_failure<T>(joined: JoinOutcome<T>)
    requires
        joined is Faulted,
    ensures
        escalation_reason(joined) == Some(
            ShutdownReason::Failure(joined->Faulted_0.spec_diagnostic()),
        ),
        escalation_reason(joined)->Some_0.spec_is_failure(),
{
}

/// The exit signal fires with the first notice that reaches the
/// coordinator and stays fired. A later notice does not fire it again, does
/// not take it back, and does not replace the reason that came first.
pub proof fn law_exit_fires_once(state: CoordinatorView, first: Notice, later: Notice)
    ensures
        state.receive(first).fired,
        state.receive(first).receive(later) == state.receive(first),
        !state.fired && first is Reason ==> state.receive(first).reason == Some(first->Reason_0),
        state.fired ==> state.receive(first) == state,
{
}

/// Deriving a logging context for a service keeps every field of the
/// parent in its place and adds the service field at the end. A parent
/// that does not hold that field still does not hold it afterwards, since
/// the parent is not changed.
pub proof fn law_derived_context(parent: Seq<FieldView>, service: Seq<char>)
    ensures
        has_field(parent.push((SERVICE_KEY@, service)), SERVICE_KEY@, service),
        parent.push((SERVICE_KEY@, service)).len() == parent.len() + 1,
        forall|i: int|
            0 <= i < parent.len() ==> parent.push((SERVICE_KEY@, service))[i] == parent[i],
{
    let child = parent.push((SERVICE_KEY@, service));
    assert(child[parent.len() as int] == (SERVICE_KEY@, service));
}

/// The duration that a blocking unit is observed with is the time from the
/// spawn call to the end of the unit, so it covers the time that the unit
/// waited in the engine's queue. This is stated for a clock that did not run
/// backwards.
pub proof fn law_blocking_duration_spans_dispatch(
    m: MetricsView,
    name: Seq<char>,
    started: u64,
    now: u64,
)
    requires
        m.can_track(name),
        started <= now,
    ensures
        elapsed(started, now) == now - started,
        blocking_settled(
            blocking_spawned(m, name),
            name,
            true,
            elapsed(started, now),
        ).blocking_durations(name) == m.blocking_durations(name).observe((now - started) as u64),
        blocking_settled(
            blocking_spawned(m, name),
            name,
            true,
            elapsed(started, now),
        ).blocking_durations(name).sum == counter_add(
            m.blocking_durations(name).sum,
            (now - started) as u64,
        ),
        blocking_settled(
            blocking_spawned(m, name),
            name,
            true,
            elapsed(started, now),
        ).blocking_durations(name).count == counter_add(m.blocking_durations(name).count, 1),
{
}

/// Spawning a blocking unit raises the blocking gauge of its name by
/// exactly one. This is stated for a unit that is instrumented and for a
/// gauge below its maximum.
pub proof fn law_blocking_gauge_steps(m: MetricsView, name: Seq<char>)
    requires
        m.can_track(name),
        m.blocking_tasks(name) < i64::MAX,
    ensures
        blocking_spawned(m, name).blocking_tasks(name) == m.blocking_tasks(name) + 1,
{
}

/// After a blocking unit was spawned and its ticket settled, the blocking
/// gauge of every name reads as it did before the spawn, and so does every
/// async gauge. The registry after settling does not depend on how the unit
/// ended: a unit that faulted is counted out like one that returned.
pub proof fn law_blocking_gauge_balanced(
    m: MetricsView,
    name: Seq<char>,
    any: Seq<char>,
    duration: u64,
)
    ensures
        blocking_settled(
            blocking_spawned(m, name),
            name,
            m.can_track(name),
            duration,
        ).blocking_tasks(any) == m.blocking_tasks(any),
        blocking_settled(
            blocking_spawned(m, name),
            name,
            m.can_track(name),
            duration,
        ).async_tasks(any) == m.async_tasks(any),
{
}

} // verus!

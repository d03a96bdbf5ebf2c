//! The accounts of a whole run: every gauge reads the number of units of
//! its name that are in flight.
//!
//! The contracts of the spawn calls and of the tickets say what one call
//! does to the registry. This module follows the registry over any number of
//! calls, in any order, and shows that it keeps step with the units that are
//! in flight: a gauge that started at zero reads zero again as soon as the
//! last ticket of its name is settled.

use crate::metrics::{gauge_dec, gauge_inc, MetricsView};
use crate::ticket::{async_settled, async_spawned, blocking_settled, blocking_spawned};
use vstd::multiset::Multiset;
use vstd::prelude::*;

verus! {

/// One step of a run.
pub enum Step {
    /// An async unit of that name was spawned with the engine alive.
    SpawnedAsync(Seq<char>),
    /// The ticket of an instrumented async unit of that name was settled.
    SettledAsync(Seq<char>),
    /// A blocking unit of that name was spawned with the engine alive.
    SpawnedBlocking(Seq<char>),
    /// The ticket of an instrumented blocking unit of that name was settled
    /// with the given duration.
    SettledBlocking(Seq<char>, u64),
}

/// The gauge that started at zero after `units` increments.
pub open spec fn gauge_after(units: nat) -> i64
    decreases units,
{
    if units == 0 {
        0
    } else {
        gauge_inc(gauge_after((units - 1) as nat))
    }
}

/// The registry of a node together with the instrumented units that are in
/// flight, counted by name.
pub struct Ledger {
    pub metrics: MetricsView,
    pub async_in_flight: Multiset<Seq<char>>,
    pub blocking_in_flight: Multiset<Seq<char>>,
}

impl Ledger {
    /// The ledger of a node that has not spawned anything.
    pub open spec fn start(limit: nat) -> Ledger {
        Ledger {
            metrics: MetricsView::empty(limit),
            async_in_flight: Multiset::empty(),
            blocking_in_flight: Multiset::empty(),
        }
    }

    /// Whether the step can follow: a ticket can be settled only while a
    /// unit of its name is in flight.
    pub open spec fn admits(self, step: Step) -> bool {
        match step {
            Step::SpawnedAsync(_) => true,
            Step::SettledAsync(name) => self.async_in_flight.count(name) > 0,
            Step::SpawnedBlocking(_) => true,
            Step::SettledBlocking(name, _) => self.blocking_in_flight.count(name) > 0,
        }
    }

    /// The ledger after the step. A unit that was spawned is in flight if
    /// the registry had a handle for its name.
    pub open spec fn apply(self, step: Step) -> Ledger {
        match step {
            Step::SpawnedAsync(name) => Ledger {
                metrics: async_spawned(self.metrics, name),
                async_in_flight: if self.metrics.can_track(name) {
                    self.async_in_flight.insert(name)
                } else {
                    self.async_in_flight
                },
                ..self
            },
            Step::SettledAsync(name) => Ledger {
                metrics: async_settled(self.metrics, name, true),
                async_in_flight: self.async_in_flight.remove(name),
                ..self
            },
            Step::SpawnedBlocking(name) => Ledger {
                metrics: blocking_spawned(self.metrics, name),
                blocking_in_flight: if self.metrics.can_track(name) {
                    self.blocking_in_flight.insert(name)
                } else {
                    self.blocking_in_flight
                },
                ..self
            },
            Step::SettledBlocking(name, duration) => Ledger {
                metrics: blocking_settled(self.metrics, name, true, duration),
                blocking_in_flight: self.blocking_in_flight.remove(name),
                ..self
            },
        }
    }

    /// The ledger after all steps of a run, first to last.
    pub open spec fn run(self, steps: Seq<Step>) -> Ledger
        decreases steps.len(),
    {
        if steps.len() == 0 {
            self
        } else {
            self.run(steps.drop_last()).apply(steps.last())
        }
    }

    /// Whether every step of the run can follow the steps before it.
    pub open spec fn admits_run(self, steps: Seq<Step>) -> bool
        decreases steps.len(),
    {
        steps.len() == 0 || (self.admits_run(steps.drop_last()) && self.run(
            steps.drop_last(),
        ).admits(steps.last()))
    }

    /// The registry keeps step with the units in flight: every gauge reads
    /// the number of instrumented units of its name that are in flight, and
    /// a name with a unit in flight is registered.
    pub open spec fn balanced(self) -> bool {
        forall|name: Seq<char>|
            {
                &&& #[trigger] self.metrics.async_tasks(name) == gauge_after(
                    self.async_in_flight.count(name),
                )
                &&& self.metrics.blocking_tasks(name) == gauge_after(
                    self.blocking_in_flight.count(name),
                )
                &&& self.async_in_flight.count(name) > 0 ==> self.metrics.tracks(name)
                &&& self.blocking_in_flight.count(name) > 0 ==> self.metrics.tracks(name)
            }
    }
}

/// Lowering the gauge of `units` units in flight gives the gauge of one unit
/// less.
pub proof fn lemma_gauge_after_step(units: nat)
    requires
        units > 0,
    ensures
        gauge_dec(gauge_after(units)) == gauge_after((units - 1) as nat),
{
}

/// A node that has not spawned anything is balanced.
pub proof fn law_start_is_balanced(limit: nat)
    ensures
        Ledger::start(limit).balanced(),
{
}

/// A step keeps the ledger balanced.
pub proof fn law_step_keeps_balance(ledger: Ledger, step: Step)
    requires
        ledger.balanced(),
        ledger.admits(step),
    ensures
        ledger.apply(step).balanced(),
{
    let after = ledger.apply(step);
    assert forall|name: Seq<char>|
        {
            &&& #[trigger] after.metrics.async_tasks(name) == gauge_after(
                after.async_in_flight.count(name),
            )
            &&& after.metrics.blocking_tasks(name) == gauge_after(
                after.blocking_in_flight.count(name),
            )
            &&& after.async_in_flight.count(name) > 0 ==> after.metrics.tracks(name)
            &&& after.blocking_in_flight.count(name) > 0 ==> after.metrics.tracks(name)
        } by {
        assert(ledger.metrics.async_tasks(name) == gauge_after(
            ledger.async_in_flight.count(name),
        ));
        match step {
            Step::SpawnedAsync(spawned) => {
                assert(ledger.metrics.async_tasks(spawned) == gauge_after(
                    ledger.async_in_flight.count(spawned),
                ));
            },
            Step::SettledAsync(settled) => {
                assert(ledger.metrics.async_tasks(settled) == gauge_after(
                    ledger.async_in_flight.count(settled),
                ));
                lemma_gauge_after_step(ledger.async_in_flight.count(settled));
            },
            Step::SpawnedBlocking(spawned) => {
                assert(ledger.metrics.async_tasks(spawned) == gauge_after(
                    ledger.async_in_flight.count(spawned),
                ));
            },
            Step::SettledBlocking(settled, _) => {
                assert(ledger.metrics.async_tasks(settled) == gauge_after(
                    ledger.async_in_flight.count(settled),
                ));
                lemma_gauge_after_step(ledger.blocking_in_flight.count(settled));
            },
        }
    }
}

/// A run keeps the ledger balanced, however long it is and in whatever
/// order its units are spawned and settled.
pub proof fn law_run_keeps_balance(ledger: Ledger, steps: Seq<Step>)
    requires
        ledger.balanced(),
        ledger.admits_run(steps),
    ensures
        ledger.run(steps).balanced(),
    decreases steps.len(),
{
    if steps.len() > 0 {
        law_run_keeps_balance(ledger, steps.drop_last());
        law_step_keeps_balance(ledger.run(steps.drop_last()), steps.last());
    }
}

/// After any run of a node that started with an empty registry, the gauges
/// of a name of which no instrumented unit is in flight read zero: every
/// unit that was counted in was counted out, once.
pub proof fn law_settled_gauges_read_zero(limit: nat, steps: Seq<Step>, name: Seq<char>)
    requires
        Ledger::start(limit).admits_run(steps),
    ensures
        Ledger::start(limit).run(steps).async_in_flight.count(name) == 0 ==> Ledger::start(
            limit,
        ).run(steps).metrics.async_tasks(name) == 0,
        Ledger::start(limit).run(steps).blocking_in_flight.count(name) == 0 ==> Ledger::start(
            limit,
        ).run(steps).metrics.blocking_tasks(name) == 0,
{
    law_start_is_balanced(limit);
    law_run_keeps_balance(Ledger::start(limit), steps);
    let end = Ledger::start(limit).run(steps);
    assert(end.metrics.async_tasks(name) == gauge_after(end.async_in_flight.count(name)));
}

} // verus!

//! Per-task metrics: in-flight gauges and a histogram of blocking durations.
//!
//! The registry maps a task name to its metrics. A name is registered the
//! first time a handle for it is asked for, as long as the registry has room;
//! when it has none, the caller goes without instrumentation and the task
//! runs all the same. Names are never removed, so a handle that was given
//! stays good.
//!
//! Gauges are signed and wrap at the ends of their range, so that a
//! decrement always undoes an increment. Counters and sums of the histogram
//! stop at their maximum instead.

use vstd::prelude::*;

verus! {

/// The gauge after one more unit is in flight.
pub open spec fn gauge_inc(v: i64) -> i64 {
    if v == i64::MAX {
        i64::MIN
    } else {
        (v + 1) as i64
    }
}

/// The gauge after one unit left.
pub open spec fn gauge_dec(v: i64) -> i64 {
    if v == i64::MIN {
        i64::MAX
    } else {
        (v - 1) as i64
    }
}

/// The sum of two counters, held at the maximum where it would pass it.
pub open spec fn counter_add(a: u64, b: u64) -> u64 {
    if a + b > u64::MAX {
        u64::MAX
    } else {
        (a + b) as u64
    }
}

fn inc_gauge(v: i64) -> (r: i64)
    ensures
        r == gauge_inc(v),
{
    if v == i64::MAX {
        i64::MIN
    } else {
        v + 1
    }
}

fn dec_gauge(v: i64) -> (r: i64)
    ensures
        r == gauge_dec(v),
{
    if v == i64::MIN {
        i64::MAX
    } else {
        v - 1
    }
}

fn add_counter(a: u64, b: u64) -> (r: u64)
    ensures
        r == counter_add(a, b),
{
    if b > u64::MAX - a {
        u64::MAX
    } else {
        a + b
    }
}

/// Upper bounds of the histogram's buckets, in milliseconds. One more bucket
/// follows the last bound and takes every longer duration.
pub open spec fn default_bounds() -> Seq<u64> {
    seq![5u64, 10u64, 25u64, 50u64, 100u64, 250u64, 500u64, 1000u64, 2500u64, 5000u64, 10000u64]
}

/// Whether `i` is the bucket of `value`: the first whose bound is not below
/// the value, or the one after the last bound.
pub open spec fn is_bucket(bounds: Seq<u64>, value: u64, i: int) -> bool {
    &&& 0 <= i <= bounds.len()
    &&& forall|j: int| 0 <= j < i ==> bounds[j] < value
    &&& i < bounds.len() ==> value <= bounds[i]
}

/// The bucket of `value`.
pub open spec fn bucket_index(bounds: Seq<u64>, value: u64) -> int {
    choose|i: int| is_bucket(bounds, value, i)
}

/// A value has one bucket only.
pub proof fn lemma_bucket_unique(bounds: Seq<u64>, value: u64, i: int)
    requires
        is_bucket(bounds, value, i),
    ensures
        bucket_index(bounds, value) == i,
{
    let k = bucket_index(bounds, value);
    assert(is_bucket(bounds, value, k));
    if k < i {
        assert(bounds[k] < value);
    }
    if i < k {
        assert(bounds[i] < value);
    }
}

/// A histogram as contracts see it.
pub struct HistogramView {
    /// Upper bounds of the buckets.
    pub bounds: Seq<u64>,
    /// Observations per bucket; one entry more than there are bounds.
    pub counts: Seq<u64>,
    /// Sum of all observations.
    pub sum: u64,
    /// Number of observations.
    pub count: u64,
}

impl HistogramView {
    /// The histogram without observations.
    pub open spec fn empty() -> HistogramView {
        HistogramView {
            bounds: default_bounds(),
            counts: Seq::new(default_bounds().len() + 1, |i: int| 0u64),
            sum: 0,
            count: 0,
        }
    }

    /// The histogram after one more observation.
    pub open spec fn observe(self, value: u64) -> HistogramView {
        let i = bucket_index(self.bounds, value);
        HistogramView {
            bounds: self.bounds,
            counts: self.counts.update(i, counter_add(self.counts[i], 1)),
            sum: counter_add(self.sum, value),
            count: counter_add(self.count, 1),
        }
    }
}

/// A histogram of durations.
#[derive(Debug)]
pub struct Histogram {
    bounds: Vec<u64>,
    counts: Vec<u64>,
    sum: u64,
    count: u64,
}

impl View for Histogram {
    type V = HistogramView;

    closed spec fn view(&self) -> HistogramView {
        HistogramView {
            bounds: self.bounds@,
            counts: self.counts@,
            sum: self.sum,
            count: self.count,
        }
    }
}

impl Histogram {
    /// There is one bucket per bound and one more.
    pub closed spec fn wf(&self) -> bool {
        self.counts.len() == self.bounds.len() + 1
    }

    /// A histogram without observations.
    pub fn new() -> (histogram: Histogram)
        ensures
            histogram.wf(),
            histogram@ == HistogramView::empty(),
    {
        let mut bounds: Vec<u64> = Vec::new();
        bounds.push(5);
        bounds.push(10);
        bounds.push(25);
        bounds.push(50);
        bounds.push(100);
        bounds.push(250);
        bounds.push(500);
        bounds.push(1000);
        bounds.push(2500);
        bounds.push(5000);
        bounds.push(10000);
        assert(bounds@ =~= default_bounds());
        let mut counts: Vec<u64> = Vec::new();
        let mut i: usize = 0;
        while i <= bounds.len()
            invariant
                bounds.len() == 11,
                i <= bounds.len() + 1,
                counts.len() == i,
                forall|j: int| 0 <= j < i ==> counts@[j] == 0,
            decreases bounds.len() + 1 - i,
        {
            counts.push(0);
            i += 1;
        }
        let histogram = Histogram { bounds, counts, sum: 0, count: 0 };
        assert(histogram@.counts =~= HistogramView::empty().counts);
        histogram
    }

    /// Records one observation.
    pub fn observe(&mut self, value: u64)
        requires
            old(self).wf(),
        ensures
            final(self).wf(),
            final(self)@ == old(self)@.observe(value),
    {
        let mut i: usize = 0;
        while i < self.bounds.len() && self.bounds[i] < value
            invariant
                i <= self.bounds.len(),
                forall|j: int| 0 <= j < i ==> self.bounds@[j] < value,
            decreases self.bounds.len() - i,
        {
            i += 1;
        }
        proof {
            lemma_bucket_unique(self.bounds@, value, i as int);
        }
        let seen = self.counts[i];
        self.counts[i] = add_counter(seen, 1);
        self.sum = add_counter(self.sum, value);
        self.count = add_counter(self.count, 1);
    }

    /// The number of observations.
    pub fn count(&self) -> (n: u64)
        ensures
            n == self@.count,
    {
        self.count
    }

    /// The sum of all observations.
    pub fn sum(&self) -> (total: u64)
        ensures
            total == self@.sum,
    {
        self.sum
    }

    /// The upper bounds of the buckets.
    pub fn bounds(&self) -> (bounds: &Vec<u64>)
        ensures
            bounds@ == self@.bounds,
    {
        &self.bounds
    }

    /// The observations per bucket.
    pub fn buckets(&self) -> (counts: &Vec<u64>)
        ensures
            counts@ == self@.counts,
    {
        &self.counts
    }
}

/// The metrics of one task name as contracts see them.
pub struct TaskMetricsView {
    /// Async units in flight.
    pub async_tasks: i64,
    /// Blocking units in flight.
    pub blocking_tasks: i64,
    /// Durations of the blocking units that completed.
    pub blocking_durations: HistogramView,
}

impl TaskMetricsView {
    /// The metrics of a name that was just registered.
    pub open spec fn fresh() -> TaskMetricsView {
        TaskMetricsView {
            async_tasks: 0,
            blocking_tasks: 0,
            blocking_durations: HistogramView::empty(),
        }
    }
}

/// The registry as contracts see it.
pub struct MetricsView {
    /// The metrics of every registered name.
    pub tasks: Map<Seq<char>, TaskMetricsView>,
    /// How many names the registry can hold.
    pub limit: nat,
}

impl MetricsView {
    /// The registry of the given size without names.
    pub open spec fn empty(limit: nat) -> MetricsView {
        MetricsView { tasks: Map::empty(), limit }
    }

    /// Whether the name is registered.
    pub open spec fn tracks(self, name: Seq<char>) -> bool {
        self.tasks.dom().contains(name)
    }

    /// Whether the registry can hold one more name.
    pub open spec fn has_room(self) -> bool {
        self.tasks.dom().len() < self.limit
    }

    /// Whether the registry can produce a handle for the name: the name is
    /// registered already, or there is room to register it.
    pub open spec fn can_track(self, name: Seq<char>) -> bool {
        self.tracks(name) || self.has_room()
    }

    /// The registry after a handle for the name was asked for.
    pub open spec fn track(self, name: Seq<char>) -> MetricsView {
        if !self.tracks(name) && self.has_room() {
            MetricsView { tasks: self.tasks.insert(name, TaskMetricsView::fresh()), ..self }
        } else {
            self
        }
    }

    /// Async units of that name in flight; 0 for a name that is not
    /// registered.
    pub open spec fn async_tasks(self, name: Seq<char>) -> i64 {
        if self.tracks(name) {
            self.tasks[name].async_tasks
        } else {
            0
        }
    }

    /// Blocking units of that name in flight; 0 for a name that is not
    /// registered.
    pub open spec fn blocking_tasks(self, name: Seq<char>) -> i64 {
        if self.tracks(name) {
            self.tasks[name].blocking_tasks
        } else {
            0
        }
    }

    /// The durations observed for that name; the empty histogram for a name
    /// that is not registered.
    pub open spec fn blocking_durations(self, name: Seq<char>) -> HistogramView {
        if self.tracks(name) {
            self.tasks[name].blocking_durations
        } else {
            HistogramView::empty()
        }
    }

    /// The registry with the async gauge of a registered name set to `v`.
    pub open spec fn set_async(self, name: Seq<char>, v: i64) -> MetricsView {
        if self.tracks(name) {
            MetricsView {
                tasks: self.tasks.insert(
                    name,
                    TaskMetricsView { async_tasks: v, ..self.tasks[name] },
                ),
                ..self
            }
        } else {
            self
        }
    }

    /// The registry with the blocking gauge of a registered name set to `v`.
    pub open spec fn set_blocking(self, name: Seq<char>, v: i64) -> MetricsView {
        if self.tracks(name) {
            MetricsView {
                tasks: self.tasks.insert(
                    name,
                    TaskMetricsView { blocking_tasks: v, ..self.tasks[name] },
                ),
                ..self
            }
        } else {
            self
        }
    }

    /// One more async unit of that name is in flight. Nothing changes for a
    /// name that is not registered.
    pub open spec fn inc_async(self, name: Seq<char>) -> MetricsView {
        self.set_async(name, gauge_inc(self.async_tasks(name)))
    }

    /// One async unit of that name left.
    pub open spec fn dec_async(self, name: Seq<char>) -> MetricsView {
        self.set_async(name, gauge_dec(self.async_tasks(name)))
    }

    /// One more blocking unit of that name is in flight.
    pub open spec fn inc_blocking(self, name: Seq<char>) -> MetricsView {
        self.set_blocking(name, gauge_inc(self.blocking_tasks(name)))
    }

    /// One blocking unit of that name left.
    pub open spec fn dec_blocking(self, name: Seq<char>) -> MetricsView {
        self.set_blocking(name, gauge_dec(self.blocking_tasks(name)))
    }

    /// A blocking unit of that name took `duration`.
    pub open spec fn observe_blocking(self, name: Seq<char>, duration: u64) -> MetricsView {
        if self.tracks(name) {
            MetricsView {
                tasks: self.tasks.insert(
                    name,
                    TaskMetricsView {
                        blocking_durations: self.tasks[name].blocking_durations.observe(duration),
                        ..self.tasks[name]
                    },
                ),
                ..self
            }
        } else {
            self
        }
    }
}

#[derive(Debug)]
struct TaskMetrics {
    name: String,
    async_tasks: i64,
    blocking_tasks: i64,
    blocking_durations: Histogram,
}

impl View for TaskMetrics {
    type V = TaskMetricsView;

    closed spec fn view(&self) -> TaskMetricsView {
        TaskMetricsView {
            async_tasks: self.async_tasks,
            blocking_tasks: self.blocking_tasks,
            blocking_durations: self.blocking_durations@,
        }
    }
}

/// The registry of per-task metrics.
#[derive(Debug)]
pub struct Metrics {
    entries: Vec<TaskMetrics>,
    limit: usize,
}

impl View for Metrics {
    type V = MetricsView;

    closed spec fn view(&self) -> MetricsView {
        MetricsView {
            tasks: Map::new(
                |k: Seq<char>| self.names().contains(k),
                |k: Seq<char>| self.entries@[self.names().index_of(k)]@,
            ),
            limit: self.limit as nat,
        }
    }
}

impl Metrics {
    /// The registered names, in the order in which they came.
    pub closed spec fn names(&self) -> Seq<Seq<char>> {
        Seq::new(self.entries@.len(), |i: int| self.entries@[i].name@)
    }

    /// No name is registered twice, and every histogram is sound.
    pub closed spec fn wf(&self) -> bool {
        &&& self.names().no_duplicates()
        &&& forall|i: int|
            0 <= i < self.entries@.len() ==> (#[trigger] self.entries@[i]).blocking_durations.wf()
    }

    proof fn lemma_index(&self, i: int)
        requires
            self.wf(),
            0 <= i < self.entries@.len(),
        ensures
            self.names().contains(self.entries@[i].name@),
            self.names().index_of(self.entries@[i].name@) == i,
    {
        let names = self.names();
        assert(names[i] == self.entries@[i].name@);
        let k = names.index_of(names[i]);
        assert(0 <= k < names.len() && names[k] == names[i]);
    }

    /// The registry holds as many names as its model says, and their number
    /// is finite.
    pub proof fn lemma_registered(&self)
        requires
            self.wf(),
        ensures
            self@.tasks.dom().finite(),
            self@.tasks.dom().len() == self.names().len(),
            forall|k: Seq<char>| self@.tracks(k) <==> self.names().contains(k),
    {
        let names = self.names();
        names.unique_seq_to_set();
        vstd::seq_lib::seq_to_set_is_finite(names);
        assert(self@.tasks.dom() =~= names.to_set());
    }

    /// An empty registry that can hold `limit` names.
    pub fn new(limit: usize) -> (metrics: Metrics)
        ensures
            metrics.wf(),
            metrics@ == MetricsView::empty(limit as nat),
    {
        let metrics = Metrics { entries: Vec::new(), limit };
        assert(metrics@.tasks =~= Map::<Seq<char>, TaskMetricsView>::empty());
        metrics
    }

    /// How many names the registry can hold.
    pub fn limit(&self) -> (limit: usize)
        ensures
            limit == self@.limit,
    {
        self.limit
    }

    /// How many names are registered.
    pub fn len(&self) -> (n: usize)
        requires
            self.wf(),
        ensures
            n == self@.tasks.dom().len(),
    {
        proof {
            self.lemma_registered();
        }
        self.entries.len()
    }

    fn find(&self, name: &str) -> (found: Option<usize>)
        requires
            self.wf(),
        ensures
            match found {
                Some(i) => i < self.entries@.len() && self.entries@[i as int].name@ == name@
                    && self@.tracks(name@) && self@.tasks[name@] == self.entries@[i as int]@,
                None => !self@.tracks(name@),
            },
    {
        let wanted = name.to_owned();
        let mut i: usize = 0;
        while i < self.entries.len()
            invariant
                self.wf(),
                i <= self.entries@.len(),
                wanted@ == name@,
                forall|j: int| 0 <= j < i ==> self.names()[j] != name@,
            decreases self.entries.len() - i,
        {
            if self.entries[i].name == wanted {
                proof {
                    self.lemma_index(i as int);
                }
                return Some(i);
            }
            i += 1;
        }
        None
    }

    /// Whether the name is registered.
    pub fn tracks(&self, name: &str) -> (known: bool)
        requires
            self.wf(),
        ensures
            known == self@.tracks(name@),
    {
        self.find(name).is_some()
    }

    /// Asks for a handle for the name: registers the name if it is new and
    /// there is room. Returns whether the name is registered afterwards.
    pub fn track(&mut self, name: &str) -> (known: bool)
        requires
            old(self).wf(),
        ensures
            final(self).wf(),
            final(self)@ == old(self)@.track(name@),
            known == old(self)@.can_track(name@),
            known == final(self)@.tracks(name@),
    {
        proof {
            self.lemma_registered();
        }
        if self.find(name).is_some() {
            return true;
        }
        if self.entries.len() >= self.limit {
            return false;
        }
        let ghost before = *self;
        self.entries.push(
            TaskMetrics {
                name: name.to_owned(),
                async_tasks: 0,
                blocking_tasks: 0,
                blocking_durations: Histogram::new(),
            },
        );
        proof {
            let n = before.entries@.len() as int;
            assert(self.names() =~= before.names().push(name@));
            assert(self.names().no_duplicates());
            assert(self.wf());
            self.lemma_index(n);
            let expected = before@.tasks.insert(name@, TaskMetricsView::fresh());
            assert forall|k: Seq<char>| #[trigger]
                self.names().contains(k) <==> (before.names().contains(k) || k == name@) by {
                if self.names().contains(k) {
                    let j = self.names().index_of(k);
                    if j < n {
                        assert(before.names()[j] == k);
                    }
                }
                if before.names().contains(k) {
                    let j = before.names().index_of(k);
                    assert(self.names()[j] == k);
                }
                if k == name@ {
                    assert(self.names()[n] == k);
                }
            }
            assert forall|k: Seq<char>| self.names().contains(k) implies #[trigger] self@.tasks[k]
                == expected[k] by {
                if k != name@ {
                    let j = before.names().index_of(k);
                    assert(self.names()[j] == k);
                    before.lemma_index(j);
                    self.lemma_index(j);
                    assert(self.entries@[j] == before.entries@[j]);
                }
            }
            assert(self@.tasks =~= before@.tasks.insert(name@, TaskMetricsView::fresh()));
        }
        true
    }

    proof fn lemma_updated(&self, before: &Metrics, i: int, entry: TaskMetricsView)
        requires
            before.wf(),
            0 <= i < before.entries@.len(),
            self.limit == before.limit,
            self.entries@.len() == before.entries@.len(),
            forall|j: int|
                0 <= j < before.entries@.len() ==> (#[trigger] self.entries@[j]).name@
                    == before.entries@[j].name@,
            forall|j: int|
                0 <= j < before.entries@.len() && j != i ==> (#[trigger] self.entries@[j])
                    == before.entries@[j],
            self.entries@[i]@ == entry,
            self.entries@[i].blocking_durations.wf(),
        ensures
            self.wf(),
            self@ == (MetricsView {
                tasks: before@.tasks.insert(before.entries@[i].name@, entry),
                ..before@
            }),
    {
        assert(self.names() =~= before.names());
        before.lemma_index(i);
        assert forall|k: Seq<char>| before.names().contains(k) implies (#[trigger] self@.tasks[k])
            == before@.tasks.insert(before.entries@[i].name@, entry)[k] by {
            let j = before.names().index_of(k);
            before.lemma_index(j);
        }
        assert(self@.tasks =~= before@.tasks.insert(before.entries@[i].name@, entry));
    }

    /// Counts one more async unit of that name in flight. Nothing changes for
    /// a name that is not registered.
    pub fn inc_async(&mut self, name: &str)
        requires
            old(self).wf(),
        ensures
            final(self).wf(),
            final(self)@ == old(self)@.inc_async(name@),
    {
        if let Some(i) = self.find(name) {
            let ghost before = *self;
            let v = self.entries[i].async_tasks;
            self.entries[i].async_tasks = inc_gauge(v);
            proof {
                self.lemma_updated(&before, i as int, self.entries@[i as int]@);
            }
        }
    }

    /// Counts one async unit of that name out.
    pub fn dec_async(&mut self, name: &str)
        requires
            old(self).wf(),
        ensures
            final(self).wf(),
            final(self)@ == old(self)@.dec_async(name@),
    {
        if let Some(i) = self.find(name) {
            let ghost before = *self;
            let v = self.entries[i].async_tasks;
            self.entries[i].async_tasks = dec_gauge(v);
            proof {
                self.lemma_updated(&before, i as int, self.entries@[i as int]@);
            }
        }
    }

    /// Counts one more blocking unit of that name in flight.
    pub fn inc_blocking(&mut self, name: &str)
        requires
            old(self).wf(),
        ensures
            final(self).wf(),
            final(self)@ == old(self)@.inc_blocking(name@),
    {
        if let Some(i) = self.find(name) {
            let ghost before = *self;
            let v = self.entries[i].blocking_tasks;
            self.entries[i].blocking_tasks = inc_gauge(v);
            proof {
                self.lemma_updated(&before, i as int, self.entries@[i as int]@);
            }
        }
    }

    /// Counts one blocking unit of that name out.
    pub fn dec_blocking(&mut self, name: &str)
        requires
            old(self).wf(),
        ensures
            final(self).wf(),
            final(self)@ == old(self)@.dec_blocking(name@),
    {
        if let Some(i) = self.find(name) {
            let ghost before = *self;
            let v = self.entries[i].blocking_tasks;
            self.entries[i].blocking_tasks = dec_gauge(v);
            proof {
                self.lemma_updated(&before, i as int, self.entries@[i as int]@);
            }
        }
    }

    /// Records how long a blocking unit of that name took, in milliseconds.
    pub fn observe_blocking(&mut self, name: &str, duration: u64)
        requires
            old(self).wf(),
        ensures
            final(self).wf(),
            final(self)@ == old(self)@.observe_blocking(name@, duration),
    {
        if let Some(i) = self.find(name) {
            let ghost before = *self;
            self.entries[i].blocking_durations.observe(duration);
            proof {
                self.lemma_updated(&before, i as int, self.entries@[i as int]@);
            }
        }
    }

    /// Async units of that name in flight.
    pub fn async_tasks(&self, name: &str) -> (n: i64)
        requires
            self.wf(),
        ensures
            n == self@.async_tasks(name@),
    {
        match self.find(name) {
            Some(i) => self.entries[i].async_tasks,
            None => 0,
        }
    }

    /// Blocking units of that name in flight.
    pub fn blocking_tasks(&self, name: &str) -> (n: i64)
        requires
            self.wf(),
        ensures
            n == self@.blocking_tasks(name@),
    {
        match self.find(name) {
            Some(i) => self.entries[i].blocking_tasks,
            None => 0,
        }
    }

    /// The durations observed for that name, if it is registered.
    pub fn blocking_durations(&self, name: &str) -> (histogram: Option<&Histogram>)
        requires
            self.wf(),
        ensures
            match histogram {
                Some(h) => self@.tracks(name@) && h@ == self@.tasks[name@].blocking_durations
                    && h.wf(),
                None => !self@.tracks(name@),
            },
    {
        match self.find(name) {
            Some(i) => Some(&self.entries[i].blocking_durations),
            None => None,
        }
    }
}

} // verus!

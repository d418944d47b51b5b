//! The relay's counters, gauges and latency histogram.
//!
//! The values are kept as plain integers. Durations are whole nanoseconds. A
//! count that has reached `u64::MAX` stays there. Rendering the series as text
//! is left to the caller, who reads the values through the getters and names
//! the series by the constants of this module.

use vstd::prelude::*;

verus! {

/// Name of the counter of deliveries whose handling began.
pub const MESSAGES_RECEIVED: &'static str = "rabbitmq_messages_received_total";

/// Help text of the counter of deliveries whose handling began.
pub const MESSAGES_RECEIVED_HELP: &'static str = "Total number of messages received from RabbitMQ";

/// Name of the counter of deliveries handled with success.
pub const MESSAGES_PROCESSED: &'static str = "rabbitmq_messages_processed_total";

/// Help text of the counter of deliveries handled with success.
pub const MESSAGES_PROCESSED_HELP: &'static str = "Total number of messages successfully processed";

/// Name of the counter of deliveries whose handling failed.
pub const MESSAGES_FAILED: &'static str = "rabbitmq_messages_failed_total";

/// Help text of the counter of deliveries whose handling failed.
pub const MESSAGES_FAILED_HELP: &'static str = "Total number of messages that failed processing";

/// Name of the histogram of handling times, in seconds.
pub const PROCESSING_DURATION: &'static str = "rabbitmq_message_processing_seconds";

/// Help text of the histogram of handling times.
pub const PROCESSING_DURATION_HELP: &'static str = "Time taken to process a message";

/// Name of the gauge of queue depths, one value per queue.
pub const QUEUE_DEPTH: &'static str = "rabbitmq_queue_depth";

/// Help text of the gauge of queue depths.
pub const QUEUE_DEPTH_HELP: &'static str = "Number of messages in queue";

/// Label that carries the queue's name on the queue depth gauge.
pub const QUEUE_DEPTH_LABEL: &'static str = "queue_name";

/// Name of the gauge of consumer workers.
pub const ACTIVE_CONSUMERS: &'static str = "rabbitmq_active_consumers";

/// Help text of the gauge of consumer workers.
pub const ACTIVE_CONSUMERS_HELP: &'static str = "Number of active consumer workers";

/// Name of the gauge of the process's CPU usage, in percent.
pub const CPU_USAGE: &'static str = "process_cpu_usage_percent";

/// Help text of the gauge of the process's CPU usage.
pub const CPU_USAGE_HELP: &'static str = "CPU usage percentage";

/// Name of the gauge of the process's memory, in megabytes.
pub const MEMORY_USAGE: &'static str = "process_memory_usage_mb";

/// Help text of the gauge of the process's memory.
pub const MEMORY_USAGE_HELP: &'static str = "Memory usage in MB";

/// Name of the gauge of open broker connections.
pub const AMQP_CONNECTIONS: &'static str = "amqp_connections_active";

/// Help text of the gauge of open broker connections.
pub const AMQP_CONNECTIONS_HELP: &'static str = "Number of active AMQP connections";

/// Name of the counter of reconnections to the broker.
pub const AMQP_RECONNECTIONS: &'static str = "amqp_reconnections_total";

/// Help text of the counter of reconnections to the broker.
pub const AMQP_RECONNECTIONS_HELP: &'static str = "Total number of AMQP reconnections";

/// The next value of a counter: one more, unless it is already `u64::MAX`.
pub open spec fn bump(n: u64) -> u64 {
    if n < u64::MAX {
        (n + 1) as u64
    } else {
        n
    }
}

/// The sum of a total and one more duration, held at `u128::MAX`.
pub open spec fn add_duration(total: u128, nanos: u64) -> u128 {
    if total + nanos <= u128::MAX {
        (total + nanos) as u128
    } else {
        u128::MAX
    }
}

/// The upper bounds of the latency buckets, in nanoseconds: 1 ms to 2.5 s.
pub open spec fn latency_bounds() -> Seq<u64> {
    seq![
        1_000_000u64,
        2_000_000u64,
        5_000_000u64,
        10_000_000u64,
        25_000_000u64,
        50_000_000u64,
        100_000_000u64,
        250_000_000u64,
        500_000_000u64,
        1_000_000_000u64,
        2_500_000_000u64,
    ]
}

/// A histogram as a mathematical value.
pub struct Distribution {
    /// Upper bound of each bucket, in nanoseconds.
    pub bounds: Seq<u64>,
    /// For each bucket, how many observations were at most its bound.
    pub buckets: Seq<u64>,
    /// How many observations were made.
    pub count: u64,
    /// The sum of the observations, in nanoseconds.
    pub sum: u128,
}

impl Distribution {
    /// The histogram over `bounds` with nothing observed.
    pub open spec fn empty(bounds: Seq<u64>) -> Distribution {
        Distribution {
            bounds,
            buckets: Seq::new(bounds.len(), |i: int| 0u64),
            count: 0,
            sum: 0,
        }
    }

    /// The bounds rise strictly, each bucket has a count, the counts do not
    /// fall from one bucket to the next, and none exceeds the total.
    pub open spec fn valid(self) -> bool {
        &&& self.buckets.len() == self.bounds.len()
        &&& forall|i: int, j: int|
            0 <= i < j < self.bounds.len() ==> self.bounds[i] < self.bounds[j]
        &&& forall|i: int, j: int|
            0 <= i <= j < self.buckets.len() ==> self.buckets[i] <= self.buckets[j]
        &&& forall|i: int| 0 <= i < self.buckets.len() ==> self.buckets[i] <= self.count
    }

    /// The histogram after one more observation of `nanos`: every bucket
    /// whose bound is at least `nanos` counts it, and so does the total.
    pub open spec fn observe(self, nanos: u64) -> Distribution {
        Distribution {
            bounds: self.bounds,
            buckets: Seq::new(
                self.buckets.len(),
                |i: int|
                    if nanos <= self.bounds[i] {
                        bump(self.buckets[i])
                    } else {
                        self.buckets[i]
                    },
            ),
            count: bump(self.count),
            sum: add_duration(self.sum, nanos),
        }
    }
}

/// An observation keeps a histogram valid.
pub proof fn lemma_observe_valid(d: Distribution, nanos: u64)
    requires
        d.valid(),
    ensures
        d.observe(nanos).valid(),
{
    let e = d.observe(nanos);
    assert forall|i: int, j: int| 0 <= i <= j < e.buckets.len() implies e.buckets[i]
        <= e.buckets[j] by {
        assert(d.buckets[i] <= d.buckets[j]);
        if i < j {
            assert(d.bounds[i] < d.bounds[j]);
        }
    }
    assert forall|i: int| 0 <= i < e.buckets.len() implies e.buckets[i] <= e.count by {
        assert(d.buckets[i] <= d.count);
    }
}

/// A histogram of durations with fixed buckets.
#[derive(Debug)]
pub struct Histogram {
    bounds: Vec<u64>,
    buckets: Vec<u64>,
    count: u64,
    sum: u128,
}

impl View for Histogram {
    type V = Distribution;

    closed spec fn view(&self) -> Distribution {
        Distribution {
            bounds: self.bounds@,
            buckets: self.buckets@,
            count: self.count,
            sum: self.sum,
        }
    }
}

impl Clone for Histogram {
    fn clone(&self) -> (copy: Self)
        ensures
            copy@ == self@,
    {
        proof {
            use_type_invariant(self);
        }
        Histogram {
            bounds: self.bounds.clone(),
            buckets: self.buckets.clone(),
            count: self.count,
            sum: self.sum,
        }
    }
}

impl Histogram {
    #[verifier::type_invariant]
    spec fn inv(self) -> bool {
        self@.valid()
    }

    /// The latency histogram with nothing observed.
    pub fn latency() -> (h: Histogram)
        ensures
            h@ == Distribution::empty(latency_bounds()),
            h@.valid(),
    {
        let bounds: Vec<u64> = vec![
            1_000_000u64,
            2_000_000u64,
            5_000_000u64,
            10_000_000u64,
            25_000_000u64,
            50_000_000u64,
            100_000_000u64,
            250_000_000u64,
            500_000_000u64,
            1_000_000_000u64,
            2_500_000_000u64,
        ];
        let buckets: Vec<u64> = vec![0u64, 0u64, 0u64, 0u64, 0u64, 0u64, 0u64, 0u64, 0u64, 0u64, 0u64];
        assert(bounds@ =~= latency_bounds());
        assert(buckets@ =~= Seq::new(bounds@.len(), |i: int| 0u64));
        Histogram { bounds, buckets, count: 0, sum: 0 }
    }

    /// Records one duration.
    pub fn observe(&mut self, nanos: u64)
        ensures
            final(self)@ == old(self)@.observe(nanos),
            final(self)@.valid(),
    {
        proof {
            use_type_invariant(&*self);
            lemma_observe_valid(self@, nanos);
        }
        let count: u64 = if self.count < u64::MAX {
            self.count + 1
        } else {
            self.count
        };
        let sum: u128 = if self.sum <= u128::MAX - (nanos as u128) {
            self.sum + (nanos as u128)
        } else {
            u128::MAX
        };
        let mut buckets: Vec<u64> = Vec::new();
        let mut i: usize = 0;
        while i < self.buckets.len()
            invariant
                i <= self.buckets@.len(),
                self.buckets@.len() == self.bounds@.len(),
                self == old(self),
                buckets@.len() == i,
                forall|k: int|
                    0 <= k < i ==> buckets@[k] == (if nanos <= self.bounds@[k] {
                        bump(self.buckets@[k])
                    } else {
                        self.buckets@[k]
                    }),
            decreases self.buckets@.len() - i,
        {
            let seen: u64 = self.buckets[i];
            if nanos <= self.bounds[i] && seen < u64::MAX {
                buckets.push(seen + 1);
            } else {
                buckets.push(seen);
            }
            i = i + 1;
        }
        assert(buckets@ =~= old(self)@.observe(nanos).buckets);
        self.count = count;
        self.sum = sum;
        self.buckets = buckets;
    }

    /// How many durations were recorded.
    pub fn count(&self) -> (n: u64)
        ensures
            n == self@.count,
    {
        self.count
    }

    /// The sum of the recorded durations, in nanoseconds.
    pub fn sum(&self) -> (total: u128)
        ensures
            total == self@.sum,
    {
        self.sum
    }

    /// The number of buckets.
    pub fn buckets(&self) -> (n: usize)
        ensures
            n == self@.bounds.len(),
            n == self@.buckets.len(),
    {
        proof {
            use_type_invariant(self);
        }
        self.bounds.len()
    }

    /// The upper bound of bucket `i`, in nanoseconds; `None` if there is no such bucket.
    pub fn upper_bound(&self, i: usize) -> (bound: Option<u64>)
        ensures
            bound == (if i < self@.bounds.len() {
                Some(self@.bounds[i as int])
            } else {
                None
            }),
    {
        if i < self.bounds.len() {
            Some(self.bounds[i])
        } else {
            None
        }
    }

    /// How many recorded durations were at most the bound of bucket `i`;
    /// `None` if there is no such bucket.
    pub fn cumulative_count(&self, i: usize) -> (seen: Option<u64>)
        ensures
            seen == (if i < self@.buckets.len() {
                Some(self@.buckets[i as int])
            } else {
                None
            }),
            seen matches Some(n) ==> n <= self@.count,
    {
        proof {
            use_type_invariant(self);
        }
        if i < self.buckets.len() {
            Some(self.buckets[i])
        } else {
            None
        }
    }
}

/// One value of a labelled gauge, as a mathematical value.
pub struct Level {
    /// The label's value: here a queue's name.
    pub label: Seq<char>,
    /// The gauge's value under that label.
    pub value: u64,
}

/// No two values of the gauge carry the same label.
pub open spec fn distinct_labels(levels: Seq<Level>) -> bool {
    forall|i: int, j: int| 0 <= i < j < levels.len() ==> levels[i].label != levels[j].label
}

/// Whether the gauge has a value under `label`.
pub open spec fn has_label(levels: Seq<Level>, label: Seq<char>) -> bool {
    exists|i: int| 0 <= i < levels.len() && #[trigger] levels[i].label == label
}

/// The place of `label` among the gauge's values, where it has one.
pub open spec fn position(levels: Seq<Level>, label: Seq<char>) -> int {
    choose|i: int| 0 <= i < levels.len() && #[trigger] levels[i].label == label
}

/// The gauge's value under `label`, if it has one.
pub open spec fn level_of(levels: Seq<Level>, label: Seq<char>) -> Option<u64> {
    if has_label(levels, label) {
        Some(levels[position(levels, label)].value)
    } else {
        None
    }
}

/// The gauge after `label` was set to `value`: a label that it has keeps its
/// place, a new one comes last.
pub open spec fn set_level(levels: Seq<Level>, label: Seq<char>, value: u64) -> Seq<Level> {
    if has_label(levels, label) {
        levels.update(position(levels, label), Level { label, value })
    } else {
        levels.push(Level { label, value })
    }
}

/// A label has one place: where the gauge carries `label` at `i`, that is
/// the label's place, and its value there is the gauge's value under it.
pub proof fn lemma_place_is_unique(levels: Seq<Level>, label: Seq<char>, i: int)
    requires
        distinct_labels(levels),
        0 <= i < levels.len(),
        levels[i].label == label,
    ensures
        has_label(levels, label),
        position(levels, label) == i,
        level_of(levels, label) == Some(levels[i].value),
{
    let p = position(levels, label);
    if p < i {
        assert(levels[p].label != levels[i].label);
    } else if i < p {
        assert(levels[i].label != levels[p].label);
    }
}

/// A label that the gauge carries at no place has no value.
pub proof fn lemma_absent_label(levels: Seq<Level>, label: Seq<char>)
    requires
        forall|k: int| 0 <= k < levels.len() ==> levels[k].label != label,
    ensures
        !has_label(levels, label),
        level_of(levels, label) is None,
{
    if has_label(levels, label) {
        let p = position(levels, label);
        assert(levels[p].label == label);
    }
}

/// Where two gauges agree at every place that does not carry `label`, and
/// the second carries `label` wherever they differ or it is longer, every
/// other label has the same value in both.
proof fn lemma_other_label_kept(
    levels: Seq<Level>,
    after: Seq<Level>,
    label: Seq<char>,
    other: Seq<char>,
)
    requires
        distinct_labels(levels),
        other != label,
        levels.len() <= after.len(),
        forall|k: int|
            0 <= k < after.len() ==> #[trigger] after[k].label == label || (k < levels.len()
                && after[k] == levels[k]),
        forall|k: int|
            0 <= k < levels.len() ==> #[trigger] levels[k].label == label || after[k]
                == levels[k],
    ensures
        level_of(after, other) == level_of(levels, other),
{
    if has_label(after, other) {
        let b = position(after, other);
        assert(after[b].label == other);
        assert(levels[b].label == other);
        lemma_place_is_unique(levels, other, b);
    } else if has_label(levels, other) {
        let a = position(levels, other);
        assert(levels[a].label == other);
        assert(after[a].label == other);
    }
}

/// Setting a label keeps the labels distinct, makes its value the one that
/// was set, and leaves every other label's value as it was.
pub proof fn lemma_set_level(levels: Seq<Level>, label: Seq<char>, value: u64)
    requires
        distinct_labels(levels),
    ensures
        distinct_labels(set_level(levels, label, value)),
        level_of(set_level(levels, label, value), label) == Some(value),
        forall|other: Seq<char>|
            other != label ==> level_of(set_level(levels, label, value), other) == level_of(
                levels,
                other,
            ),
{
    let after = set_level(levels, label, value);
    let place = if has_label(levels, label) {
        position(levels, label)
    } else {
        levels.len() as int
    };
    if !has_label(levels, label) {
        assert forall|k: int| 0 <= k < levels.len() implies levels[k].label != label by {
            if levels[k].label == label {
                assert(has_label(levels, label));
            }
        }
    }
    assert(after[place].label == label);
    assert forall|i: int, j: int| 0 <= i < j < after.len() implies after[i].label
        != after[j].label by {
        if i < levels.len() && j < levels.len() {
            assert(levels[i].label != levels[j].label);
        }
    }
    lemma_place_is_unique(after, label, place);
    assert forall|other: Seq<char>| other != label implies level_of(after, other) == level_of(
        levels,
        other,
    ) by {
        lemma_other_label_kept(levels, after, label, other);
    }
}

/// One value of a labelled gauge.
#[derive(Clone, Debug)]
pub struct GaugeEntry {
    /// The label's value.
    pub label: String,
    /// The gauge's value under that label.
    pub value: u64,
}

impl View for GaugeEntry {
    type V = Level;

    open spec fn view(&self) -> Level {
        Level { label: self.label@, value: self.value }
    }
}

/// A gauge with one value per label.
#[derive(Debug)]
pub struct GaugeVec {
    entries: Vec<GaugeEntry>,
}

impl View for GaugeVec {
    type V = Seq<Level>;

    closed spec fn view(&self) -> Seq<Level> {
        self.entries@.map_values(|e: GaugeEntry| e@)
    }
}

impl Clone for GaugeVec {
    fn clone(&self) -> (copy: Self)
        ensures
            copy@ == self@,
    {
        proof {
            use_type_invariant(self);
        }
        let mut entries: Vec<GaugeEntry> = Vec::new();
        let mut i: usize = 0;
        while i < self.entries.len()
            invariant
                i <= self.entries@.len(),
                entries@.len() == i,
                forall|k: int| 0 <= k < i ==> entries@[k]@ == self.entries@[k]@,
            decreases self.entries@.len() - i,
        {
            let label: String = self.entries[i].label.clone();
            entries.push(GaugeEntry { label, value: self.entries[i].value });
            i = i + 1;
        }
        assert(entries@.map_values(|e: GaugeEntry| e@) =~= self@);
        GaugeVec { entries }
    }
}

impl GaugeVec {
    #[verifier::type_invariant]
    spec fn inv(self) -> bool {
        distinct_labels(self@)
    }

    /// A gauge without values.
    pub fn new() -> (gauge: GaugeVec)
        ensures
            gauge@ == Seq::<Level>::empty(),
    {
        let gauge = GaugeVec { entries: Vec::new() };
        assert(gauge@ =~= Seq::<Level>::empty());
        gauge
    }

    /// Sets the value under `label`.
    pub fn set(&mut self, label: &str, value: u64)
        ensures
            final(self)@ == set_level(old(self)@, label@, value),
            distinct_labels(final(self)@),
            level_of(final(self)@, label@) == Some(value),
    {
        proof {
            use_type_invariant(&*self);
            lemma_set_level(self@, label@, value);
        }
        let ghost before = self@;
        let wanted: String = label.to_owned();
        let mut entries: Vec<GaugeEntry> = Vec::new();
        std::mem::swap(&mut entries, &mut self.entries);
        assert(entries@.map_values(|e: GaugeEntry| e@) == before);
        let mut found: bool = false;
        let mut i: usize = 0;
        while i < entries.len() && !found
            invariant
                i <= entries@.len(),
                wanted@ == label@,
                entries@.len() == before.len(),
                distinct_labels(before),
                !found ==> entries@.map_values(|e: GaugeEntry| e@) == before,
                !found ==> forall|k: int| 0 <= k < i ==> before[k].label != label@,
                found ==> entries@.map_values(|e: GaugeEntry| e@) == set_level(
                    before,
                    label@,
                    value,
                ),
            decreases entries@.len() - i + (if found { 0int } else { 1int }),
        {
            assert(entries@.map_values(|e: GaugeEntry| e@)[i as int] == entries@[i as int]@);
            if entries[i].label == wanted {
                proof {
                    lemma_place_is_unique(before, label@, i as int);
                }
                let label_copy: String = label.to_owned();
                entries.set(i, GaugeEntry { label: label_copy, value });
                assert(entries@.map_values(|e: GaugeEntry| e@) =~= set_level(
                    before,
                    label@,
                    value,
                ));
                found = true;
            } else {
                i = i + 1;
            }
        }
        if !found {
            proof {
                lemma_absent_label(before, label@);
            }
            entries.push(GaugeEntry { label: wanted, value });
            assert(entries@.map_values(|e: GaugeEntry| e@) =~= set_level(before, label@, value));
        }
        std::mem::swap(&mut entries, &mut self.entries);
    }

    /// The number of labels that have a value.
    pub fn len(&self) -> (n: usize)
        ensures
            n == self@.len(),
    {
        self.entries.len()
    }

    /// The `i`-th label and its value, in the order in which the labels were
    /// first set; `None` if there are not that many.
    pub fn entry(&self, i: usize) -> (entry: Option<GaugeEntry>)
        ensures
            i < self@.len() ==> (entry matches Some(e) && e@ == self@[i as int]),
            i >= self@.len() ==> entry is None,
    {
        if i < self.entries.len() {
            let label: String = self.entries[i].label.clone();
            Some(GaugeEntry { label, value: self.entries[i].value })
        } else {
            None
        }
    }

    /// The value under `label`, if it has one.
    pub fn get(&self, label: &str) -> (value: Option<u64>)
        ensures
            value == level_of(self@, label@),
    {
        proof {
            use_type_invariant(self);
        }
        let wanted: String = label.to_owned();
        let mut i: usize = 0;
        while i < self.entries.len()
            invariant
                i <= self.entries@.len(),
                wanted@ == label@,
                distinct_labels(self@),
                forall|k: int| 0 <= k < i ==> self@[k].label != label@,
            decreases self.entries@.len() - i,
        {
            assert(self@[i as int] == self.entries@[i as int]@);
            if self.entries[i].label == wanted {
                proof {
                    lemma_place_is_unique(self@, label@, i as int);
                }
                return Some(self.entries[i].value);
            }
            i = i + 1;
        }
        proof {
            lemma_absent_label(self@, label@);
        }
        None
    }
}

/// What the operating system reports of the running process.
#[derive(Clone, Copy, Debug, PartialEq, Eq, Structural)]
pub struct ProcessUsage {
    /// CPU usage in percent, as the bit pattern of a 32-bit IEEE 754 number.
    pub cpu_usage_bits: u32,
    /// Resident memory in bytes.
    pub memory_bytes: u64,
}

/// All series of the relay as a mathematical value.
pub struct Readings {
    /// Deliveries whose handling began.
    pub messages_received: u64,
    /// Deliveries handled with success.
    pub messages_processed: u64,
    /// Deliveries whose handling failed.
    pub messages_failed: u64,
    /// Handling times.
    pub processing_duration: Distribution,
    /// Depth of each queue that was reported.
    pub queue_depth: Seq<Level>,
    /// Consumer workers.
    pub active_consumers: u64,
    /// The last reading of the process's CPU and memory.
    pub process: ProcessUsage,
    /// Open broker connections.
    pub amqp_connections: u64,
    /// Reconnections to the broker.
    pub amqp_reconnections: u64,
}

impl Readings {
    /// The series of a process that has just started: every counter and gauge
    /// at zero, no queue reported, nothing observed.
    pub open spec fn fresh() -> Readings {
        Readings {
            messages_received: 0,
            messages_processed: 0,
            messages_failed: 0,
            processing_duration: Distribution::empty(latency_bounds()),
            queue_depth: Seq::empty(),
            active_consumers: 0,
            process: ProcessUsage { cpu_usage_bits: 0, memory_bytes: 0 },
            amqp_connections: 0,
            amqp_reconnections: 0,
        }
    }

    /// The histogram is valid and no queue is reported twice.
    pub open spec fn valid(self) -> bool {
        &&& self.processing_duration.valid()
        &&& distinct_labels(self.queue_depth)
    }

    /// One more delivery whose handling began.
    pub open spec fn received(self) -> Readings {
        Readings { messages_received: bump(self.messages_received), ..self }
    }

    /// One more delivery handled with success.
    pub open spec fn processed(self) -> Readings {
        Readings { messages_processed: bump(self.messages_processed), ..self }
    }

    /// One more delivery whose handling failed.
    pub open spec fn failed(self) -> Readings {
        Readings { messages_failed: bump(self.messages_failed), ..self }
    }

    /// One more handling time.
    pub open spec fn observed(self, nanos: u64) -> Readings {
        Readings { processing_duration: self.processing_duration.observe(nanos), ..self }
    }

    /// No counter is lower in `later` than in `self`.
    pub open spec fn counters_not_above(self, later: Readings) -> bool {
        &&& self.messages_received <= later.messages_received
        &&& self.messages_processed <= later.messages_processed
        &&& self.messages_failed <= later.messages_failed
        &&& self.amqp_reconnections <= later.amqp_reconnections
        &&& self.processing_duration.count <= later.processing_duration.count
    }
}

/// The series of a process that has just started are valid.
pub proof fn lemma_fresh_valid()
    ensures
        Readings::fresh().valid(),
{
    let bounds = latency_bounds();
    assert(bounds.len() == 11);
    assert forall|i: int, j: int| 0 <= i < j < bounds.len() implies bounds[i] < bounds[j] by {
        assert(bounds[0] == 1_000_000);
        assert(bounds[1] == 2_000_000);
        assert(bounds[2] == 5_000_000);
        assert(bounds[3] == 10_000_000);
        assert(bounds[4] == 25_000_000);
        assert(bounds[5] == 50_000_000);
        assert(bounds[6] == 100_000_000);
        assert(bounds[7] == 250_000_000);
        assert(bounds[8] == 500_000_000);
        assert(bounds[9] == 1_000_000_000);
        assert(bounds[10] == 2_500_000_000);
    }
}

/// The relay's series: counters, gauges and the latency histogram.
#[derive(Debug)]
pub struct Metrics {
    messages_received: u64,
    messages_processed: u64,
    messages_failed: u64,
    processing_duration: Histogram,
    queue_depth: GaugeVec,
    active_consumers: u64,
    process: ProcessUsage,
    amqp_connections: u64,
    amqp_reconnections: u64,
}

impl View for Metrics {
    type V = Readings;

    closed spec fn view(&self) -> Readings {
        Readings {
            messages_received: self.messages_received,
            messages_processed: self.messages_processed,
            messages_failed: self.messages_failed,
            processing_duration: self.processing_duration@,
            queue_depth: self.queue_depth@,
            active_consumers: self.active_consumers,
            process: self.process,
            amqp_connections: self.amqp_connections,
            amqp_reconnections: self.amqp_reconnections,
        }
    }
}

impl Clone for Metrics {
    fn clone(&self) -> (copy: Self)
        ensures
            copy@ == self@,
    {
        Metrics {
            messages_received: self.messages_received,
            messages_processed: self.messages_processed,
            messages_failed: self.messages_failed,
            processing_duration: self.processing_duration.clone(),
            queue_depth: self.queue_depth.clone(),
            active_consumers: self.active_consumers,
            process: self.process,
            amqp_connections: self.amqp_connections,
            amqp_reconnections: self.amqp_reconnections,
        }
    }
}

/// One more on a counter that stays at `u64::MAX` once it is there.
fn bumped(n: u64) -> (next: u64)
    ensures
        next == bump(n),
{
    if n < u64::MAX {
        n + 1
    } else {
        n
    }
}

impl Metrics {
    /// The series of a process that has just started.
    pub fn new() -> (metrics: Metrics)
        ensures
            metrics@ == Readings::fresh(),
    {
        Metrics {
            messages_received: 0,
            messages_processed: 0,
            messages_failed: 0,
            processing_duration: Histogram::latency(),
            queue_depth: GaugeVec::new(),
            active_consumers: 0,
            process: ProcessUsage { cpu_usage_bits: 0, memory_bytes: 0 },
            amqp_connections: 0,
            amqp_reconnections: 0,
        }
    }

    /// Takes over a reading of the process's CPU and memory. Without a
    /// reading, because the process was not found, the last one stays.
    pub fn update_system_metrics(&mut self, reading: Option<ProcessUsage>)
        ensures
            final(self)@ == (Readings {
                process: match reading {
                    Some(usage) => usage,
                    None => old(self)@.process,
                },
                ..old(self)@
            }),
    {
        if let Some(usage) = reading {
            self.process = usage;
        }
    }

    /// Counts a delivery whose handling began.
    pub fn inc_messages_received(&mut self)
        ensures
            final(self)@ == old(self)@.received(),
    {
        self.messages_received = bumped(self.messages_received);
    }

    /// Counts a delivery handled with success.
    pub fn inc_messages_processed(&mut self)
        ensures
            final(self)@ == old(self)@.processed(),
    {
        self.messages_processed = bumped(self.messages_processed);
    }

    /// Counts a delivery whose handling failed.
    pub fn inc_messages_failed(&mut self)
        ensures
            final(self)@ == old(self)@.failed(),
    {
        self.messages_failed = bumped(self.messages_failed);
    }

    /// Records how long one delivery's handling took, in nanoseconds.
    pub fn observe_processing_duration(&mut self, nanos: u64)
        ensures
            final(self)@ == old(self)@.observed(nanos),
    {
        self.processing_duration.observe(nanos);
    }

    /// Sets the depth of the queue `queue_name`.
    pub fn set_queue_depth(&mut self, queue_name: &str, depth: u64)
        ensures
            final(self)@ == (Readings {
                queue_depth: set_level(old(self)@.queue_depth, queue_name@, depth),
                ..old(self)@
            }),
            level_of(final(self)@.queue_depth, queue_name@) == Some(depth),
    {
        self.queue_depth.set(queue_name, depth);
    }

    /// Sets the number of consumer workers.
    pub fn set_active_consumers(&mut self, count: u64)
        ensures
            final(self)@ == (Readings { active_consumers: count, ..old(self)@ }),
    {
        self.active_consumers = count;
    }

    /// Sets the number of open broker connections.
    pub fn set_amqp_connections(&mut self, count: u64)
        ensures
            final(self)@ == (Readings { amqp_connections: count, ..old(self)@ }),
    {
        self.amqp_connections = count;
    }

    /// Counts a reconnection to the broker.
    pub fn inc_amqp_reconnections(&mut self)
        ensures
            final(self)@ == (Readings {
                amqp_reconnections: bump(old(self)@.amqp_reconnections),
                ..old(self)@
            }),
    {
        self.amqp_reconnections = bumped(self.amqp_reconnections);
    }

    /// Deliveries whose handling began.
    pub fn messages_received(&self) -> (n: u64)
        ensures
            n == self@.messages_received,
    {
        self.messages_received
    }

    /// Deliveries handled with success.
    pub fn messages_processed(&self) -> (n: u64)
        ensures
            n == self@.messages_processed,
    {
        self.messages_processed
    }

    /// Deliveries whose handling failed.
    pub fn messages_failed(&self) -> (n: u64)
        ensures
            n == self@.messages_failed,
    {
        self.messages_failed
    }

    /// The histogram of handling times.
    pub fn processing_duration(&self) -> (histogram: &Histogram)
        ensures
            histogram@ == self@.processing_duration,
    {
        &self.processing_duration
    }

    /// The depth of each queue that was reported.
    pub fn queue_depth(&self) -> (gauge: &GaugeVec)
        ensures
            gauge@ == self@.queue_depth,
    {
        &self.queue_depth
    }

    /// The number of consumer workers.
    pub fn active_consumers(&self) -> (n: u64)
        ensures
            n == self@.active_consumers,
    {
        self.active_consumers
    }

    /// The last reading of the process's CPU and memory.
    pub fn process(&self) -> (usage: ProcessUsage)
        ensures
            usage == self@.process,
    {
        self.process
    }

    /// The number of open broker connections.
    pub fn amqp_connections(&self) -> (n: u64)
        ensures
            n == self@.amqp_connections,
    {
        self.amqp_connections
    }

    /// Reconnections to the broker.
    pub fn amqp_reconnections(&self) -> (n: u64)
        ensures
            n == self@.amqp_reconnections,
    {
        self.amqp_reconnections
    }
}

} // verus!

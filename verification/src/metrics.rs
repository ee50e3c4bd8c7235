//! The failure counters of the metrics sink: one counter for each pair of
//! target and probe type, kept in a labelled counter vector.

use vstd::arithmetic::div_mod::{lemma_add_mod_noop, lemma_small_mod};
use vstd::prelude::*;

verus! {

/// The name under which the failure counters are exported.
pub open spec fn counter_name() -> Seq<char> {
    "probe_timeout_total"@
}

/// The help text of the failure counters.
pub open spec fn counter_help() -> Seq<char> {
    "Total number of probe timeouts"@
}

/// The name of the label that holds the target.
pub open spec fn target_label() -> Seq<char> {
    "target"@
}

/// The name of the label that holds the probe type.
pub open spec fn probe_type_label() -> Seq<char> {
    "probe_type"@
}

/// `prometheus::Error`, carried through as it comes.
#[verifier::external_type_specification]
#[verifier::external_body]
pub struct ExMetricsFault(prometheus::Error);

/// `prometheus::Registry`, carried through as it comes.
#[verifier::external_type_specification]
#[verifier::external_body]
pub struct ExRegistry(prometheus::Registry);

/// The failure counters: a `prometheus::IntCounterVec` with the two labels
/// target and probe type. The vector is reached through this struct alone, and
/// changed through a `&mut` to it alone.
#[verifier::external_body]
pub struct FailureCounters {
    vec: prometheus::IntCounterVec,
}

/// What the counters hold: for each key of a series, its count. A series that
/// was never counted holds 0.
pub uninterp spec fn counter_cells(counters: FailureCounters) -> Map<u64, u64>;

/// The key under which the counter vector files a series: the hash that it
/// takes of the series' label values, written one after the other.
pub uninterp spec fn label_key(joined_values: Seq<char>) -> u64;

/// The id of the descriptor of a counter vector. The vector takes it from its
/// name when it is made and keeps it for good; a registry knows a collector
/// by it.
pub uninterp spec fn counter_id(counters: FailureCounters) -> u64;

/// The ids of the descriptors that a registry holds: those of the collectors
/// registered with it. The registry is reached through a `&mut` to it where
/// a registration is made, so that what it held before and what it holds
/// after can be told apart.
pub uninterp spec fn registered_ids(registry: prometheus::Registry) -> Set<u64>;

/// A character that may start a name: an ASCII letter or `_`, and in a metric
/// name also `:`.
pub open spec fn starts_name(c: char, metric: bool) -> bool {
    ('a' <= c && c <= 'z') || ('A' <= c && c <= 'Z') || c == '_' || (metric && c == ':')
}

/// A name that the counter vector accepts: not empty, started by a character
/// that may start a name, and continued by such characters and ASCII digits.
pub open spec fn is_name(s: Seq<char>, metric: bool) -> bool {
    &&& s.len() > 0
    &&& starts_name(s[0], metric)
    &&& forall|i: int|
        0 < i < s.len() ==> starts_name(#[trigger] s[i], metric) || ('0' <= s[i] && s[i] <= '9')
}

/// Whether the counter vector accepts a metric name, a help text and two label
/// names: the help text is not empty, the three names are names, and the two
/// labels differ.
pub open spec fn opts_accepted(
    name: Seq<char>,
    help: Seq<char>,
    first_label: Seq<char>,
    second_label: Seq<char>,
) -> bool {
    &&& help.len() > 0
    &&& is_name(name, true)
    &&& is_name(first_label, false)
    &&& is_name(second_label, false)
    &&& first_label != second_label
}

/// The key of the series of a target and a probe type.
pub open spec fn series_key(target: Seq<char>, probe_type: Seq<char>) -> u64 {
    label_key(target + probe_type)
}

/// Counters that all hold 0.
pub open spec fn zero_cells() -> Map<u64, u64> {
    Map::total(|key: u64| 0u64)
}

/// A count raised by one; the count after the largest is 0.
pub open spec fn raised(count: u64) -> u64 {
    if count == u64::MAX {
        0
    } else {
        (count + 1) as u64
    }
}

/// The counters after one more failure of the series `key`.
pub open spec fn bump(cells: Map<u64, u64>, key: u64) -> Map<u64, u64> {
    cells.insert(key, raised(cells[key]))
}

/// `IntCounterVec::new` on `Opts::new(name, help)` and the two label names.
/// Claims that the vector is made exactly when the descriptor's checks pass
/// (a help text that is not empty, a valid metric name, two valid label names
/// that differ), and that in a vector just made no series has been counted.
#[verifier::external_body]
fn counter_vec_new(name: &str, help: &str, first_label: &str, second_label: &str) -> (r: Result<
    FailureCounters,
    prometheus::Error,
>)
    ensures
        r is Ok <==> opts_accepted(name@, help@, first_label@, second_label@),
        r matches Ok(counters) ==> counter_cells(counters) == zero_cells(),
{
    let opts = prometheus::Opts::new(name, help);
    match prometheus::IntCounterVec::new(opts, &[first_label, second_label]) {
        Ok(vec) => Ok(FailureCounters { vec }),
        Err(fault) => Err(fault),
    }
}

/// `MetricVec::with_label_values` on the two label values, then
/// `GenericCounter::inc` on the counter it gives. Claims that the vector files
/// the series under the hash of the two values written one after the other,
/// that the count of that series rises by one and wraps to 0 after the
/// largest, and that no other series changes, nor the vector's descriptor.
#[verifier::external_body]
fn counter_inc(counters: &mut FailureCounters, target: &str, probe_type: &str)
    ensures
        counter_cells(*final(counters)) == bump(
            counter_cells(*old(counters)),
            label_key(target@ + probe_type@),
        ),
        counter_id(*final(counters)) == counter_id(*old(counters)),
{
    counters.vec.with_label_values(&[target, probe_type]).inc()
}

/// `MetricVec::with_label_values` on the two label values, then
/// `GenericCounter::get` on the counter it gives. Claims that the count read is
/// that of the series filed under the hash of the two values. A series never
/// counted before reads 0, and is exported with that count from then on.
#[verifier::external_body]
fn counter_get(counters: &FailureCounters, target: &str, probe_type: &str) -> (count: u64)
    ensures
        count == counter_cells(*counters)[label_key(target@ + probe_type@)],
{
    counters.vec.with_label_values(&[target, probe_type]).get()
}

/// `Registry::register` on a handle to the counter vector. Claims that a
/// registry that holds the id of the vector's descriptor refuses it, that a
/// registration that is done adds that id to those the registry holds, and
/// that one that is refused leaves them as they were. Whether a registry that
/// lacks the id takes the vector depends on what else it holds, of which
/// nothing is claimed.
#[verifier::external_body]
fn counter_register(counters: &FailureCounters, registry: &mut prometheus::Registry) -> (r: Result<
    (),
    prometheus::Error,
>)
    ensures
        registered_ids(*old(registry)).contains(counter_id(*counters)) ==> r is Err,
        r is Ok ==> registered_ids(*final(registry)) == registered_ids(*old(registry)).insert(
            counter_id(*counters),
        ),
        r is Err ==> registered_ids(*final(registry)) == registered_ids(*old(registry)),
{
    registry.register(Box::new(counters.vec.clone()))
}

/// Why the metrics sink could not be set up.
#[derive(Debug, Clone, Copy, PartialEq, Eq, Structural)]
pub enum MetricsError {
    /// The registry refused the counters.
    NotRegistered,
}

impl FailureCounters {
    /// What the counters hold: for each series key, its count.
    pub open spec fn cells(&self) -> Map<u64, u64> {
        counter_cells(*self)
    }

    /// The failures counted for a target and a probe type.
    pub open spec fn count_of(&self, target: Seq<char>, probe_type: Seq<char>) -> u64 {
        self.cells()[series_key(target, probe_type)]
    }

    /// The id of the counters' descriptor, by which a registry knows them. It
    /// stays what it is while failures are counted.
    pub open spec fn id(&self) -> u64 {
        counter_id(*self)
    }

    /// Counters in which nothing has been counted, under the name
    /// `probe_timeout_total` with the labels `target` and `probe_type`.
    pub fn new() -> (counters: FailureCounters)
        ensures
            counters.cells() == zero_cells(),
    {
        proof {
            lemma_counter_opts_accepted();
        }
        match counter_vec_new(
            "probe_timeout_total",
            "Total number of probe timeouts",
            "target",
            "probe_type",
        ) {
            Ok(counters) => counters,
            Err(_) => unreached(),
        }
    }

    /// The failures counted for a target and a probe type.
    pub fn failure_count(&self, target: &str, probe_type: &str) -> (count: u64)
        ensures
            count == self.count_of(target@, probe_type@),
    {
        counter_get(self, target, probe_type)
    }

    /// Hands the counters to a registry for export. A registry that holds them
    /// already refuses them; the counts are not touched.
    pub fn register(&self, registry: &mut prometheus::Registry) -> (r: Result<(), MetricsError>)
        ensures
            registered_ids(*old(registry)).contains(self.id()) ==> r is Err,
            r is Ok ==> registered_ids(*final(registry)) == registered_ids(*old(registry)).insert(
                self.id(),
            ),
            r is Err ==> registered_ids(*final(registry)) == registered_ids(*old(registry)),
            r matches Err(e) ==> e == MetricsError::NotRegistered,
    {
        registration_outcome(counter_register(self, registry))
    }
}

/// What a registration came to: done where the registry took the counters,
/// `NotRegistered` where it refused them.
pub fn registration_outcome(outcome: Result<(), prometheus::Error>) -> (r: Result<(), MetricsError>)
    ensures
        r is Ok <==> outcome is Ok,
        r matches Err(e) ==> e == MetricsError::NotRegistered,
{
    match outcome {
        Ok(_) => Ok(()),
        Err(_) => Err(MetricsError::NotRegistered),
    }
}

/// The counter vector accepts the name, help text and labels of the failure
/// counters.
pub proof fn lemma_counter_opts_accepted()
    ensures
        opts_accepted(counter_name(), counter_help(), target_label(), probe_type_label()),
{
    reveal_strlit("probe_timeout_total");
    reveal_strlit("Total number of probe timeouts");
    reveal_strlit("target");
    reveal_strlit("probe_type");
    assert(is_name(counter_name(), true));
    assert(is_name(target_label(), false));
    assert(is_name(probe_type_label(), false));
    assert(target_label().len() != probe_type_label().len());
}

/// Counts one failure of the probe type `probe_type` against `target`: the
/// count of that series rises by one, and no other series changes.
pub fn inc_timeout(counters: &mut FailureCounters, target: &str, probe_type: &str)
    ensures
        final(counters).cells() == bump(old(counters).cells(), series_key(target@, probe_type@)),
        final(counters).id() == old(counters).id(),
{
    counter_inc(counters, target, probe_type);
}

/// The counters after the failures of the series `keys`, one after the other.
pub open spec fn bump_all(cells: Map<u64, u64>, keys: Seq<u64>) -> Map<u64, u64>
    decreases keys.len(),
{
    if keys.len() == 0 {
        cells
    } else {
        bump(bump_all(cells, keys.drop_last()), keys.last())
    }
}

/// How often `key` occurs in `keys`.
pub open spec fn occurrences(keys: Seq<u64>, key: u64) -> nat
    decreases keys.len(),
{
    if keys.len() == 0 {
        0
    } else {
        occurrences(keys.drop_last(), key) + if keys.last() == key {
            1nat
        } else {
            0nat
        }
    }
}

/// Failures add up: after any run of failures, in any order and mixed with
/// those of other series, the count of a series has risen by exactly the number
/// of its own failures in the run, counted modulo 2^64.
pub proof fn lemma_failures_add_up(cells: Map<u64, u64>, keys: Seq<u64>, key: u64)
    ensures
        bump_all(cells, keys)[key] == (cells[key] + occurrences(keys, key)) % 0x1_0000_0000_0000_0000,
    decreases keys.len(),
{
    let modulus = 0x1_0000_0000_0000_0000int;
    if keys.len() == 0 {
        lemma_small_mod(cells[key] as nat, modulus as nat);
    } else {
        lemma_failures_add_up(cells, keys.drop_last(), key);
        let before = bump_all(cells, keys.drop_last());
        if keys.last() == key {
            let sum = cells[key] + occurrences(keys.drop_last(), key);
            lemma_add_mod_noop(sum, 1, modulus);
            lemma_small_mod(1, modulus as nat);
            if before[key] == u64::MAX {
                assert((before[key] + 1) % modulus == 0);
            } else {
                lemma_small_mod((before[key] + 1) as nat, modulus as nat);
            }
        }
    }
}

/// A series that fails `m` times, and no other series under its key, has its
/// count raised by exactly `m` where the count stays within 64 bits.
pub proof fn lemma_own_failures_counted(cells: Map<u64, u64>, keys: Seq<u64>, key: u64)
    requires
        cells[key] + occurrences(keys, key) <= u64::MAX,
    ensures
        bump_all(cells, keys)[key] == cells[key] + occurrences(keys, key),
{
    lemma_failures_add_up(cells, keys, key);
    lemma_small_mod((cells[key] + occurrences(keys, key)) as nat, 0x1_0000_0000_0000_0000);
}

/// Two pairs of label values that read the same when written one after the
/// other are counted as one series.
pub proof fn lemma_series_share_key(
    target: Seq<char>,
    probe_type: Seq<char>,
    other_target: Seq<char>,
    other_probe_type: Seq<char>,
)
    requires
        target + probe_type == other_target + other_probe_type,
    ensures
        series_key(target, probe_type) == series_key(other_target, other_probe_type),
{
}

} // verus!

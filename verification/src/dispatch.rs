//! The dispatch engine: one probe request for each target of a snapshot, and
//! the recording of what each probe reports.

use crate::config::{
    port_or, refreshed, targets_view, ConfigStore, ConfigView, TargetConfig, TargetView,
};
use crate::metrics::{
    bump, bump_all, inc_timeout, lemma_failures_add_up, occurrences, series_key, FailureCounters,
};
use crate::prober::{
    label_of, Latency, OutcomeView, ProbeKind, ProbeOutcome, ProbeRequest, ProbeResult,
    RequestView, DEFAULT_ECHO_PORT, DEFAULT_HTTP_PORT, DEFAULT_TCP_PORT, ECHO_DEADLINE_MS,
    HTTP_DEADLINE_MS, TCP_DEADLINE_MS,
};
use vstd::prelude::*;

verus! {

/// The port that a probe of `target` reaches: none for ICMP; the target's own,
/// or else 80 for TCP and HTTP and 9000 for echo.
pub open spec fn planned_port(target: TargetView) -> Option<u16> {
    match target.kind {
        ProbeKind::Icmp => None,
        ProbeKind::TcpConnect => Some(port_or(target.port, DEFAULT_TCP_PORT)),
        ProbeKind::Http => Some(port_or(target.port, DEFAULT_HTTP_PORT)),
        ProbeKind::Echo => Some(port_or(target.port, DEFAULT_ECHO_PORT)),
    }
}

/// The deadline of a probe of the kind `kind`, in milliseconds: the configured
/// timeout for ICMP, and the driver's own bound for the others.
pub open spec fn planned_deadline(kind: ProbeKind, default_timeout_ms: u64) -> u64 {
    match kind {
        ProbeKind::Icmp => default_timeout_ms,
        ProbeKind::TcpConnect => TCP_DEADLINE_MS,
        ProbeKind::Http => HTTP_DEADLINE_MS,
        ProbeKind::Echo => ECHO_DEADLINE_MS,
    }
}

/// The request by which `target` is probed while the configured timeout is
/// `default_timeout_ms`.
pub open spec fn planned(target: TargetView, default_timeout_ms: u64) -> RequestView {
    RequestView {
        target: target.name,
        kind: target.kind,
        host: target.host,
        port: planned_port(target),
        deadline_ms: planned_deadline(target.kind, default_timeout_ms),
    }
}

/// The requests of one tick: one for each target of the snapshot, in order.
pub open spec fn requests_for(snapshot: Seq<TargetView>, default_timeout_ms: u64) -> Seq<
    RequestView,
> {
    Seq::new(snapshot.len(), |i: int| planned(snapshot[i], default_timeout_ms))
}

/// The requests of a list as plain values, in order.
pub open spec fn requests_view(requests: Seq<ProbeRequest>) -> Seq<RequestView> {
    Seq::new(requests.len(), |i: int| requests[i]@)
}

/// Routes one target to the driver of its kind: the request names the target,
/// its host, the port to reach and the deadline of the attempt.
pub fn plan_probe(target: &TargetConfig, default_timeout_ms: u64) -> (request: ProbeRequest)
    ensures
        request@ == planned(target@, default_timeout_ms),
{
    let (port, deadline_ms) = match target.kind {
        ProbeKind::Icmp => (None, default_timeout_ms),
        ProbeKind::TcpConnect => (
            Some(
                match target.port {
                    Some(p) => p,
                    None => DEFAULT_TCP_PORT,
                },
            ),
            TCP_DEADLINE_MS,
        ),
        ProbeKind::Http => (
            Some(
                match target.port {
                    Some(p) => p,
                    None => DEFAULT_HTTP_PORT,
                },
            ),
            HTTP_DEADLINE_MS,
        ),
        ProbeKind::Echo => (
            Some(
                match target.port {
                    Some(p) => p,
                    None => DEFAULT_ECHO_PORT,
                },
            ),
            ECHO_DEADLINE_MS,
        ),
    };
    ProbeRequest {
        target: target.name.clone(),
        kind: target.kind,
        host: target.host.clone(),
        port,
        deadline_ms,
    }
}

/// The fan-out of one tick: exactly one request for each target of the
/// snapshot, in the snapshot's order. The requests depend on the snapshot and
/// the timeout alone.
pub fn dispatch_tick(snapshot: &Vec<TargetConfig>, default_timeout_ms: u64) -> (requests: Vec<
    ProbeRequest,
>)
    ensures
        requests.len() == snapshot.len(),
        requests_view(requests@) == requests_for(targets_view(snapshot@), default_timeout_ms),
{
    let mut requests: Vec<ProbeRequest> = Vec::new();
    let mut i: usize = 0;
    while i < snapshot.len()
        invariant
            i <= snapshot.len(),
            requests.len() == i,
            forall|j: int| 0 <= j < i ==> requests@[j]@ == planned(snapshot@[j]@, default_timeout_ms),
        decreases snapshot.len() - i,
    {
        requests.push(plan_probe(&snapshot[i], default_timeout_ms));
        i = i + 1;
    }
    assert(requests_view(requests@) =~= requests_for(
        targets_view(snapshot@),
        default_timeout_ms,
    ));
    requests
}

/// The job of one tick: reads the store once, targets and timeout together,
/// and fans out over that copy. What is read into the store later reaches the
/// next tick, not this one.
pub fn tick_requests(store: &ConfigStore) -> (requests: Vec<ProbeRequest>)
    ensures
        requests.len() == store@.targets.len(),
        requests_view(requests@) == requests_for(store@.targets, store@.default_timeout_ms),
{
    let snapshot = store.current_targets();
    let default_timeout_ms = store.current_default_timeout();
    assert(targets_view(snapshot@).len() == snapshot@.len());
    dispatch_tick(&snapshot, default_timeout_ms)
}

/// A latency to record: the target, the label of the probe type and the round
/// trip that was measured.
#[derive(Debug)]
pub struct LatencySample {
    pub target: String,
    pub probe_type: String,
    pub latency: Latency,
}

/// A latency sample as plain values.
pub struct SampleView {
    pub target: Seq<char>,
    pub probe_type: Seq<char>,
    pub latency: Latency,
}

impl View for LatencySample {
    type V = SampleView;

    open spec fn view(&self) -> SampleView {
        SampleView { target: self.target@, probe_type: self.probe_type@, latency: self.latency }
    }
}

/// The series key under which a failure of `outcome` is counted.
pub open spec fn outcome_key(outcome: OutcomeView) -> u64 {
    series_key(outcome.target, label_of(outcome.kind))
}

/// The latency sample that `outcome` gives: one for a success, none for a
/// failure.
pub open spec fn sample_of(outcome: OutcomeView) -> Option<SampleView> {
    match outcome.result {
        ProbeResult::Success(latency) => Some(
            SampleView { target: outcome.target, probe_type: label_of(outcome.kind), latency },
        ),
        ProbeResult::Failure(_) => None,
    }
}

/// The failure counters after `outcome` is recorded: a failure is counted once
/// against its series, a success leaves the counters as they are.
pub open spec fn cells_after(cells: Map<u64, u64>, outcome: OutcomeView) -> Map<u64, u64> {
    match outcome.result {
        ProbeResult::Success(_) => cells,
        ProbeResult::Failure(_) => bump(cells, outcome_key(outcome)),
    }
}

/// Records what one probe reported. A failure is counted once against the
/// target and probe type, and no latency is handed back; a success changes no
/// counter and hands back the latency to record for the target and probe type.
pub fn record_outcome(counters: &mut FailureCounters, outcome: &ProbeOutcome) -> (sample: Option<
    LatencySample,
>)
    ensures
        final(counters).cells() == cells_after(old(counters).cells(), outcome@),
        final(counters).id() == old(counters).id(),
        match sample_of(outcome@) {
            Some(expected) => sample matches Some(s) && s@ == expected,
            None => sample is None,
        },
{
    match outcome.result {
        ProbeResult::Success(latency) => Some(
            LatencySample {
                target: outcome.target.clone(),
                probe_type: String::from_str(outcome.kind.label()),
                latency,
            },
        ),
        ProbeResult::Failure(_) => {
            inc_timeout(counters, outcome.target.as_str(), outcome.kind.label());
            None
        },
    }
}

/// What the sink has taken in: the failure counters and the latency samples
/// handed on, in the order of their recording.
pub struct Recorded {
    pub cells: Map<u64, u64>,
    pub samples: Seq<SampleView>,
}

/// The sink after one outcome is recorded.
pub open spec fn record_one(state: Recorded, outcome: OutcomeView) -> Recorded {
    Recorded {
        cells: cells_after(state.cells, outcome),
        samples: match sample_of(outcome) {
            Some(sample) => state.samples.push(sample),
            None => state.samples,
        },
    }
}

/// The sink after a run of outcomes is recorded, one after the other.
pub open spec fn record_all(state: Recorded, outcomes: Seq<OutcomeView>) -> Recorded
    decreases outcomes.len(),
{
    if outcomes.len() == 0 {
        state
    } else {
        record_one(record_all(state, outcomes.drop_last()), outcomes.last())
    }
}

/// How many outcomes of a run are failures counted under `key`.
pub open spec fn failures_of(outcomes: Seq<OutcomeView>, key: u64) -> nat
    decreases outcomes.len(),
{
    if outcomes.len() == 0 {
        0
    } else {
        failures_of(outcomes.drop_last(), key) + if outcomes.last().result is Failure
            && outcome_key(outcomes.last()) == key {
            1nat
        } else {
            0nat
        }
    }
}

/// Failures are counted one by one: after any run of outcomes, in any order,
/// the count of every series has risen by exactly the number of failures of
/// that series in the run, counted modulo 2^64. Successes and the failures of
/// other series do not enter it.
pub proof fn lemma_failures_counted(state: Recorded, outcomes: Seq<OutcomeView>, key: u64)
    ensures
        record_all(state, outcomes).cells[key] == (state.cells[key] + failures_of(outcomes, key))
            % 0x1_0000_0000_0000_0000,
    decreases outcomes.len(),
{
    if outcomes.len() == 0 {
        lemma_failures_add_up(state.cells, Seq::<u64>::empty(), key);
    } else {
        let earlier = outcomes.drop_last();
        lemma_failures_counted(state, earlier, key);
        let before = record_all(state, earlier).cells;
        if outcomes.last().result is Failure && outcome_key(outcomes.last()) == key {
            let one = seq![key];
            assert(one.drop_last() =~= Seq::<u64>::empty());
            assert(bump_all(before, one.drop_last()) == before);
            assert(occurrences(one.drop_last(), key) == 0);
            assert(bump_all(before, one) == bump(before, key));
            assert(occurrences(one, key) == 1);
            lemma_failures_add_up(before, one, key);
            vstd::arithmetic::div_mod::lemma_add_mod_noop(
                state.cells[key] + failures_of(earlier, key),
                1,
                0x1_0000_0000_0000_0000,
            );
            vstd::arithmetic::div_mod::lemma_small_mod(1, 0x1_0000_0000_0000_0000);
            vstd::arithmetic::div_mod::lemma_small_mod(before[key] as nat, 0x1_0000_0000_0000_0000);
        }
    }
}

/// How many outcomes of a run are failures of the probe type `kind` against
/// `target`.
pub open spec fn failures_against(
    outcomes: Seq<OutcomeView>,
    target: Seq<char>,
    kind: ProbeKind,
) -> nat
    decreases outcomes.len(),
{
    if outcomes.len() == 0 {
        0
    } else {
        failures_against(outcomes.drop_last(), target, kind) + if outcomes.last().result is Failure
            && outcomes.last().target == target && outcomes.last().kind == kind {
            1nat
        } else {
            0nat
        }
    }
}

/// No failure of another target or probe type in the run is filed under the
/// key of `target` and `kind`.
pub open spec fn key_is_own(outcomes: Seq<OutcomeView>, target: Seq<char>, kind: ProbeKind) -> bool {
    forall|i: int|
        0 <= i < outcomes.len() && (#[trigger] outcomes[i]).result is Failure && outcome_key(
            outcomes[i],
        ) == series_key(target, label_of(kind)) ==> outcomes[i].target == target
            && outcomes[i].kind == kind
}

/// A target that fails `m` times with one probe type has its count raised by
/// exactly `m`, however the failures and successes of other targets fall in
/// between, where no other series is filed under its key and the count stays
/// within 64 bits.
pub proof fn lemma_own_failures_counted_exactly(
    state: Recorded,
    outcomes: Seq<OutcomeView>,
    target: Seq<char>,
    kind: ProbeKind,
)
    requires
        key_is_own(outcomes, target, kind),
        state.cells[series_key(target, label_of(kind))] + failures_against(outcomes, target, kind)
            <= u64::MAX,
    ensures
        record_all(state, outcomes).cells[series_key(target, label_of(kind))] == state.cells[series_key(
            target,
            label_of(kind),
        )] + failures_against(outcomes, target, kind),
{
    let key = series_key(target, label_of(kind));
    lemma_own_failures_are_the_keys(outcomes, target, kind);
    lemma_failures_counted(state, outcomes, key);
    vstd::arithmetic::div_mod::lemma_small_mod(
        (state.cells[key] + failures_against(outcomes, target, kind)) as nat,
        0x1_0000_0000_0000_0000,
    );
}

/// Where the key is the series' own, the failures filed under it are the
/// failures of the series.
proof fn lemma_own_failures_are_the_keys(
    outcomes: Seq<OutcomeView>,
    target: Seq<char>,
    kind: ProbeKind,
)
    requires
        key_is_own(outcomes, target, kind),
    ensures
        failures_of(outcomes, series_key(target, label_of(kind))) == failures_against(
            outcomes,
            target,
            kind,
        ),
    decreases outcomes.len(),
{
    if outcomes.len() > 0 {
        let earlier = outcomes.drop_last();
        assert forall|i: int|
            0 <= i < earlier.len() && (#[trigger] earlier[i]).result is Failure && outcome_key(
                earlier[i],
            ) == series_key(target, label_of(kind)) implies earlier[i].target == target
            && earlier[i].kind == kind by {
            assert(earlier[i] == outcomes[i]);
        }
        lemma_own_failures_are_the_keys(earlier, target, kind);
        assert(outcomes.last() == outcomes[outcomes.len() - 1]);
    }
}

/// No outcome is lost to another: whatever the other probes of a run report,
/// the latency of each success is among the samples handed on, and each
/// failure is among those counted under its series.
pub proof fn lemma_every_outcome_recorded(state: Recorded, outcomes: Seq<OutcomeView>, i: int)
    requires
        0 <= i < outcomes.len(),
    ensures
        match sample_of(outcomes[i]) {
            Some(sample) => record_all(state, outcomes).samples.contains(sample),
            None => failures_of(outcomes, outcome_key(outcomes[i])) >= 1,
        },
    decreases outcomes.len(),
{
    let earlier = outcomes.drop_last();
    let before = record_all(state, earlier);
    if i == outcomes.len() - 1 {
        match sample_of(outcomes[i]) {
            Some(sample) => {
                let all = before.samples.push(sample);
                assert(all[all.len() - 1] == sample);
            },
            None => {},
        }
    } else {
        lemma_every_outcome_recorded(state, earlier, i);
        assert(earlier[i] == outcomes[i]);
        match sample_of(outcomes[i]) {
            Some(sample) => {
                let at = choose|j: int| 0 <= j < before.samples.len() && before.samples[j] == sample;
                let all = record_all(state, outcomes).samples;
                assert(all[at] == sample);
            },
            None => {},
        }
    }
}

/// How many outcomes of a run are successes.
pub open spec fn successes_in(outcomes: Seq<OutcomeView>) -> nat
    decreases outcomes.len(),
{
    if outcomes.len() == 0 {
        0
    } else {
        successes_in(outcomes.drop_last()) + if outcomes.last().result is Success {
            1nat
        } else {
            0nat
        }
    }
}

/// One sample is handed on for each success of a run, and none for a failure.
pub proof fn lemma_one_sample_per_success(state: Recorded, outcomes: Seq<OutcomeView>)
    ensures
        record_all(state, outcomes).samples.len() == state.samples.len() + successes_in(outcomes),
    decreases outcomes.len(),
{
    if outcomes.len() > 0 {
        lemma_one_sample_per_success(state, outcomes.drop_last());
    }
}

/// Two targets, or two probe types, are never filed under one pair of label
/// values written one after the other: the name and the kind can be read back
/// from that text.
pub proof fn lemma_joined_labels_identify(
    target: Seq<char>,
    kind: ProbeKind,
    other_target: Seq<char>,
    other_kind: ProbeKind,
)
    requires
        target + label_of(kind) == other_target + label_of(other_kind),
    ensures
        target == other_target,
        kind == other_kind,
{
    reveal_strlit("icmp");
    reveal_strlit("tcp_connect");
    reveal_strlit("http");
    reveal_strlit("echo");
    let a = label_of(kind);
    let b = label_of(other_kind);
    let joined = target + a;
    let other_joined = other_target + b;
    assert("icmp"@[3] == 'p' && "tcp_connect"@[10] == 't' && "http"@[3] == 'p' && "echo"@[3] == 'o');
    assert("icmp"@[0] == 'i' && "http"@[0] == 'h');
    assert(joined[joined.len() - 1] == a[a.len() - 1]);
    assert(other_joined[other_joined.len() - 1] == b[b.len() - 1]);
    assert(a.len() == b.len());
    assert(target.len() == other_target.len());
    assert(joined[target.len() as int] == a[0]);
    assert(other_joined[target.len() as int] == b[0]);
    assert(kind == other_kind);
    assert(target =~= joined.subrange(0, target.len() as int));
    assert(other_target =~= other_joined.subrange(0, target.len() as int));
}

/// No two targets of the snapshot have one name.
pub open spec fn names_unique(snapshot: Seq<TargetView>) -> bool {
    forall|i: int, j: int|
        0 <= i < snapshot.len() && 0 <= j < snapshot.len() && i != j ==> (#[trigger] snapshot[i]).name
            != (#[trigger] snapshot[j]).name
}

/// In a snapshot whose names are unique, no two requests of a tick are filed
/// under the same label values: each target has a series of its own.
pub proof fn lemma_targets_have_own_series(
    snapshot: Seq<TargetView>,
    default_timeout_ms: u64,
    i: int,
    j: int,
)
    requires
        names_unique(snapshot),
        0 <= i < snapshot.len(),
        0 <= j < snapshot.len(),
        i != j,
    ensures
        requests_for(snapshot, default_timeout_ms)[i].target + label_of(
            requests_for(snapshot, default_timeout_ms)[i].kind,
        ) != requests_for(snapshot, default_timeout_ms)[j].target + label_of(
            requests_for(snapshot, default_timeout_ms)[j].kind,
        ),
{
    let a = requests_for(snapshot, default_timeout_ms)[i];
    let b = requests_for(snapshot, default_timeout_ms)[j];
    assert(a.target == snapshot[i].name && b.target == snapshot[j].name);
    if a.target + label_of(a.kind) == b.target + label_of(b.kind) {
        lemma_joined_labels_identify(a.target, a.kind, b.target, b.kind);
    }
}

/// A tick in progress: the store as it is now, the targets as read at the
/// start of the tick, and the requests dispatched so far.
pub struct TickRun {
    pub store: ConfigView,
    pub snapshot: Seq<TargetView>,
    pub dispatched: Seq<RequestView>,
}

/// What can happen while a tick is in progress.
pub enum TickEvent {
    /// The configuration source was read: `None` for a read that failed.
    Refresh(Option<ConfigView>),
    /// The next target of the snapshot is dispatched.
    DispatchNext,
}

/// A tick at its start: the snapshot is the store's list of targets.
pub open spec fn begin_tick(store: ConfigView) -> TickRun {
    TickRun { store, snapshot: store.targets, dispatched: Seq::empty() }
}

/// A tick after one event. A refresh changes the store and nothing else. A
/// dispatch takes the next target from the snapshot and the timeout from the
/// store as it is then; with every target dispatched it does nothing.
pub open spec fn tick_step(run: TickRun, event: TickEvent) -> TickRun {
    match event {
        TickEvent::Refresh(fetched) => TickRun { store: refreshed(run.store, fetched), ..run },
        TickEvent::DispatchNext => if run.dispatched.len() < run.snapshot.len() {
            TickRun {
                dispatched: run.dispatched.push(
                    planned(
                        run.snapshot[run.dispatched.len() as int],
                        run.store.default_timeout_ms,
                    ),
                ),
                ..run
            }
        } else {
            run
        },
    }
}

/// A tick after a run of events.
pub open spec fn tick_steps(run: TickRun, events: Seq<TickEvent>) -> TickRun
    decreases events.len(),
{
    if events.len() == 0 {
        run
    } else {
        tick_step(tick_steps(run, events.drop_last()), events.last())
    }
}

/// A request goes to `target`: it carries the target's name, kind and host and
/// the port planned for it.
pub open spec fn goes_to(request: RequestView, target: TargetView) -> bool {
    &&& request.target == target.name
    &&& request.kind == target.kind
    &&& request.host == target.host
    &&& request.port == planned_port(target)
}

/// Snapshot isolation: however reads of the configuration source fall between
/// the dispatches of a tick, the snapshot stays the list read at the start of
/// the tick, and the requests dispatched go to its targets, one each and in
/// order.
pub proof fn lemma_snapshot_isolation(store: ConfigView, events: Seq<TickEvent>)
    ensures
        tick_steps(begin_tick(store), events).snapshot == store.targets,
        tick_steps(begin_tick(store), events).dispatched.len() <= store.targets.len(),
        forall|i: int|
            0 <= i < tick_steps(begin_tick(store), events).dispatched.len() ==> goes_to(
                #[trigger] tick_steps(begin_tick(store), events).dispatched[i],
                store.targets[i],
            ),
    decreases events.len(),
{
    if events.len() > 0 {
        lemma_snapshot_isolation(store, events.drop_last());
    }
}

/// With no refresh in between, a tick that dispatches all its targets issues
/// the requests of `requests_for`.
pub proof fn lemma_tick_without_refresh(store: ConfigView, n: nat)
    requires
        n <= store.targets.len(),
    ensures
        tick_steps(begin_tick(store), Seq::new(n, |i: int| TickEvent::DispatchNext)).dispatched
            == requests_for(store.targets, store.default_timeout_ms).take(n as int),
        tick_steps(begin_tick(store), Seq::new(n, |i: int| TickEvent::DispatchNext)).store == store,
        tick_steps(begin_tick(store), Seq::new(n, |i: int| TickEvent::DispatchNext)).snapshot
            == store.targets,
    decreases n,
{
    let events = Seq::new(n, |i: int| TickEvent::DispatchNext);
    if n > 0 {
        let earlier = Seq::new((n - 1) as nat, |i: int| TickEvent::DispatchNext);
        assert(events.drop_last() =~= earlier);
        lemma_tick_without_refresh(store, (n - 1) as nat);
        let before = tick_steps(begin_tick(store), earlier);
        assert(events.last() == TickEvent::DispatchNext);
        assert(tick_steps(begin_tick(store), events) == tick_step(before, TickEvent::DispatchNext));
        assert(before.dispatched.len() == n - 1);
        assert(tick_steps(begin_tick(store), events).dispatched =~= requests_for(
            store.targets,
            store.default_timeout_ms,
        ).take(n as int));
    } else {
        assert(tick_steps(begin_tick(store), events).dispatched =~= requests_for(
            store.targets,
            store.default_timeout_ms,
        ).take(0));
    }
}

} // verus!

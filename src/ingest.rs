use vstd::prelude::*;
use vstd::seq_lib::{commutative_foldr, lemma_fold_right_permutation};
use std::sync::Arc;
use std::sync::atomic::{AtomicU64, Ordering};

verus! {

/// Events between two progress reports of one session.
pub const REPORT_EVERY: u64 = 1000;

/// Adds one event's metric count to a running total.
pub open spec fn add_metric() -> spec_fn(u64, int) -> int {
    |m: u64, acc: int| acc + m as int
}

/// Total of a sequence of per-event metric counts.
pub open spec fn metric_sum(ms: Seq<u64>) -> int {
    ms.fold_right(add_metric(), 0int)
}

/// `x` reduced to a 64-bit counter value.
pub open spec fn wrap64(x: int) -> int {
    x % 0x1_0000_0000_0000_0000int
}

proof fn lemma_fold_shift(ms: Seq<u64>, b: int)
    ensures
        ms.fold_right(add_metric(), b) == ms.fold_right(add_metric(), 0int) + b,
    decreases ms.len(),
{
    if ms.len() > 0 {
        let l = ms.last() as int;
        lemma_fold_shift(ms.drop_last(), b + l);
        lemma_fold_shift(ms.drop_last(), l);
    }
}

/// The total of events taken one more: the last count is added.
pub proof fn lemma_metric_sum_push(ms: Seq<u64>, m: u64)
    ensures
        metric_sum(ms.push(m)) == metric_sum(ms) + m,
{
    assert(ms.push(m).drop_last() =~= ms);
    lemma_fold_shift(ms, m as int);
}

/// Totals of two streams of events add up.
pub proof fn lemma_metric_sum_concat(a: Seq<u64>, b: Seq<u64>)
    ensures
        metric_sum(a + b) == metric_sum(a) + metric_sum(b),
    decreases b.len(),
{
    if b.len() == 0 {
        assert(a + b =~= a);
    } else {
        lemma_metric_sum_concat(a, b.drop_last());
        assert((a + b) =~= (a + b.drop_last()).push(b.last()));
        assert(b =~= b.drop_last().push(b.last()));
        lemma_metric_sum_push(a + b.drop_last(), b.last());
        lemma_metric_sum_push(b.drop_last(), b.last());
    }
}

/// The total does not depend on the order in which events arrive.
pub proof fn lemma_metric_sum_order_free(a: Seq<u64>, b: Seq<u64>)
    requires
        a.to_multiset() == b.to_multiset(),
    ensures
        metric_sum(a) == metric_sum(b),
{
    assert(commutative_foldr(add_metric()));
    lemma_fold_right_permutation(a, b, add_metric(), 0int);
}

/// Two sessions whose events arrive interleaved in any order `all` contribute
/// together the sum of their metric counts.
pub proof fn lemma_interleaved_sessions_total(s1: Seq<u64>, s2: Seq<u64>, all: Seq<u64>)
    requires
        all.to_multiset() == (s1 + s2).to_multiset(),
    ensures
        metric_sum(all) == metric_sum(s1) + metric_sum(s2),
{
    lemma_metric_sum_order_free(all, s1 + s2);
    lemma_metric_sum_concat(s1, s2);
}

/// What the transport delivered next on an inbound stream.
#[derive(PartialEq, Eq, Structural, Clone, Copy, Debug)]
pub enum StreamItem {
    /// An event carrying `metrics` metric entries.
    Event { metrics: u64 },
    /// The client closed the stream cleanly.
    End,
    /// The transport failed to read the next event.
    ReadError,
}

/// What the service does with that item.
#[derive(PartialEq, Eq, Structural, Clone, Copy, Debug)]
pub enum IngestStep {
    /// `added` was added to the shared counter; `report` asks for a
    /// progress report.
    Continue { added: u64, report: bool },
    /// Answer the call with a successful empty acknowledgement.
    Acknowledge,
    /// Fail the call with the transport's error.
    Fail,
}

/// Tally of one inbound stream.
pub struct IngestSession {
    /// Events seen (wrapping).
    pub events: u64,
    /// Metric entries seen (wrapping).
    pub metrics: u64,
    /// Metric counts of the events seen, in arrival order.
    pub seen: Ghost<Seq<u64>>,
}

impl IngestSession {
    /// The tallies agree with the events seen.
    pub open spec fn wf(&self) -> bool {
        &&& self.events as int == wrap64(self.seen@.len() as int)
        &&& self.metrics as int == wrap64(metric_sum(self.seen@))
    }

    /// A session that has seen nothing.
    pub fn new() -> (s: IngestSession)
        ensures
            s.wf(),
            s.seen@ == Seq::<u64>::empty(),
            s.events == 0,
            s.metrics == 0,
    {
        IngestSession { events: 0, metrics: 0, seen: Ghost(Seq::empty()) }
    }
}

/// Ingest endpoint: tallies the metric entries of every inbound event, over
/// every session, into one shared counter.
pub struct MockSensorService {
    counter: Arc<AtomicU64>,
}

impl MockSensorService {
    /// The counter this service tallies into.
    pub closed spec fn shared(&self) -> Arc<AtomicU64> {
        self.counter
    }

    /// A service that tallies into `counter`, which others may read.
    pub fn new(counter: Arc<AtomicU64>) -> (s: MockSensorService)
        ensures
            s.shared() == counter,
    {
        MockSensorService { counter }
    }

    /// The shared counter.
    pub fn counter(&self) -> (c: &Arc<AtomicU64>)
        ensures
            *c == self.shared(),
    {
        &self.counter
    }

    /// Current value of the shared counter.
    pub fn total(&self) -> u64 {
        self.counter.load(Ordering::Relaxed)
    }

    /// Handles the next item of an inbound stream: an event adds its metric
    /// count to the shared counter and to the session; a clean end is
    /// acknowledged; a read error fails the call.
    pub fn on_stream_item(&self, session: &mut IngestSession, item: StreamItem) -> (r: IngestStep)
        requires
            old(session).wf(),
        ensures
            final(session).wf(),
            match item {
                StreamItem::Event { metrics } => {
                    &&& final(session).seen@ == old(session).seen@.push(metrics)
                    &&& r == IngestStep::Continue {
                        added: metrics,
                        report: final(session).events % REPORT_EVERY == 0,
                    }
                },
                StreamItem::End => *final(session) == *old(session) && r == IngestStep::Acknowledge,
                StreamItem::ReadError => *final(session) == *old(session) && r == IngestStep::Fail,
            },
    {
        match item {
            StreamItem::Event { metrics } => {
                self.counter.fetch_add(metrics, Ordering::Relaxed);
                proof {
                    lemma_metric_sum_push(session.seen@, metrics);
                }
                session.events = session.events.wrapping_add(1);
                session.metrics = session.metrics.wrapping_add(metrics);
                session.seen = Ghost(session.seen@.push(metrics));
                IngestStep::Continue { added: metrics, report: session.events % REPORT_EVERY == 0 }
            },
            StreamItem::End => IngestStep::Acknowledge,
            StreamItem::ReadError => IngestStep::Fail,
        }
    }
}

} // verus!

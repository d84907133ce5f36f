use vstd::prelude::*;
use crate::alert::{alert_record, render_alert};
use crate::pacing::{pacing_delay, pacing_delay_ns};

verus! {

/// Wait between two probes for the endpoint, and between two connection
/// attempts, in nanoseconds.
pub const RETRY_WAIT_NS: u64 = 500_000_000;

/// Extra wait after a reconnection that failed, in nanoseconds.
pub const FAILED_RECONNECT_WAIT_NS: u64 = 100_000_000;

/// Where the generator stands in its life.
#[derive(PartialEq, Eq, Structural, Clone, Copy, Debug)]
pub enum Phase {
    /// The endpoint does not exist yet; it is probed at a fixed interval.
    AwaitEndpoint,
    /// The endpoint exists; a first connection is being opened.
    Connecting,
    /// Records are being written.
    Emitting,
    /// A write failed; a new connection is being opened at once.
    Reconnecting,
}

/// The outside work that the generator asks for next.
#[derive(Debug)]
pub enum Operation {
    /// Check whether the endpoint exists.
    Probe,
    /// Open a connection to the endpoint (and keep it if it opens).
    Connect,
    /// Write these bytes on the connection.
    Send { record: Vec<u8> },
}

/// Wait `wait_ns` nanoseconds, then perform `op` and report whether it
/// succeeded to [`StreamGenerator::step`].
#[derive(Debug)]
pub struct Action {
    pub wait_ns: u64,
    pub op: Operation,
}

/// Decisions of a reconnecting, optionally rate-limited record generator.
/// It never stops: every step yields the next piece of outside work.
pub struct StreamGenerator {
    /// Current phase.
    pub phase: Phase,
    /// Records per second; zero for no limit.
    pub rate: u64,
    /// Identifier carried by the last record handed out.
    pub last_id: u64,
    /// Records handed out since emission started (saturating).
    pub emitted: u64,
    /// Elapsed time at which emission started.
    pub origin_ns: u64,
}

/// Phase after one piece of outside work in phase `p` succeeded (`ok`) or not.
pub open spec fn next_phase(p: Phase, ok: bool) -> Phase {
    match p {
        Phase::AwaitEndpoint => if ok { Phase::Connecting } else { Phase::AwaitEndpoint },
        Phase::Connecting => if ok { Phase::Emitting } else { Phase::Connecting },
        Phase::Emitting => if ok { Phase::Emitting } else { Phase::Reconnecting },
        Phase::Reconnecting => Phase::Emitting,
    }
}

/// Whether that outcome leads to writing a record.
pub open spec fn emits(p: Phase, ok: bool) -> bool {
    next_phase(p, ok) == Phase::Emitting
}

/// The identifier that follows `id`, wrapping on overflow.
pub open spec fn next_id(id: u64) -> u64 {
    if id == u64::MAX {
        0
    } else {
        (id + 1) as u64
    }
}

/// `a + b`, cut at `u64::MAX`.
pub open spec fn sat_add(a: nat, b: nat) -> nat {
    if a + b > u64::MAX {
        u64::MAX as nat
    } else {
        a + b
    }
}

/// Pacing wait before the next record, cut at `u64::MAX`.
pub open spec fn paced_wait(rate: u64, emitted: u64, since: nat) -> nat {
    let d = pacing_delay(rate as nat, emitted as nat, since);
    if d > u64::MAX {
        u64::MAX as nat
    } else {
        d
    }
}

impl StreamGenerator {
    /// A generator that has not yet seen its endpoint.
    pub fn new(rate: u64) -> (g: StreamGenerator)
        ensures
            g.phase == Phase::AwaitEndpoint,
            g.rate == rate,
            g.last_id == 0,
            g.emitted == 0,
            g.origin_ns == 0,
    {
        StreamGenerator { phase: Phase::AwaitEndpoint, rate, last_id: 0, emitted: 0, origin_ns: 0 }
    }

    /// The first piece of work: probe for the endpoint at once.
    pub fn first_action(&self) -> (a: Action)
        ensures
            a.wait_ns == 0,
            a.op is Probe,
    {
        Action { wait_ns: 0, op: Operation::Probe }
    }

    /// Hands out the next record and the wait before it.
    fn emit(&mut self, elapsed_ns: u64, extra_ns: u64) -> (a: Action)
        ensures
            final(self).phase == old(self).phase,
            final(self).rate == old(self).rate,
            final(self).origin_ns == old(self).origin_ns,
            final(self).last_id == next_id(old(self).last_id),
            final(self).emitted as nat == sat_add(old(self).emitted as nat, 1),
            a.op is Send,
            a.op->record@ == alert_record(final(self).last_id as nat),
            a.wait_ns as nat == sat_add(
                paced_wait(
                    old(self).rate,
                    old(self).emitted,
                    if elapsed_ns >= old(self).origin_ns {
                        (elapsed_ns - old(self).origin_ns) as nat
                    } else {
                        0
                    },
                ),
                extra_ns as nat,
            ),
    {
        let since: u64 = if elapsed_ns >= self.origin_ns {
            elapsed_ns - self.origin_ns
        } else {
            0
        };
        let pace: u64 = pacing_delay_ns(self.rate, self.emitted, since);
        let wait: u64 = if pace > u64::MAX - extra_ns {
            u64::MAX
        } else {
            pace + extra_ns
        };
        self.last_id = if self.last_id == u64::MAX {
            0
        } else {
            self.last_id + 1
        };
        if self.emitted < u64::MAX {
            self.emitted = self.emitted + 1;
        }
        Action { wait_ns: wait, op: Operation::Send { record: render_alert(self.last_id) } }
    }

    /// Takes the outcome of the last piece of work (`ok`: the endpoint
    /// exists, the connection opened, or the write went through) and the
    /// time elapsed on the caller's clock, and returns the next piece of
    /// work.
    ///
    /// Connection trouble is never fatal: probes and first connections are
    /// retried every [`RETRY_WAIT_NS`]; a failed write is followed by an
    /// immediate reconnection; a failed reconnection drops that record and
    /// waits [`FAILED_RECONNECT_WAIT_NS`] more before the next one.
    pub fn step(&mut self, ok: bool, elapsed_ns: u64) -> (a: Action)
        ensures
            final(self).phase == next_phase(old(self).phase, ok),
            final(self).rate == old(self).rate,
            old(self).phase == Phase::AwaitEndpoint && !ok ==> a.op is Probe && a.wait_ns
                == RETRY_WAIT_NS,
            old(self).phase == Phase::AwaitEndpoint && ok ==> a.op is Connect && a.wait_ns == 0,
            old(self).phase == Phase::Connecting && !ok ==> a.op is Connect && a.wait_ns
                == RETRY_WAIT_NS,
            old(self).phase == Phase::Emitting && !ok ==> a.op is Connect && a.wait_ns == 0,
            !emits(old(self).phase, ok) ==> final(self).last_id == old(self).last_id
                && final(self).emitted == old(self).emitted && final(self).origin_ns == old(
                self,
            ).origin_ns,
            old(self).phase == Phase::Connecting && ok ==> final(self).origin_ns == elapsed_ns,
            old(self).phase != Phase::Connecting ==> final(self).origin_ns == old(self).origin_ns,
            emits(old(self).phase, ok) ==> ({
                let since: nat = if elapsed_ns >= final(self).origin_ns {
                    (elapsed_ns - final(self).origin_ns) as nat
                } else {
                    0
                };
                let before: u64 = if old(self).phase == Phase::Connecting {
                    0
                } else {
                    old(self).emitted
                };
                let extra: nat = if old(self).phase == Phase::Reconnecting && !ok {
                    FAILED_RECONNECT_WAIT_NS as nat
                } else {
                    0
                };
                &&& final(self).last_id == next_id(old(self).last_id)
                &&& final(self).emitted as nat == sat_add(before as nat, 1)
                &&& a.op is Send
                &&& a.op->record@ == alert_record(final(self).last_id as nat)
                &&& a.wait_ns as nat == sat_add(paced_wait(old(self).rate, before, since), extra)
            }),
    {
        match self.phase {
            Phase::AwaitEndpoint => {
                if ok {
                    self.phase = Phase::Connecting;
                    Action { wait_ns: 0, op: Operation::Connect }
                } else {
                    Action { wait_ns: RETRY_WAIT_NS, op: Operation::Probe }
                }
            },
            Phase::Connecting => {
                if ok {
                    self.phase = Phase::Emitting;
                    self.origin_ns = elapsed_ns;
                    self.emitted = 0;
                    self.emit(elapsed_ns, 0)
                } else {
                    Action { wait_ns: RETRY_WAIT_NS, op: Operation::Connect }
                }
            },
            Phase::Emitting => {
                if ok {
                    self.emit(elapsed_ns, 0)
                } else {
                    self.phase = Phase::Reconnecting;
                    Action { wait_ns: 0, op: Operation::Connect }
                }
            },
            Phase::Reconnecting => {
                self.phase = Phase::Emitting;
                if ok {
                    self.emit(elapsed_ns, 0)
                } else {
                    self.emit(elapsed_ns, FAILED_RECONNECT_WAIT_NS)
                }
            },
        }
    }
}

/// No outcome ends the generator, and from any phase two successful pieces
/// of work in a row bring it back to writing records: an endpoint that
/// disappears and reappears is written to again without a restart.
pub proof fn lemma_resumes_after_success(p: Phase)
    ensures
        next_phase(next_phase(p, true), true) == Phase::Emitting,
        next_phase(p, false) != Phase::AwaitEndpoint || p == Phase::AwaitEndpoint,
{
}

/// A failed write is followed by a reconnection, after which a record is
/// written whatever the reconnection yielded.
pub proof fn lemma_failed_write_not_fatal(reconnected: bool)
    ensures
        next_phase(Phase::Emitting, false) == Phase::Reconnecting,
        emits(Phase::Reconnecting, reconnected),
{
}

proof fn lemma_ids_consecutive(start: u64, ids: Seq<u64>, k: int)
    requires
        ids.len() > 0 ==> ids[0] == next_id(start),
        forall|i: int| 0 <= i < ids.len() - 1 ==> #[trigger] ids[i + 1] == next_id(ids[i]),
        start + ids.len() <= u64::MAX,
        0 <= k < ids.len(),
    ensures
        ids[k] == start + k + 1,
    decreases k,
{
    if k > 0 {
        lemma_ids_consecutive(start, ids, k - 1);
        assert(ids[(k - 1) + 1] == next_id(ids[k - 1]));
    }
}

/// The identifiers of records handed out one after another, starting from
/// last identifier `start`, strictly increase as long as they do not wrap.
pub proof fn lemma_ids_strictly_increase(start: u64, ids: Seq<u64>)
    requires
        ids.len() > 0 ==> ids[0] == next_id(start),
        forall|i: int| 0 <= i < ids.len() - 1 ==> #[trigger] ids[i + 1] == next_id(ids[i]),
        start + ids.len() <= u64::MAX,
    ensures
        forall|i: int, j: int| 0 <= i < j < ids.len() ==> ids[i] < ids[j],
{
    assert forall|i: int, j: int| 0 <= i < j < ids.len() implies ids[i] < ids[j] by {
        lemma_ids_consecutive(start, ids, i);
        lemma_ids_consecutive(start, ids, j);
    }
}

} // verus!

use vstd::prelude::*;

verus! {

/// Nanoseconds in one second.
pub const NANOS_PER_SEC: u64 = 1_000_000_000;

/// Spacing between consecutive records at `rate` records per second; zero
/// when the rate is unlimited.
pub open spec fn interval_ns(rate: nat) -> nat {
    if rate == 0 {
        0
    } else {
        1_000_000_000nat / rate
    }
}

/// Time, measured from the start of emission, at which record number
/// `index` (counting from zero) becomes due.
pub open spec fn due_ns(rate: nat, index: nat) -> nat {
    index * interval_ns(rate)
}

/// How long to wait before record number `index` when `elapsed` nanoseconds
/// have passed since emission started.
pub open spec fn pacing_delay(rate: nat, index: nat, elapsed: nat) -> nat {
    if due_ns(rate, index) > elapsed {
        (due_ns(rate, index) - elapsed) as nat
    } else {
        0
    }
}

/// Wait before record number `index`, `elapsed_ns` after emission started,
/// so that records leave at a fixed interval of one second divided by `rate`.
/// A rate of zero means no pacing. A wait beyond `u64::MAX` is cut to it.
pub fn pacing_delay_ns(rate: u64, index: u64, elapsed_ns: u64) -> (d: u64)
    ensures
        d as nat == if pacing_delay(rate as nat, index as nat, elapsed_ns as nat) > u64::MAX {
            u64::MAX as nat
        } else {
            pacing_delay(rate as nat, index as nat, elapsed_ns as nat)
        },
        rate == 0 ==> d == 0,
{
    if rate == 0 {
        return 0;
    }
    let interval: u64 = NANOS_PER_SEC / rate;
    assert(interval as nat == interval_ns(rate as nat));
    assert((index as nat) * (interval as nat) <= 0xffff_ffff_ffff_ffffnat * 1_000_000_000nat)
        by (nonlinear_arith)
        requires
            interval <= 1_000_000_000,
    ;
    let due: u128 = (index as u128) * (interval as u128);
    if due > elapsed_ns as u128 {
        let gap: u128 = due - elapsed_ns as u128;
        if gap > u64::MAX as u128 {
            u64::MAX
        } else {
            gap as u64
        }
    } else {
        0
    }
}

/// Pacing bounds throughput: when each record leaves no earlier than it is
/// due, the records sent by time `t` number at most `t / interval + 1`.
pub proof fn lemma_paced_count_bound(rate: nat, sent_at: Seq<nat>, t: nat)
    requires
        rate > 0,
        rate <= 1_000_000_000,
        sent_at.len() > 0,
        forall|k: int| 0 <= k < sent_at.len() ==> #[trigger] sent_at[k] >= due_ns(rate, k as nat),
        sent_at.last() <= t,
    ensures
        sent_at.len() <= t / interval_ns(rate) + 1,
{
    let n = sent_at.len();
    let i = interval_ns(rate);
    assert(i >= 1) by (nonlinear_arith)
        requires
            i == 1_000_000_000nat / rate,
            rate <= 1_000_000_000,
            rate > 0,
    ;
    assert(sent_at[n - 1] >= due_ns(rate, (n - 1) as nat));
    let m: nat = (n - 1) as nat;
    assert(m * i <= t);
    assert(m <= t / i) by (nonlinear_arith)
        requires
            m * i <= t,
            i >= 1,
    ;
}

} // verus!

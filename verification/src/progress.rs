//! Clone-progress pipeline: percent computation, phase classification, and
//! the rate limiter that decides which transfer-progress ticks are forwarded
//! to the host. Emission is gated by elapsed time since the last emission or
//! by a strict advance of the percentage.

use vstd::prelude::*;
use vstd::string::*;

verus! {

/// Milliseconds that must elapse between two emissions that do not advance
/// the percentage.
pub const EMIT_INTERVAL_MS: u64 = 100;

/// One progress record forwarded to the host.
pub struct CloneProgress {
    /// `"receiving"`, `"resolving"` or `"done"`.
    pub phase: String,
    /// Received-object counter at emission time.
    pub current: u32,
    /// Total-object counter at emission time.
    pub total: u32,
    /// `⌊100·current/total⌋` when `total > 0`, else `0`, clamped to `u32`.
    pub percent: u32,
}

/// Phase of a clone.
#[derive(Clone, Copy, Debug, PartialEq, Eq, Structural)]
pub enum Phase {
    Receiving,
    Resolving,
    Done,
}

/// The phase of a tick: receiving while objects are outstanding, resolving
/// while deltas are outstanding, otherwise done.
pub open spec fn phase_spec(
    received: u32,
    total: u32,
    indexed_deltas: u32,
    total_deltas: u32,
) -> Phase {
    if received < total {
        Phase::Receiving
    } else if indexed_deltas < total_deltas {
        Phase::Resolving
    } else {
        Phase::Done
    }
}

/// The label of a phase.
pub open spec fn phase_label_spec(p: Phase) -> Seq<char> {
    match p {
        Phase::Receiving => "receiving"@,
        Phase::Resolving => "resolving"@,
        Phase::Done => "done"@,
    }
}

/// `⌊100·received/total⌋` when `total > 0`, else `0`.
pub open spec fn percent_exact(received: u32, total: u32) -> int {
    if total == 0 {
        0
    } else {
        (100 * received) / (total as int)
    }
}

/// The exact percentage, clamped into `u32`. The clamp only matters when the
/// received counter exceeds the total, which a well-behaved transfer never
/// reports.
pub open spec fn percent_spec(received: u32, total: u32) -> u32 {
    if percent_exact(received, total) > u32::MAX {
        u32::MAX
    } else {
        percent_exact(received, total) as u32
    }
}

/// Compute the clamped percentage of a tick.
pub fn compute_percent(received: u32, total: u32) -> (r: u32)
    ensures
        r == percent_spec(received, total),
        received <= total && total > 0 ==> r <= 100,
{
    if total == 0 {
        0
    } else {
        let q: u64 = (100u64 * received as u64) / (total as u64);
        proof {
            assert(q == percent_exact(received, total));
            if received <= total {
                assert(100 * (received as int) <= 100 * (total as int)) by (nonlinear_arith)
                    requires
                        received <= total,
                ;
                assert(100 * (received as int) / (total as int) <= 100 * (total as int) / (
                total as int)) by (nonlinear_arith)
                    requires
                        total > 0 && 100 * (received as int) <= 100 * (total as int),
                ;
                assert(100 * (total as int) / (total as int) == 100) by (nonlinear_arith)
                    requires
                        total > 0,
                ;
            }
        }
        if q > u32::MAX as u64 {
            u32::MAX
        } else {
            q as u32
        }
    }
}

/// Classify the phase of a tick.
pub fn classify_phase(received: u32, total: u32, indexed_deltas: u32, total_deltas: u32) -> (r:
    Phase)
    ensures
        r == phase_spec(received, total, indexed_deltas, total_deltas),
{
    if received < total {
        Phase::Receiving
    } else if indexed_deltas < total_deltas {
        Phase::Resolving
    } else {
        Phase::Done
    }
}

/// The label of a phase.
pub fn phase_label(p: Phase) -> (r: String)
    ensures
        r@ == phase_label_spec(p),
{
    match p {
        Phase::Receiving => String::from_str("receiving"),
        Phase::Resolving => String::from_str("resolving"),
        Phase::Done => String::from_str("done"),
    }
}

/// The emission rule: a tick is forwarded iff at least `EMIT_INTERVAL_MS`
/// milliseconds have elapsed since the last emission, or its percentage
/// strictly exceeds the last emitted percentage.
pub open spec fn should_emit_spec(last_percent: u32, percent: u32, elapsed_ms: u64) -> bool {
    elapsed_ms >= EMIT_INTERVAL_MS || percent > last_percent
}

/// Rate limiter for progress emission. It records the percentage of the last
/// emitted record; the caller measures the time since the last emission and
/// passes it in with each tick.
pub struct ProgressTracker {
    /// Percentage carried by the last emitted record; initially zero.
    pub last_percent: u32,
}

impl ProgressTracker {
    /// A fresh tracker, as used at the start of a clone.
    pub fn new() -> (r: Self)
        ensures
            r.last_percent == 0,
    {
        ProgressTracker { last_percent: 0 }
    }

    /// Decide one transfer-progress tick: emit a record iff the emission rule
    /// fires, and record the emitted percentage; otherwise leave the tracker
    /// unchanged and drop the tick.
    pub fn observe(
        &mut self,
        received: u32,
        total: u32,
        indexed_deltas: u32,
        total_deltas: u32,
        elapsed_ms: u64,
    ) -> (r: Option<CloneProgress>)
        ensures
            r is Some <==> should_emit_spec(
                old(self).last_percent,
                percent_spec(received, total),
                elapsed_ms,
            ),
            r matches Some(p) ==> {
                &&& p.phase@ == phase_label_spec(
                    phase_spec(received, total, indexed_deltas, total_deltas),
                )
                &&& p.current == received
                &&& p.total == total
                &&& p.percent == percent_spec(received, total)
                &&& final(self).last_percent == p.percent
            },
            r is None ==> final(self).last_percent == old(self).last_percent,
    {
        let percent: u32 = compute_percent(received, total);
        if elapsed_ms >= EMIT_INTERVAL_MS || percent > self.last_percent {
            self.last_percent = percent;
            let phase = classify_phase(received, total, indexed_deltas, total_deltas);
            Some(
                CloneProgress {
                    phase: phase_label(phase),
                    current: received,
                    total: total,
                    percent: percent,
                },
            )
        } else {
            None
        }
    }
}

/// One transfer-progress tick, as the rate limiter sees it.
pub struct Tick {
    pub received: u32,
    pub total: u32,
    pub indexed_deltas: u32,
    pub total_deltas: u32,
    pub elapsed_ms: u64,
}

/// The percentage of a tick.
pub open spec fn tick_percent(t: Tick) -> u32 {
    percent_spec(t.received, t.total)
}

/// The percentages of the records that the rate limiter emits when it runs
/// over `ticks` starting from last emitted percentage `last`.
pub open spec fn emitted_percents(ticks: Seq<Tick>, last: u32) -> Seq<u32>
    decreases ticks.len(),
{
    if ticks.len() == 0 {
        Seq::empty()
    } else {
        let p: u32 = tick_percent(ticks[0]);
        if should_emit_spec(last, p, ticks[0].elapsed_ms) {
            seq![p] + emitted_percents(ticks.skip(1), p)
        } else {
            emitted_percents(ticks.skip(1), last)
        }
    }
}

/// Law: over any tick sequence whose percentages never decrease and never
/// fall below the last emitted percentage, the emitted percentages are
/// non-decreasing, and never below that starting percentage.
pub proof fn lemma_emitted_percents_monotone(ticks: Seq<Tick>, last: u32)
    requires
        forall|i: int, j: int|
            0 <= i <= j < ticks.len() ==> tick_percent(ticks[i]) <= tick_percent(ticks[j]),
        forall|i: int| 0 <= i < ticks.len() ==> last <= tick_percent(ticks[i]),
    ensures
        forall|i: int, j: int|
            0 <= i <= j < emitted_percents(ticks, last).len() ==> emitted_percents(ticks, last)[i]
                <= emitted_percents(ticks, last)[j],
        forall|i: int|
            0 <= i < emitted_percents(ticks, last).len() ==> last <= emitted_percents(
                ticks,
                last,
            )[i],
    decreases ticks.len(),
{
    if ticks.len() == 0 {
    } else {
        let p: u32 = tick_percent(ticks[0]);
        let rest = ticks.skip(1);
        assert(forall|i: int| 0 <= i < rest.len() ==> rest[i] == ticks[i + 1]);
        if should_emit_spec(last, p, ticks[0].elapsed_ms) {
            lemma_emitted_percents_monotone(rest, p);
            let e = emitted_percents(ticks, last);
            let er = emitted_percents(rest, p);
            assert(e == seq![p] + er);
            assert(forall|i: int| 0 <= i < er.len() ==> e[i + 1] == er[i]);
            assert forall|i: int, j: int| 0 <= i <= j < e.len() implies e[i] <= e[j] by {
                if 0 < i {
                    assert(e[i] == er[i - 1] && e[j] == er[j - 1]);
                } else if 0 < j {
                    assert(e[j] == er[j - 1]);
                    assert(p <= er[j - 1]);
                }
            }
        } else {
            lemma_emitted_percents_monotone(rest, last);
        }
    }
}

} // verus!

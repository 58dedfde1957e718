//! Counting bytes and holding back reports of progress.

use vstd::prelude::*;

verus! {

/// The sum of two byte counts, held at the greatest count that can be told.
pub open spec fn add_capped(a: u64, b: u64) -> u64 {
    if a + b > u64::MAX {
        u64::MAX
    } else {
        (a + b) as u64
    }
}

/// A count of any size, held at the greatest count that can be told.
pub open spec fn capped(n: int) -> u64 {
    if n > u64::MAX {
        u64::MAX
    } else if n < 0 {
        0
    } else {
        n as u64
    }
}

/// The sum of two byte counts, held at the greatest count that can be told.
pub fn capped_sum(a: u64, b: u64) -> (r: u64)
    ensures
        r == add_capped(a, b),
{
    if a > u64::MAX - b {
        u64::MAX
    } else {
        a + b
    }
}

/// The time, in milliseconds, that passes between two reports at least.
pub const REPORT_PERIOD_MS: u64 = 1000;

/// The time from which the next report is let through, after one was let
/// through at `now`: a period later, or `now` itself where the clock cannot
/// tell a period later.
pub open spec fn next_report_after(now: u64) -> u64 {
    if now + REPORT_PERIOD_MS > u64::MAX {
        now
    } else {
        (now + REPORT_PERIOD_MS) as u64
    }
}

/// A gate that lets a report through once a period at most. Times are
/// milliseconds on a clock that never runs backwards.
#[derive(Debug, Clone, Copy, PartialEq, Eq, Structural)]
pub struct ProgressGate {
    /// The time from which the next report is let through.
    pub next_report: u64,
}

impl ProgressGate {
    /// A gate that lets the first report through whenever it comes.
    pub fn new() -> (r: ProgressGate)
        ensures
            r.next_report == 0,
    {
        ProgressGate { next_report: 0 }
    }

    /// Is a report let through at `now`?
    pub open spec fn lets_through(self, now: u64) -> bool {
        now >= self.next_report
    }

    /// The state that follows when a report is offered at `now`.
    pub open spec fn after(self, now: u64) -> ProgressGate {
        if self.lets_through(now) {
            ProgressGate { next_report: next_report_after(now) }
        } else {
            self
        }
    }

    /// Offers a report at `now`: tells whether it is let through, and if so
    /// holds back those of the period that follows.
    pub fn offer(&mut self, now: u64) -> (r: bool)
        ensures
            r == old(self).lets_through(now),
            *final(self) == old(self).after(now),
    {
        if now >= self.next_report {
            self.next_report = match now.checked_add(REPORT_PERIOD_MS) {
                Some(next) => next,
                None => now,
            };
            true
        } else {
            false
        }
    }
}

/// After a report was let through at `first`, none is let through before a
/// period has passed.
pub proof fn lemma_gate_holds_back(gate: ProgressGate, first: u64, second: u64)
    requires
        gate.lets_through(first),
        first <= second,
        second < first + REPORT_PERIOD_MS,
        first + REPORT_PERIOD_MS <= u64::MAX,
    ensures
        !gate.after(first).lets_through(second),
{
}

impl ProgressGate {
    /// The state after a report was offered at each of `times` in turn.
    pub open spec fn after_all(self, times: Seq<u64>) -> ProgressGate
        decreases times.len(),
    {
        if times.len() == 0 {
            self
        } else {
            self.after_all(times.drop_last()).after(times.last())
        }
    }

    /// Those of `times` at which the report offered is let through, when
    /// one is offered at each of them in turn.
    pub open spec fn passed(self, times: Seq<u64>) -> Seq<u64>
        decreases times.len(),
    {
        if times.len() == 0 {
            Seq::empty()
        } else if self.after_all(times.drop_last()).lets_through(times.last()) {
            self.passed(times.drop_last()).push(times.last())
        } else {
            self.passed(times.drop_last())
        }
    }
}

/// Do the times never run backwards, and can the clock tell a period later
/// than each of them?
pub open spec fn clock_runs_on(times: Seq<u64>) -> bool {
    &&& forall|i: int, j: int| 0 <= i <= j < times.len() ==> times[i] <= times[j]
    &&& forall|i: int| 0 <= i < times.len() ==> times[i] + REPORT_PERIOD_MS <= u64::MAX
}

/// On a clock that never runs backwards, any two reports that are let
/// through lie a period apart at least: there is one report a second at most.
pub proof fn lemma_reports_lie_a_period_apart(gate: ProgressGate, times: Seq<u64>)
    requires
        clock_runs_on(times),
    ensures
        forall|i: int, j: int|
            0 <= i < j < gate.passed(times).len() ==> gate.passed(times)[i] + REPORT_PERIOD_MS
                <= gate.passed(times)[j],
        gate.passed(times).len() > 0 ==> gate.after_all(times).next_report == gate.passed(
            times,
        ).last() + REPORT_PERIOD_MS,
        forall|i: int|
            0 <= i < gate.passed(times).len() && times.len() > 0 ==> gate.passed(times)[i]
                <= times.last(),
    decreases times.len(),
{
    if times.len() > 0 {
        let earlier = times.drop_last();
        assert(clock_runs_on(earlier)) by {
            assert forall|i: int, j: int| 0 <= i <= j < earlier.len() implies earlier[i]
                <= earlier[j] by {
                assert(earlier[i] == times[i] && earlier[j] == times[j]);
            }
            assert forall|i: int| 0 <= i < earlier.len() implies earlier[i] + REPORT_PERIOD_MS
                <= u64::MAX by {
                assert(earlier[i] == times[i]);
            }
        }
        lemma_reports_lie_a_period_apart(gate, earlier);
        let before = gate.passed(earlier);
        let now = times.last();
        if earlier.len() > 0 {
            assert(earlier.last() == times[times.len() - 2]);
            assert(earlier.last() <= now);
        }
        if gate.after_all(earlier).lets_through(now) {
            let all = before.push(now);
            assert forall|i: int, j: int| 0 <= i < j < all.len() implies all[i]
                + REPORT_PERIOD_MS <= all[j] by {
                if j == before.len() {
                    assert(all[i] == before[i]);
                    if i < before.len() - 1 {
                        assert(before[i] + REPORT_PERIOD_MS <= before[before.len() - 1]);
                    }
                } else {
                    assert(all[i] == before[i] && all[j] == before[j]);
                }
            }
        }
    }
}

/// Adding one count after another, capped each time, gives the capped sum.
pub proof fn lemma_add_capped_is_capped_sum(total: int, a: u64)
    requires
        total >= 0,
    ensures
        add_capped(capped(total), a) == capped(total + a),
{
}

} // verus!

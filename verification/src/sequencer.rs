//! The period sequencer: the ordered, finite, restartable sequence of
//! simulation instants between a start and an end bound at a fixed step.
//!
//! The sequence begins at the start bound and yields an instant every `step`
//! seconds while the instant lies strictly before the end bound (a
//! closed-open period: the end bound itself is never yielded).

use vstd::prelude::*;
use vstd::arithmetic::div_mod::lemma_fundamental_div_mod;
use vstd::arithmetic::mul::lemma_mul_inequality;
use crate::instant::{instant_of_seconds, Instant, SECONDS_PER_YEAR};

verus! {

/// How many instants the period from `start_s` to `end_s` (seconds of the
/// year) holds at a step of `step_s` seconds: zero for an empty or inverted
/// period, otherwise the number of steps that fit strictly before the end.
pub open spec fn period_count(start_s: int, end_s: int, step_s: int) -> int {
    if start_s >= end_s {
        0
    } else {
        (end_s - start_s + step_s - 1) / step_s
    }
}

/// The second of the year of the `k`-th instant of a period.
pub open spec fn period_instant(start_s: int, step_s: int, k: int) -> int {
    start_s + k * step_s
}

/// The count is the least number of steps that reaches the end bound: every
/// earlier multiple of the step falls short of the period's length.
proof fn lemma_count_window(d: int, step: int)
    requires
        1 <= d,
        1 <= step,
    ensures
        1 <= (d + step - 1) / step,
        d <= ((d + step - 1) / step) * step,
        (((d + step - 1) / step) - 1) * step < d,
{
    let q = (d + step - 1) / step;
    lemma_fundamental_div_mod(d + step - 1, step);
    assert(step * q == q * step) by (nonlinear_arith);
    assert(step * (q - 1) == q * step - step) by (nonlinear_arith);
    assert(1 <= q) by (nonlinear_arith)
        requires
            d <= q * step,
            1 <= d,
            1 <= step,
    ;
}

/// Position `j` of a period lies strictly before the end bound exactly when
/// `j` is below the period's count.
pub proof fn lemma_yield_window(start_s: int, end_s: int, step_s: int, j: int)
    requires
        1 <= step_s,
        0 <= j,
    ensures
        j < period_count(start_s, end_s, step_s)
            <==> period_instant(start_s, step_s, j) < end_s,
{
    if start_s >= end_s {
        assert(j * step_s >= 0) by (nonlinear_arith)
            requires 0 <= j && 1 <= step_s;
    } else {
        let d = end_s - start_s;
        let q = (d + step_s - 1) / step_s;
        lemma_count_window(d, step_s);
        if j < q {
            lemma_mul_inequality(j, q - 1, step_s);
        }
        if j >= q {
            lemma_mul_inequality(q, j, step_s);
        }
    }
}

/// Ordering law: for any valid period, the sequencer's instants are
/// strictly increasing, the first equals the start bound, every yielded
/// instant lies strictly before the end bound, and stepping never overshoots
/// the end bound by a full step: the first instant at or past the end lies
/// less than one step beyond it.
pub proof fn lemma_period_ordering(start_s: int, end_s: int, step_s: int)
    requires
        1 <= step_s,
        start_s < end_s,
    ensures
        period_instant(start_s, step_s, 0) == start_s,
        forall|j: int| 0 <= j ==> period_instant(start_s, step_s, j)
            < #[trigger] period_instant(start_s, step_s, j + 1),
        forall|j: int| 0 <= j < period_count(start_s, end_s, step_s)
            ==> #[trigger] period_instant(start_s, step_s, j) < end_s,
        period_count(start_s, end_s, step_s) >= 1,
        end_s <= period_instant(start_s, step_s, period_count(start_s, end_s, step_s)),
        period_instant(start_s, step_s, period_count(start_s, end_s, step_s)) < end_s + step_s,
{
    let q = period_count(start_s, end_s, step_s);
    lemma_count_window(end_s - start_s, step_s);
    assert forall|j: int| 0 <= j implies period_instant(start_s, step_s, j)
        < #[trigger] period_instant(start_s, step_s, j + 1) by {
        assert((j + 1) * step_s == j * step_s + step_s) by (nonlinear_arith);
    }
    assert forall|j: int| 0 <= j < q
        implies #[trigger] period_instant(start_s, step_s, j) < end_s by {
        lemma_yield_window(start_s, end_s, step_s, j);
    }
    assert((q - 1) * step_s == q * step_s - step_s) by (nonlinear_arith);
}

/// The lazy, restartable producer of a period's instants.
pub struct PeriodSequencer {
    start_second: u64,
    end_second: u64,
    step_seconds: u64,
    yielded: u64,
}

impl PeriodSequencer {
    /// The period's bounds and step never change after construction, and
    /// the position never runs past the period's count.
    pub closed spec fn wf(self) -> bool {
        &&& 1 <= self.step_seconds <= SECONDS_PER_YEAR
        &&& self.end_second <= SECONDS_PER_YEAR
        &&& self.start_second <= SECONDS_PER_YEAR
        &&& self.yielded <= period_count(self.start_second as int, self.end_second as int, self.step_seconds as int)
    }

    /// Second of the year the period starts at.
    pub closed spec fn start_spec(self) -> int {
        self.start_second as int
    }

    /// Second of the year the period ends at (itself never yielded).
    pub closed spec fn end_spec(self) -> int {
        self.end_second as int
    }

    /// Step between consecutive instants, in seconds.
    pub closed spec fn step_spec(self) -> int {
        self.step_seconds as int
    }

    /// How many instants were yielded so far.
    pub closed spec fn position(self) -> int {
        self.yielded as int
    }

    /// Total number of instants this sequencer yields.
    pub open spec fn count(self) -> int {
        period_count(self.start_spec(), self.end_spec(), self.step_spec())
    }

    /// Builds the sequencer for the period between two instants at a step
    /// of `step_seconds`.
    pub fn new(start: &Instant, end: &Instant, step_seconds: u64) -> (r: PeriodSequencer)
        requires
            start.wf(),
            end.wf(),
            1 <= step_seconds <= SECONDS_PER_YEAR,
        ensures
            r.wf(),
            r.start_spec() == start.total_seconds(),
            r.end_spec() == end.total_seconds(),
            r.step_spec() == step_seconds,
            r.position() == 0,
    {
        let r = PeriodSequencer {
            start_second: start.to_total_seconds(),
            end_second: end.to_total_seconds(),
            step_seconds,
            yielded: 0,
        };
        proof {
            if r.start_second < r.end_second {
                lemma_count_window(r.end_second - r.start_second, step_seconds as int);
            }
        }
        r
    }

    /// Whether another instant remains.
    pub fn has_next(&self) -> (r: bool)
        requires
            self.wf(),
        ensures
            r == (self.position() < self.count()),
    {
        proof {
            lemma_yield_window(self.start_spec(), self.end_spec(), self.step_spec(), self.position());
            let y = self.yielded as int;
            let st = self.step_seconds as int;
            assert(0 <= y * st <= 0xFFFF_FFFF_FFFF_FFFF * 0xFFFF_FFFF_FFFF_FFFF) by (nonlinear_arith)
                requires
                    0 <= y <= 0xFFFF_FFFF_FFFF_FFFF,
                    0 <= st <= 0xFFFF_FFFF_FFFF_FFFF,
            ;
        }
        let position_second: u128 = self.start_second as u128
            + self.yielded as u128 * self.step_seconds as u128;
        position_second < self.end_second as u128
    }

    /// Yields the next instant of the period, or nothing once the period is
    /// exhausted.
    pub fn next_instant(&mut self) -> (r: Option<Instant>)
        requires
            old(self).wf(),
        ensures
            final(self).wf(),
            final(self).start_spec() == old(self).start_spec(),
            final(self).end_spec() == old(self).end_spec(),
            final(self).step_spec() == old(self).step_spec(),
            old(self).position() < old(self).count() ==> {
                &&& final(self).position() == old(self).position() + 1
                &&& r matches Some(i)
                    && i == instant_of_seconds(period_instant(old(self).start_spec(), old(self).step_spec(), old(self).position()))
                    && i.wf()
                    && i.total_seconds() == period_instant(old(self).start_spec(), old(self).step_spec(), old(self).position())
            },
            old(self).position() >= old(self).count() ==> r is None && *final(self) == *old(self),
    {
        if self.has_next() {
            proof {
                lemma_yield_window(self.start_spec(), self.end_spec(), self.step_spec(), self.position());
                lemma_mul_inequality(self.yielded as int, self.count() - 1, self.step_spec());
                if self.start_spec() < self.end_spec() {
                    lemma_count_window(self.end_spec() - self.start_spec(), self.step_spec());
                }
            }
            let cur: u64 = self.start_second + self.yielded * self.step_seconds;
            let instant = Instant::from_total_seconds(cur);
            self.yielded = self.yielded + 1;
            Some(instant)
        } else {
            None
        }
    }

    /// Restarts the sequence from the period's beginning.
    pub fn reset(&mut self)
        requires
            old(self).wf(),
        ensures
            final(self).wf(),
            final(self).start_spec() == old(self).start_spec(),
            final(self).end_spec() == old(self).end_spec(),
            final(self).step_spec() == old(self).step_spec(),
            final(self).position() == 0,
    {
        self.yielded = 0;
    }
}

} // verus!

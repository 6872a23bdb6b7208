use vstd::prelude::*;

verus! {

/// The fixed-rate update scheduler. Time is a monotonic clock reading in
/// nanoseconds, supplied by the host on every poll. The scheduler fires at
/// most once per poll: when at least one interval has elapsed since the
/// last scheduled tick, it advances the schedule by exactly one interval —
/// measured from the previously scheduled time, not from "now", so no
/// drift accumulates, and a long stall is caught up at most one tick per
/// poll instead of in a burst.
pub struct UpdateScheduler {
    /// Nanoseconds per simulation step.
    pub interval: u64,
    /// The scheduled time of the most recent tick.
    pub last_update: u64,
    /// While paused, ticks still fire but the simulation is not stepped.
    pub paused: bool,
}

/// One poll at time `now`: whether the tick fires, and the scheduler
/// afterwards.
pub open spec fn spec_poll(s: UpdateScheduler, now: u64) -> (bool, UpdateScheduler) {
    if now >= s.last_update + s.interval {
        (
            true,
            UpdateScheduler {
                interval: s.interval,
                last_update: (s.last_update + s.interval) as u64,
                paused: s.paused,
            },
        )
    } else {
        (false, s)
    }
}

/// A whole run of polls at the given times: how many fired, and the
/// scheduler afterwards.
pub open spec fn run_polls(s: UpdateScheduler, times: Seq<u64>) -> (int, UpdateScheduler)
    decreases times.len(),
{
    if times.len() == 0 {
        (0, s)
    } else {
        let (fire, s1) = spec_poll(s, times[0]);
        let (rest, sf) = run_polls(s1, times.drop_first());
        (
            if fire {
                rest + 1
            } else {
                rest
            },
            sf,
        )
    }
}

impl UpdateScheduler {
    /// A scheduler ticking `updates_per_second` times per second, with its
    /// schedule anchored at `now` and running (not paused).
    pub fn new(updates_per_second: u32, now: u64) -> (r: Self)
        requires
            updates_per_second >= 1,
        ensures
            r.interval == 1_000_000_000u64 / updates_per_second as u64,
            r.last_update == now,
            !r.paused,
    {
        UpdateScheduler {
            interval: 1_000_000_000 / (updates_per_second as u64),
            last_update: now,
            paused: false,
        }
    }

    /// One poll of the scheduler at time `now`: returns whether a tick
    /// fires. At most one interval is consumed per poll, and the schedule
    /// advances by exactly one interval from its previous scheduled time.
    pub fn poll(&mut self, now: u64) -> (fire: bool)
        requires
            old(self).last_update <= now,
        ensures
            (fire, *final(self)) == spec_poll(*old(self), now),
            fire == (now >= old(self).last_update + old(self).interval),
            fire ==> final(self).last_update == old(self).last_update + old(self).interval,
            !fire ==> final(self).last_update == old(self).last_update,
            final(self).last_update <= now,
            final(self).interval == old(self).interval,
            final(self).paused == old(self).paused,
    {
        let dt = now - self.last_update;
        if dt < self.interval {
            return false;
        }
        self.last_update = self.last_update + self.interval;
        true
    }
}

/// `(a + 1) * b == a * b + b`.
proof fn lemma_succ_mul(a: int, b: int) by (nonlinear_arith)
    ensures
        (a + 1) * b == a * b + b,
{
}

/// From `a * b <= c` with positive `b`, the floor bound `a <= c / b`.
proof fn lemma_mul_le_div(a: int, b: int, c: int) by (nonlinear_arith)
    requires
        b >= 1,
        a * b <= c,
    ensures
        a <= c / b,
{
}

/// Every fired tick advances the schedule by exactly one interval: after
/// any run of polls, the scheduled time has moved forward by the fire
/// count times the interval, and the interval and pause flag are
/// untouched.
pub proof fn lemma_run_advances_by_ticks(s: UpdateScheduler, times: Seq<u64>)
    ensures
        run_polls(s, times).0 >= 0,
        run_polls(s, times).1.last_update == s.last_update + run_polls(s, times).0 * s.interval,
        run_polls(s, times).1.interval == s.interval,
        run_polls(s, times).1.paused == s.paused,
    decreases times.len(),
{
    if times.len() == 0 {
    } else {
        let (fire, s1) = spec_poll(s, times[0]);
        lemma_run_advances_by_ticks(s1, times.drop_first());
        let rest = run_polls(s1, times.drop_first()).0;
        if fire {
            lemma_succ_mul(rest, s.interval as int);
        }
    }
}

/// No catch-up bursts: over any run of polls that all happen by time
/// `t_end`, the number of fired ticks never exceeds the number of whole
/// intervals in the elapsed span `t_end - last_update` — however many
/// intervals a stall may have skipped.
pub proof fn lemma_no_catch_up_burst(s: UpdateScheduler, times: Seq<u64>, t_end: u64)
    requires
        s.interval >= 1,
        s.last_update <= t_end,
        forall|i: int| 0 <= i < times.len() ==> #[trigger] times[i] <= t_end,
    ensures
        run_polls(s, times).1.last_update <= t_end,
        run_polls(s, times).0 * s.interval <= t_end - s.last_update,
        run_polls(s, times).0 <= (t_end - s.last_update) / (s.interval as int),
    decreases times.len(),
{
    lemma_run_advances_by_ticks(s, times);
    if times.len() == 0 {
    } else {
        let (fire, s1) = spec_poll(s, times[0]);
        assert(forall|i: int|
            0 <= i < times.drop_first().len() ==> #[trigger] times.drop_first()[i] <= t_end);
        lemma_no_catch_up_burst(s1, times.drop_first(), t_end);
        lemma_run_advances_by_ticks(s1, times.drop_first());
        let rest = run_polls(s1, times.drop_first()).0;
        if fire {
            lemma_succ_mul(rest, s.interval as int);
        }
    }
    lemma_mul_le_div(run_polls(s, times).0, s.interval as int, t_end - s.last_update);
}

/// The scheduler keeps pace: when polls arrive faster than one interval
/// apart — the first within two intervals of the schedule — the fired
/// count over a run falls short of the elapsed whole intervals by at most
/// one. Together with `lemma_no_catch_up_burst` this pins the fire count
/// over a span `D` to `floor(D / interval)` or one less.
pub proof fn lemma_keeps_pace(s: UpdateScheduler, times: Seq<u64>)
    requires
        s.interval >= 1,
        times.len() >= 1,
        times[0] < s.last_update + 2 * s.interval,
        forall|i: int|
            0 <= i < times.len() - 1 ==> #[trigger] times[i + 1] < times[i] + s.interval,
    ensures
        run_polls(s, times).1.last_update + 2 * s.interval > times[times.len() - 1],
        run_polls(s, times).0 * s.interval > times[times.len() - 1] - s.last_update - 2
            * s.interval,
        run_polls(s, times).0 >= (times[times.len() - 1] - s.last_update) / (s.interval as int)
            - 1,
    decreases times.len(),
{
    lemma_run_advances_by_ticks(s, times);
    let (fire, s1) = spec_poll(s, times[0]);
    let count = run_polls(s, times).0;
    let t_last = times[times.len() - 1];
    if times.len() == 1 {
    } else {
        let rest_times = times.drop_first();
        assert(rest_times[0] == times[1]);
        assert(times[1] < times[0] + s.interval);
        assert(forall|i: int|
            0 <= i < rest_times.len() - 1 ==> #[trigger] rest_times[i + 1] < rest_times[i]
                + s.interval) by {
            assert(forall|i: int|
                0 <= i < rest_times.len() - 1 ==> rest_times[i + 1] == times[i + 2]
                    && rest_times[i] == #[trigger] times[i + 1]);
        }
        lemma_keeps_pace(s1, rest_times);
        lemma_run_advances_by_ticks(s1, rest_times);
        assert(rest_times[rest_times.len() - 1] == t_last);
        let rest = run_polls(s1, rest_times).0;
        if fire {
            lemma_succ_mul(rest, s.interval as int);
        }
    }
    // count * interval > t_last - last - 2 * interval, so
    // (count + 2) * interval > t_last - last, hence the floor bound.
    lemma_succ_mul(count, s.interval as int);
    lemma_succ_mul(count + 1, s.interval as int);
    lemma_div_lt(t_last - s.last_update, s.interval as int, count + 2);
}

/// A dividend below `k` multiples of the divisor has a floored quotient
/// below `k`.
proof fn lemma_div_lt(d: int, t: int, k: int) by (nonlinear_arith)
    requires
        t >= 1,
        d < k * t,
    ensures
        d / t < k,
{
}

} // verus!

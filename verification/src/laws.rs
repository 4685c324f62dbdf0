//! Laws of the state machine across whole runs of ticks: a stopped timer
//! never moves, pausing freezes the countdown, elapsed-time accounting is
//! free of drift however irregularly ticks arrive, and a work period whose
//! elapsed time reaches its full duration expires into the break phase.

use vstd::prelude::*;

use crate::timer::BREAK_MILLIS;
use crate::timer::TimerState;
use crate::timer::WORK_MILLIS;
use crate::timer::pause_transition;
use crate::timer::start_state;
use crate::timer::tick_transition;

verus! {

/// The state after delivering the ticks of `nows`, in order, to `s`.
pub open spec fn run_ticks(s: TimerState, nows: Seq<u64>) -> TimerState
    decreases nows.len(),
{
    if nows.len() == 0 {
        s
    } else {
        run_ticks(tick_transition(s, nows[0]), nows.drop_first())
    }
}

/// Timestamps delivered oldest first.
pub open spec fn sorted(nows: Seq<u64>) -> bool {
    forall|i: int, j: int| 0 <= i <= j < nows.len() ==> nows[i] <= nows[j]
}

/// A timer that is not running ignores every tick: no field moves, however
/// many ticks arrive.
pub proof fn lemma_stopped_ticks_ignored(s: TimerState, nows: Seq<u64>)
    requires
        !s.running,
    ensures
        run_ticks(s, nows) == s,
    decreases nows.len(),
{
    if nows.len() > 0 {
        assert(tick_transition(s, nows[0]) == s);
        lemma_stopped_ticks_ignored(s, nows.drop_first());
    }
}

/// Pausing freezes both remaining times exactly at their last-tick values;
/// no tick delivered afterwards decrements anything; and starting again
/// begins a fresh cycle with both budgets at their full durations rather
/// than resuming.
pub proof fn lemma_pause_freezes(s: TimerState, nows: Seq<u64>, restart: u64)
    ensures
        pause_transition(s).work_remaining == s.work_remaining,
        pause_transition(s).break_remaining == s.break_remaining,
        run_ticks(pause_transition(s), nows) == pause_transition(s),
        start_state(restart).work_remaining == WORK_MILLIS,
        start_state(restart).break_remaining == BREAK_MILLIS,
{
    lemma_stopped_ticks_ignored(pause_transition(s), nows);
}

/// Delivering any run of ticks whose elapsed times stay within the current
/// work budget decrements `work_remaining` by exactly the total elapsed
/// wall-clock time — the number and spacing of the ticks is irrelevant, so
/// irregular delivery accumulates no drift.
pub proof fn lemma_drift_free(s: TimerState, nows: Seq<u64>)
    requires
        s.wf(),
        s.running,
        s.phase is Working,
        nows.len() > 0,
        s.last_tick->0 <= nows[0],
        sorted(nows),
        nows.last() - s.last_tick->0 < s.work_remaining,
    ensures
        ({
            let f = run_ticks(s, nows);
            &&& f.phase is Working
            &&& f.running
            &&& f.wf()
            &&& f.break_remaining == s.break_remaining
            &&& f.last_tick == Some(nows.last())
            &&& f.work_remaining == s.work_remaining - (nows.last() - s.last_tick->0)
        }),
    decreases nows.len(),
{
    let t = s.last_tick->0;
    let n0 = nows[0];
    assert(n0 <= nows.last());
    let s1 = tick_transition(s, n0);
    assert(s1.work_remaining == s.work_remaining - (n0 - t));
    if nows.len() == 1 {
        assert(run_ticks(s1, nows.drop_first()) == s1);
    } else {
        let sub = nows.drop_first();
        assert(forall|i: int| 0 <= i < sub.len() ==> sub[i] == nows[i + 1]);
        assert(sub.last() == nows.last());
        lemma_drift_free(s1, sub);
    }
}

/// Ticks that carry the very timestamp already on record measure zero
/// elapsed time and leave a running timer exactly as it was.
proof fn lemma_same_time_ticks(s: TimerState, nows: Seq<u64>)
    requires
        s.wf(),
        s.running,
        forall|i: int| 0 <= i < nows.len() ==> nows[i] == s.last_tick->0,
    ensures
        run_ticks(s, nows) == s,
    decreases nows.len(),
{
    if nows.len() > 0 {
        assert(tick_transition(s, nows[0]) == s);
        lemma_same_time_ticks(s, nows.drop_first());
    }
}

proof fn lemma_work_cycle_from(s: TimerState, t0: u64, nows: Seq<u64>)
    requires
        s.wf(),
        s.running,
        s.phase is Working,
        s.break_remaining == BREAK_MILLIS,
        t0 <= s.last_tick->0,
        s.last_tick->0 - t0 == WORK_MILLIS - s.work_remaining,
        nows.len() > 0,
        s.last_tick->0 <= nows[0],
        sorted(nows),
        nows.last() == t0 + WORK_MILLIS,
    ensures
        ({
            let f = run_ticks(s, nows);
            &&& f.phase is OnBreak
            &&& f.running
            &&& f.wf()
            &&& f.work_remaining == WORK_MILLIS
            &&& f.break_remaining == BREAK_MILLIS
            &&& f.last_tick == Some(nows.last())
        }),
    decreases nows.len(),
{
    let t = s.last_tick->0;
    let n0 = nows[0];
    assert(n0 <= nows.last());
    let s1 = tick_transition(s, n0);
    let sub = nows.drop_first();
    assert(forall|i: int| 0 <= i < sub.len() ==> sub[i] == nows[i + 1]);
    if n0 == t0 + WORK_MILLIS {
        // This tick exhausts the work budget exactly: the phase flips and
        // the work budget is restored. Any later ticks repeat the same
        // timestamp and change nothing.
        assert(s.work_remaining <= n0 - t);
        assert(s1.phase is OnBreak && s1.work_remaining == WORK_MILLIS);
        assert(forall|i: int| 0 <= i < sub.len() ==> sub[i] == n0);
        lemma_same_time_ticks(s1, sub);
    } else {
        // The work budget survives this tick; the consumed time grows by
        // exactly the elapsed time.
        assert(n0 - t < s.work_remaining);
        assert(s1.work_remaining == s.work_remaining - (n0 - t));
        assert(nows.len() > 1);
        assert(sub.last() == nows.last());
        lemma_work_cycle_from(s1, t0, sub);
    }
}

/// Starting the timer at `t0` and then delivering any ordered run of ticks
/// whose elapsed times sum to exactly the full work duration exhausts the
/// work budget, resets it to its full duration, and moves the machine onto
/// its break, with the break budget still untouched.
pub proof fn lemma_work_period_expires(t0: u64, nows: Seq<u64>)
    requires
        nows.len() > 0,
        t0 <= nows[0],
        sorted(nows),
        nows.last() == t0 + WORK_MILLIS,
    ensures
        ({
            let f = run_ticks(start_state(t0), nows);
            &&& f.phase is OnBreak
            &&& f.running
            &&& f.wf()
            &&& f.work_remaining == WORK_MILLIS
            &&& f.break_remaining == BREAK_MILLIS
            &&& f.last_tick == Some(nows.last())
        }),
{
    lemma_work_cycle_from(start_state(t0), t0, nows);
}

} // verus!

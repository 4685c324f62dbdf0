//! The interval timer state machine. It owns the current phase (working or
//! on break), the running flag, the remaining milliseconds of each phase and
//! the timestamp of the last processed tick. Ticks decrement the active
//! phase's remaining time by the measured elapsed wall-clock time, so
//! irregular tick delivery causes no drift; an expired phase is reset to its
//! full duration and the machine switches to the other phase.

use vstd::prelude::*;

use crate::label::label_of;
use crate::label::seconds_to_label;

verus! {

/// Full work period: twenty minutes, in milliseconds.
pub const WORK_MILLIS: u64 = 1_200_000;

/// Full break period: five minutes, in milliseconds.
pub const BREAK_MILLIS: u64 = 300_000;

/// The interval the host's recurring tick source is asked for, in
/// milliseconds. Delivery at exactly this interval is never assumed.
pub const TICK_INTERVAL_MILLIS: u64 = 1_000;

/// Which of the two countdown periods is currently active.
#[derive(Clone, Copy, PartialEq, Eq, Debug)]
pub enum Phase {
    Working,
    OnBreak,
}

/// Which operation the host must perform on its recurring tick source after
/// a button click.
#[derive(Clone, Copy, PartialEq, Eq, Debug)]
pub enum TickSourceAction {
    /// Begin delivering ticks, about one per `TICK_INTERVAL_MILLIS`.
    Start,
    /// Stop delivering ticks; stopping an already stopped source must be
    /// harmless, and the host is asked for nothing else.
    Stop,
}

/// The whole state of the interval timer. Timestamps and remaining times
/// are whole milliseconds.
#[derive(Clone, Copy, PartialEq, Eq, Debug)]
pub struct TimerState {
    /// Which period is currently counting down.
    pub phase: Phase,
    /// Whether the countdown is active.
    pub running: bool,
    /// Remaining work time in milliseconds.
    pub work_remaining: u64,
    /// Remaining break time in milliseconds.
    pub break_remaining: u64,
    /// Timestamp of the last processed tick; `None` whenever not running.
    pub last_tick: Option<u64>,
}

/// The label texts a tick asks the host to display: at most the active
/// phase's label is rewritten on any one tick.
pub struct TickOutput {
    /// New text for the work countdown label, if it changed.
    pub work_text: Option<String>,
    /// New text for the break countdown label, if it changed.
    pub break_text: Option<String>,
}

/// What a button click asks the host to do: relabel the start/pause button,
/// start or stop the tick source, and possibly rewrite the countdown labels.
pub struct ControlOutput {
    /// New text for the start/pause button.
    pub button_text: String,
    /// Whether to start or stop the recurring tick source.
    pub action: TickSourceAction,
    /// New text for the work countdown label, if any.
    pub work_text: Option<String>,
    /// New text for the break countdown label, if any.
    pub break_text: Option<String>,
}

/// The state the timer is created in and returns to on reset: stopped, in
/// the working phase, with both budgets full.
pub open spec fn initial_state() -> TimerState {
    TimerState {
        phase: Phase::Working,
        running: false,
        work_remaining: WORK_MILLIS,
        break_remaining: BREAK_MILLIS,
        last_tick: None,
    }
}

/// The state right after a fresh start at time `now`: a new full cycle from
/// the working phase, never a resume.
pub open spec fn start_state(now: u64) -> TimerState {
    TimerState {
        phase: Phase::Working,
        running: true,
        work_remaining: WORK_MILLIS,
        break_remaining: BREAK_MILLIS,
        last_tick: Some(now),
    }
}

/// Pausing halts the countdown in place: both remaining times are frozen
/// exactly as they were, only the running flag and the tick timestamp fall.
pub open spec fn pause_transition(pre: TimerState) -> TimerState {
    TimerState {
        phase: pre.phase,
        running: false,
        work_remaining: pre.work_remaining,
        break_remaining: pre.break_remaining,
        last_tick: None,
    }
}

impl Default for TimerState {
    /// The default timer is the freshly created one.
    fn default() -> (s: TimerState)
        ensures
            s == initial_state(),
            s.wf(),
    {
        TimerState::new()
    }
}

/// Milliseconds elapsed from `last` to `now`; a timestamp that did not
/// advance counts as no elapsed time.
pub open spec fn elapsed_millis(last: u64, now: u64) -> int {
    if now >= last {
        now - last
    } else {
        0
    }
}

/// Whether a tick at any time decrements the active phase of `pre`: the
/// timer must be running and a previous tick timestamp must be on record
/// (the first tick after a fresh record only measures from there).
pub open spec fn tick_decrements(pre: TimerState) -> bool {
    pre.running && pre.last_tick is Some
}

/// The state after a tick at time `now`. A stopped timer ignores the tick
/// entirely; a running one with no previous timestamp only records `now`.
/// Otherwise the active phase's remaining time falls by the elapsed time
/// since the last tick; if that exhausts it, the phase's budget is reset to
/// its full duration — the overshoot is not carried over — and the machine
/// switches to the other phase.
pub open spec fn tick_transition(pre: TimerState, now: u64) -> TimerState {
    if !pre.running {
        pre
    } else if pre.last_tick is None {
        TimerState {
            phase: pre.phase,
            running: pre.running,
            work_remaining: pre.work_remaining,
            break_remaining: pre.break_remaining,
            last_tick: Some(now),
        }
    } else {
        let e = elapsed_millis(pre.last_tick->0, now);
        match pre.phase {
            Phase::Working => {
                if pre.work_remaining <= e {
                    TimerState {
                        phase: Phase::OnBreak,
                        running: pre.running,
                        work_remaining: WORK_MILLIS,
                        break_remaining: pre.break_remaining,
                        last_tick: Some(now),
                    }
                } else {
                    TimerState {
                        phase: Phase::Working,
                        running: pre.running,
                        work_remaining: (pre.work_remaining - e) as u64,
                        break_remaining: pre.break_remaining,
                        last_tick: Some(now),
                    }
                }
            },
            Phase::OnBreak => {
                if pre.break_remaining <= e {
                    TimerState {
                        phase: Phase::Working,
                        running: pre.running,
                        work_remaining: pre.work_remaining,
                        break_remaining: BREAK_MILLIS,
                        last_tick: Some(now),
                    }
                } else {
                    TimerState {
                        phase: Phase::OnBreak,
                        running: pre.running,
                        work_remaining: pre.work_remaining,
                        break_remaining: (pre.break_remaining - e) as u64,
                        last_tick: Some(now),
                    }
                }
            },
        }
    }
}

impl TimerState {
    /// Well-formedness: each remaining time is positive and within its full
    /// duration (an expired phase is reset at once, so zero is never
    /// stored), and a last-tick timestamp is held exactly while running.
    pub open spec fn wf(self) -> bool {
        &&& 0 < self.work_remaining <= WORK_MILLIS
        &&& 0 < self.break_remaining <= BREAK_MILLIS
        &&& self.running <==> self.last_tick is Some
    }

    /// Create the timer in its initial stopped state.
    pub fn new() -> (s: TimerState)
        ensures
            s == initial_state(),
            s.wf(),
    {
        TimerState {
            phase: Phase::Working,
            running: false,
            work_remaining: WORK_MILLIS,
            break_remaining: BREAK_MILLIS,
            last_tick: None,
        }
    }

    /// Runtime check of `wf`, for unverified hosts that must guard their
    /// calls into the library.
    pub fn well_formed(&self) -> (b: bool)
        ensures
            b == self.wf(),
    {
        0 < self.work_remaining && self.work_remaining <= WORK_MILLIS && 0 < self.break_remaining
            && self.break_remaining <= BREAK_MILLIS && (self.running == self.last_tick.is_some())
    }

    /// Process one tick of the host's recurring tick source, delivered at
    /// time `now` (milliseconds of any monotonic clock). The state advances
    /// by `tick_transition`; exactly the active phase's label is rewritten
    /// whenever the tick decrements, and it shows the remaining time the
    /// tick left behind.
    pub fn on_tick(&mut self, now: u64) -> (out: TickOutput)
        requires
            old(self).wf(),
        ensures
            *final(self) == tick_transition(*old(self), now),
            final(self).wf(),
            out.work_text is Some <==> tick_decrements(*old(self)) && old(self).phase is Working,
            out.break_text is Some <==> tick_decrements(*old(self)) && old(self).phase is OnBreak,
            out.work_text matches Some(t) ==> t@ == label_of(final(self).work_remaining as nat),
            out.break_text matches Some(t) ==> t@ == label_of(
                final(self).break_remaining as nat,
            ),
    {
        if !self.running {
            return TickOutput { work_text: None, break_text: None };
        }
        let last: u64 = match self.last_tick {
            Some(t) => t,
            None => {
                self.last_tick = Some(now);
                return TickOutput { work_text: None, break_text: None };
            },
        };
        let elapsed: u64 = if now >= last {
            now - last
        } else {
            0
        };
        self.last_tick = Some(now);
        match self.phase {
            Phase::Working => {
                if self.work_remaining <= elapsed {
                    // The work period ended: switch to the break and restore
                    // the full work budget for the next cycle. The break
                    // budget is untouched and positive, so no second expiry
                    // can follow on the same tick.
                    self.phase = Phase::OnBreak;
                    self.work_remaining = WORK_MILLIS;
                } else {
                    self.work_remaining = self.work_remaining - elapsed;
                }
                TickOutput { work_text: Some(seconds_to_label(self.work_remaining)), break_text: None }
            },
            Phase::OnBreak => {
                if self.break_remaining <= elapsed {
                    // The break ended: back to work with a full break budget
                    // for the next cycle.
                    self.phase = Phase::Working;
                    self.break_remaining = BREAK_MILLIS;
                } else {
                    self.break_remaining = self.break_remaining - elapsed;
                }
                TickOutput { work_text: None, break_text: Some(seconds_to_label(self.break_remaining)) }
            },
        }
    }

    /// Handle a click of the start/pause button. A running timer pauses:
    /// both remaining times freeze in place, the tick source is to be
    /// stopped and the button reads "Start" again. A stopped timer starts a
    /// fresh full cycle — never a resume — from the working phase with both
    /// budgets full, recording `now` as the last tick; the tick source is
    /// to be started and the button reads "Pause".
    pub fn on_start_pause_click(&mut self, now: u64) -> (out: ControlOutput)
        requires
            old(self).wf(),
        ensures
            *final(self) == if old(self).running {
                pause_transition(*old(self))
            } else {
                start_state(now)
            },
            final(self).wf(),
            out.action == if old(self).running {
                TickSourceAction::Stop
            } else {
                TickSourceAction::Start
            },
            out.button_text@ == if old(self).running {
                "Start"@
            } else {
                "Pause"@
            },
            out.work_text is None,
            out.break_text is None,
    {
        if self.running {
            self.running = false;
            self.last_tick = None;
            ControlOutput {
                button_text: String::from_str("Start"),
                action: TickSourceAction::Stop,
                work_text: None,
                break_text: None,
            }
        } else {
            self.running = true;
            self.phase = Phase::Working;
            self.work_remaining = WORK_MILLIS;
            self.break_remaining = BREAK_MILLIS;
            self.last_tick = Some(now);
            ControlOutput {
                button_text: String::from_str("Pause"),
                action: TickSourceAction::Start,
                work_text: None,
                break_text: None,
            }
        }
    }

    /// Handle a click of the reset button: from any state, the timer stops
    /// in the working phase with both budgets back at their full durations,
    /// the tick source is to be stopped (harmless if already stopped), the
    /// button reads "Start" and both labels show their full durations.
    pub fn on_reset_click(&mut self) -> (out: ControlOutput)
        requires
            old(self).wf(),
        ensures
            *final(self) == initial_state(),
            final(self).wf(),
            out.action == TickSourceAction::Stop,
            out.button_text@ == "Start"@,
            out.work_text matches Some(t) && t@ == label_of(WORK_MILLIS as nat),
            out.break_text matches Some(t) && t@ == label_of(BREAK_MILLIS as nat),
    {
        self.running = false;
        self.phase = Phase::Working;
        self.work_remaining = WORK_MILLIS;
        self.break_remaining = BREAK_MILLIS;
        self.last_tick = None;
        ControlOutput {
            button_text: String::from_str("Start"),
            action: TickSourceAction::Stop,
            work_text: Some(seconds_to_label(WORK_MILLIS)),
            break_text: Some(seconds_to_label(BREAK_MILLIS)),
        }
    }
}

} // verus!

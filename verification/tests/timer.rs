use interval_timer::Phase;
use interval_timer::TimerState;
use interval_timer::timer::BREAK_MILLIS;
use interval_timer::timer::TickSourceAction;
use interval_timer::timer::WORK_MILLIS;

#[test]
fn new_timer_is_stopped_with_full_budgets() {
    let s = TimerState::new();
    assert!(!s.running);
    assert_eq!(s.phase, Phase::Working);
    assert_eq!(s.work_remaining, WORK_MILLIS);
    assert_eq!(s.break_remaining, BREAK_MILLIS);
    assert_eq!(s.last_tick, None);
}

#[test]
fn start_click_begins_a_fresh_cycle() {
    let mut s = TimerState::new();
    let out = s.on_start_pause_click(7_000);
    assert!(s.running);
    assert_eq!(s.phase, Phase::Working);
    assert_eq!(s.work_remaining, WORK_MILLIS);
    assert_eq!(s.break_remaining, BREAK_MILLIS);
    assert_eq!(s.last_tick, Some(7_000));
    assert_eq!(out.button_text, "Pause");
    assert_eq!(out.action, TickSourceAction::Start);
    assert!(out.work_text.is_none());
    assert!(out.break_text.is_none());
}

#[test]
fn tick_decrements_by_elapsed_time_and_relabels() {
    let mut s = TimerState::new();
    s.on_start_pause_click(0);
    let out = s.on_tick(1_000);
    assert_eq!(s.work_remaining, 1_199_000);
    assert_eq!(s.break_remaining, BREAK_MILLIS);
    assert_eq!(s.phase, Phase::Working);
    assert_eq!(out.work_text.as_deref(), Some("19:59"));
    assert!(out.break_text.is_none());
}

#[test]
fn irregular_ticks_accumulate_no_drift() {
    // Deltas of 0.3 s, 2.1 s and 0.9 s decrement by exactly their 3.3 s sum.
    let mut s = TimerState::new();
    s.on_start_pause_click(0);
    s.on_tick(300);
    s.on_tick(2_400);
    s.on_tick(3_300);
    assert_eq!(s.work_remaining, WORK_MILLIS - 3_300);

    // The same total elapsed time in a single coalesced tick lands on the
    // same remaining time: the tick count is irrelevant.
    let mut single = TimerState::new();
    single.on_start_pause_click(0);
    single.on_tick(3_300);
    assert_eq!(single.work_remaining, s.work_remaining);
}

#[test]
fn work_period_expires_into_break_with_reset_budget() {
    let mut s = TimerState::new();
    s.on_start_pause_click(0);
    let mut last = None;
    for i in 1..=1_200u64 {
        last = Some(s.on_tick(i * 1_000));
    }
    // Elapsed time summed to exactly the full work duration.
    assert_eq!(s.phase, Phase::OnBreak);
    assert_eq!(s.work_remaining, WORK_MILLIS);
    assert_eq!(s.break_remaining, BREAK_MILLIS);
    assert!(s.running);
    // The expiring tick rewrote the work label with the restored budget.
    let out = last.unwrap();
    assert_eq!(out.work_text.as_deref(), Some("20:00"));
    assert!(out.break_text.is_none());
}

#[test]
fn break_period_expires_back_into_work() {
    let mut s = TimerState::new();
    s.on_start_pause_click(0);
    s.on_tick(WORK_MILLIS);
    assert_eq!(s.phase, Phase::OnBreak);
    let out = s.on_tick(WORK_MILLIS + 60_000);
    assert_eq!(s.break_remaining, BREAK_MILLIS - 60_000);
    assert_eq!(out.break_text.as_deref(), Some("04:00"));
    assert!(out.work_text.is_none());
    s.on_tick(WORK_MILLIS + BREAK_MILLIS);
    assert_eq!(s.phase, Phase::Working);
    assert_eq!(s.break_remaining, BREAK_MILLIS);
    assert_eq!(s.work_remaining, WORK_MILLIS);
}

#[test]
fn pause_freezes_and_restart_is_not_a_resume() {
    let mut s = TimerState::new();
    s.on_start_pause_click(0);
    s.on_tick(1_000);
    let frozen_work = s.work_remaining;
    let frozen_break = s.break_remaining;

    let out = s.on_start_pause_click(2_000);
    assert!(!s.running);
    assert_eq!(s.work_remaining, frozen_work);
    assert_eq!(s.break_remaining, frozen_break);
    assert_eq!(s.last_tick, None);
    assert_eq!(out.button_text, "Start");
    assert_eq!(out.action, TickSourceAction::Stop);

    // A stray tick while paused decrements nothing.
    let tick = s.on_tick(60_000);
    assert_eq!(s.work_remaining, frozen_work);
    assert_eq!(s.break_remaining, frozen_break);
    assert!(!s.running);
    assert!(tick.work_text.is_none());
    assert!(tick.break_text.is_none());

    // Starting again is a fresh cycle with full budgets, not a resume.
    let out = s.on_start_pause_click(90_000);
    assert!(s.running);
    assert_eq!(s.work_remaining, WORK_MILLIS);
    assert_eq!(s.break_remaining, BREAK_MILLIS);
    assert_eq!(s.last_tick, Some(90_000));
    assert_eq!(out.button_text, "Pause");
    assert_eq!(out.action, TickSourceAction::Start);
}

fn assert_reset(s: &TimerState, out: &interval_timer::timer::ControlOutput) {
    assert!(!s.running);
    assert_eq!(s.phase, Phase::Working);
    assert_eq!(s.work_remaining, WORK_MILLIS);
    assert_eq!(s.break_remaining, BREAK_MILLIS);
    assert_eq!(s.last_tick, None);
    assert_eq!(out.button_text, "Start");
    assert_eq!(out.action, TickSourceAction::Stop);
    assert_eq!(out.work_text.as_deref(), Some("20:00"));
    assert_eq!(out.break_text.as_deref(), Some("05:00"));
}

#[test]
fn reset_from_running_working() {
    let mut s = TimerState::new();
    s.on_start_pause_click(0);
    s.on_tick(5_000);
    let out = s.on_reset_click();
    assert_reset(&s, &out);
}

#[test]
fn reset_from_running_on_break() {
    let mut s = TimerState::new();
    s.on_start_pause_click(0);
    s.on_tick(WORK_MILLIS);
    s.on_tick(WORK_MILLIS + 1_000);
    assert_eq!(s.phase, Phase::OnBreak);
    let out = s.on_reset_click();
    assert_reset(&s, &out);
}

#[test]
fn reset_from_paused() {
    let mut s = TimerState::new();
    s.on_start_pause_click(0);
    s.on_tick(3_000);
    s.on_start_pause_click(4_000);
    let out = s.on_reset_click();
    assert_reset(&s, &out);
}

#[test]
fn reset_when_already_stopped_is_harmless() {
    // The second reset asks to stop an already stopped tick source and
    // leaves the state exactly as it was.
    let mut s = TimerState::new();
    s.on_reset_click();
    let before = s;
    let out = s.on_reset_click();
    assert_eq!(s, before);
    assert_eq!(out.action, TickSourceAction::Stop);
    assert_reset(&s, &out);
}

#[test]
fn stray_tick_on_stopped_timer_changes_nothing() {
    let mut s = TimerState::new();
    let out = s.on_tick(123_456);
    assert_eq!(s, TimerState::new());
    assert!(out.work_text.is_none());
    assert!(out.break_text.is_none());
}

#[test]
fn first_tick_without_a_record_only_records() {
    // The elapsed-time guard: with no previous timestamp on record, a tick
    // measures nothing and only records its own time.
    let mut s = TimerState {
        phase: Phase::Working,
        running: true,
        work_remaining: WORK_MILLIS,
        break_remaining: BREAK_MILLIS,
        last_tick: None,
    };
    let out = s.on_tick(500);
    assert_eq!(s.work_remaining, WORK_MILLIS);
    assert_eq!(s.last_tick, Some(500));
    assert!(out.work_text.is_none());
    assert!(out.break_text.is_none());
}

#[test]
fn tick_with_earlier_timestamp_measures_no_elapsed_time() {
    let mut s = TimerState::new();
    s.on_start_pause_click(1_000);
    let out = s.on_tick(400);
    assert_eq!(s.work_remaining, WORK_MILLIS);
    assert_eq!(s.last_tick, Some(400));
    assert_eq!(out.work_text.as_deref(), Some("20:00"));
}

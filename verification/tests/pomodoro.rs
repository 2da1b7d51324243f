use panoptic::pomodoro::{PomodoroPhase, PomodoroSettings, PomodoroState, TickOutcome};

fn no_settings() -> Option<PomodoroSettings> {
    None
}

#[test]
fn phase_labels() {
    assert_eq!(PomodoroPhase::Work.label(), "Work");
    assert_eq!(PomodoroPhase::ShortBreak.label(), "Short Break");
    assert_eq!(PomodoroPhase::LongBreak.label(), "Long Break");
}

#[test]
fn default_state() {
    let s = PomodoroState::default();
    assert_eq!(s.phase, PomodoroPhase::Work);
    assert_eq!(s.remaining_secs, 1500);
    assert_eq!(s.duration_for_phase(&PomodoroPhase::ShortBreak), 300);
    assert_eq!(s.duration_for_phase(&PomodoroPhase::LongBreak), 900);
}

#[test]
fn tick_counts_down_and_rolls_over() {
    let mut s = PomodoroState::default();
    assert_eq!(s.tick(), TickOutcome::Paused);
    assert_eq!(s.remaining_secs, 1500);
    s.toggle(no_settings());
    assert!(s.is_running);
    assert_eq!(s.tick(), TickOutcome::Ticked);
    assert_eq!(s.remaining_secs, 1499);
    s.remaining_secs = 0;
    assert_eq!(s.tick(), TickOutcome::PhaseComplete);
    assert_eq!(s.phase, PomodoroPhase::ShortBreak);
    assert_eq!(s.completed_sessions, 1);
    assert_eq!(s.remaining_secs, 300);
    assert!(!s.is_running);
}

#[test]
fn fourth_session_earns_long_break() {
    let mut s = PomodoroState::default();
    s.completed_sessions = 3;
    s.is_running = true;
    s.remaining_secs = 0;
    s.tick();
    assert_eq!(s.phase, PomodoroPhase::LongBreak);
    assert_eq!(s.completed_sessions, 4);
    assert_eq!(s.total_secs, 900);
}

#[test]
fn skip_follows_the_long_break_cadence() {
    let mut s = PomodoroState::default();
    s.completed_sessions = 2;
    s.skip();
    // the third of four sessions ends: a short break, as the tick would give
    assert_eq!(s.completed_sessions, 3);
    assert_eq!(s.phase, PomodoroPhase::ShortBreak);
    assert_eq!(s.remaining_secs, 300);
    assert_eq!(s.total_secs, 300);
    assert!(!s.is_running);
    s.skip();
    assert_eq!(s.phase, PomodoroPhase::Work);
    assert_eq!(s.completed_sessions, 3);
    s.skip();
    // the fourth session ends: a long break
    assert_eq!(s.completed_sessions, 4);
    assert_eq!(s.phase, PomodoroPhase::LongBreak);
    assert_eq!(s.total_secs, 900);
}

#[test]
fn skip_is_the_same_as_running_out() {
    let mut a = PomodoroState::default();
    a.completed_sessions = 7;
    let mut b = a.copy();
    a.skip();
    b.is_running = true;
    b.remaining_secs = 0;
    b.tick();
    assert_eq!(a.phase, b.phase);
    assert_eq!(a.completed_sessions, b.completed_sessions);
    assert_eq!(a.remaining_secs, b.remaining_secs);
    assert_eq!(a.is_running, b.is_running);
}

#[test]
fn actions_allowed_only_where_defined() {
    let mut s = PomodoroState::default();
    s.completed_sessions = u32::MAX;
    assert!(!s.action_allowed("skip", None));
    assert!(s.action_allowed("reset", None));
    assert!(s.action_allowed("explode", None));
    s.reset(None);
    assert_eq!(s.completed_sessions, 0);
    let huge = PomodoroSettings {
        work_duration_mins: Some(u64::MAX),
        short_break_mins: None,
        long_break_mins: None,
        sessions_before_long_break: None,
    };
    assert!(!s.action_allowed("reset", Some(huge)));
    let huge_long = PomodoroSettings { work_duration_mins: None, short_break_mins: None, long_break_mins: Some(u64::MAX), sessions_before_long_break: None };
    assert!(s.action_allowed("reset", Some(huge_long)));
    s.sessions_before_long_break = 0;
    assert!(!s.action_allowed("skip", None));
    assert!(s.tick_allowed());
}

#[test]
fn settings_and_reset() {
    let cfg = PomodoroSettings {
        work_duration_mins: Some(0),
        short_break_mins: Some(2),
        long_break_mins: None,
        sessions_before_long_break: Some(0),
    };
    let mut s = PomodoroState::default();
    s.completed_sessions = 2;
    s.reset(Some(cfg));
    assert_eq!(s.work_duration_mins, 1);
    assert_eq!(s.short_break_mins, 2);
    assert_eq!(s.long_break_mins, 15);
    assert_eq!(s.sessions_before_long_break, 1);
    assert_eq!(s.remaining_secs, 60);
    assert_eq!(s.completed_sessions, 0);
    assert!(!s.is_running);
}

#[test]
fn toggle_at_zero_moves_on() {
    let cfg = PomodoroSettings {
        work_duration_mins: None,
        short_break_mins: None,
        long_break_mins: None,
        sessions_before_long_break: None,
    };
    let mut s = PomodoroState::default();
    s.remaining_secs = 0;
    s.toggle(Some(cfg));
    assert_eq!(s.phase, PomodoroPhase::ShortBreak);
    assert!(s.is_running);
    assert_eq!(s.remaining_secs, 300);
    s.toggle(Some(cfg));
    assert!(!s.is_running);
}

#[test]
fn unknown_action_refused() {
    let mut s = PomodoroState::default();
    let r = s.handle_action("explode", no_settings());
    assert_eq!(r.unwrap_err(), "Unknown pomodoro action: explode");
    assert!(s.handle_action("toggle", no_settings()).is_ok());
    assert!(s.is_running);
}

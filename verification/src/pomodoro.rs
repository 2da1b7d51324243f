//! The Pomodoro timer: phases, their durations, and the transitions that the
//! one-second tick and the settings-panel buttons make.
use vstd::prelude::*;
use crate::text::{chars_of, push_str, string_of};

verus! {

/// A phase of the Pomodoro cycle.
#[derive(Debug, Clone, Copy, PartialEq, Eq, Structural)]
pub enum PomodoroPhase {
    Work,
    ShortBreak,
    LongBreak,
}

/// The display label of a phase.
pub open spec fn phase_label(p: PomodoroPhase) -> Seq<char> {
    match p {
        PomodoroPhase::Work => "Work"@,
        PomodoroPhase::ShortBreak => "Short Break"@,
        PomodoroPhase::LongBreak => "Long Break"@,
    }
}

impl PomodoroPhase {
    /// The display label: "Work", "Short Break" or "Long Break".
    pub fn label(&self) -> (l: &'static str)
        ensures
            l@ == phase_label(*self),
    {
        match self {
            PomodoroPhase::Work => "Work",
            PomodoroPhase::ShortBreak => "Short Break",
            PomodoroPhase::LongBreak => "Long Break",
        }
    }
}

/// The timer's state.
#[derive(Debug)]
pub struct PomodoroState {
    pub phase: PomodoroPhase,
    pub remaining_secs: u64,
    pub total_secs: u64,
    pub is_running: bool,
    pub completed_sessions: u32,
    pub sessions_before_long_break: u32,
    pub work_duration_mins: u64,
    pub short_break_mins: u64,
    pub long_break_mins: u64,
}

/// The saved settings of the timer, each present when the settings hold a
/// whole number for it.
#[derive(Debug, Clone, Copy)]
pub struct PomodoroSettings {
    pub work_duration_mins: Option<u64>,
    pub short_break_mins: Option<u64>,
    pub long_break_mins: Option<u64>,
    pub sessions_before_long_break: Option<u64>,
}

/// `v`, or 1 when it is 0.
pub open spec fn at_least_one(v: u64) -> u64 {
    if v < 1 {
        1
    } else {
        v
    }
}

impl Default for PomodoroState {
    fn default() -> (s: Self)
        ensures
            s.phase == PomodoroPhase::Work,
            s.remaining_secs == 1500,
            s.total_secs == 1500,
            !s.is_running,
            s.completed_sessions == 0,
            s.sessions_before_long_break == 4,
            s.work_duration_mins == 25,
            s.short_break_mins == 5,
            s.long_break_mins == 15,
    {
        PomodoroState {
            phase: PomodoroPhase::Work,
            remaining_secs: 25 * 60,
            total_secs: 25 * 60,
            is_running: false,
            completed_sessions: 0,
            sessions_before_long_break: 4,
            work_duration_mins: 25,
            short_break_mins: 5,
            long_break_mins: 15,
        }
    }
}

impl PomodoroState {
    /// The state invariant: the countdown never exceeds the length of the
    /// phase.
    pub open spec fn well_formed(&self) -> bool {
        self.remaining_secs <= self.total_secs
    }

    /// The length of a phase in seconds.
    pub open spec fn phase_secs(&self, phase: PomodoroPhase) -> nat {
        match phase {
            PomodoroPhase::Work => (self.work_duration_mins * 60) as nat,
            PomodoroPhase::ShortBreak => (self.short_break_mins * 60) as nat,
            PomodoroPhase::LongBreak => (self.long_break_mins * 60) as nat,
        }
    }

    /// The phase after the current one: after work, a long break when the
    /// session that ends makes the completed count a multiple of
    /// `sessions_before_long_break`, else a short break; after a break, work.
    pub open spec fn phase_after(&self) -> PomodoroPhase {
        match self.phase {
            PomodoroPhase::Work => if (self.completed_sessions + 1) % (
            self.sessions_before_long_break as int) == 0 {
                PomodoroPhase::LongBreak
            } else {
                PomodoroPhase::ShortBreak
            },
            _ => PomodoroPhase::Work,
        }
    }

    /// The length of `phase`, in seconds, fits in a `u64`.
    pub open spec fn phase_fits(&self, phase: PomodoroPhase) -> bool {
        self.phase_secs(phase) <= u64::MAX
    }

    /// Leaving the current phase is defined: during work, a long break
    /// comes after at least one session and the completed count can grow.
    pub open spec fn can_leave(&self) -> bool {
        self.phase == PomodoroPhase::Work ==> self.sessions_before_long_break >= 1
            && self.completed_sessions < u32::MAX
    }

    /// Moving on to the next phase is defined: the current phase can be left
    /// and the length of the next one fits in seconds.
    pub open spec fn can_advance(&self) -> bool {
        self.can_leave() && self.phase_fits(self.phase_after())
    }

    /// The state with the saved settings applied, when there are any.
    pub open spec fn configured(self, cfg: Option<PomodoroSettings>) -> PomodoroState {
        match cfg {
            Some(c) => self.with_settings(c),
            None => self,
        }
    }

    /// The one-second tick is defined: only a running timer at zero moves
    /// on.
    pub open spec fn tick_ok(&self) -> bool {
        self.is_running && self.remaining_secs == 0 ==> self.can_advance()
    }

    /// Start / Pause is defined: only a stopped timer at zero with saved
    /// settings moves on, with those settings applied.
    pub open spec fn toggle_ok(&self, cfg: Option<PomodoroSettings>) -> bool {
        !self.is_running && cfg is Some && self.remaining_secs == 0 ==> self.configured(
            cfg,
        ).can_advance()
    }

    /// Reset is defined: the work phase of the configured timer fits in
    /// seconds.
    pub open spec fn reset_ok(&self, cfg: Option<PomodoroSettings>) -> bool {
        self.configured(cfg).phase_fits(PomodoroPhase::Work)
    }

    /// The named settings-panel action is defined on this state ("skip" must
    /// be able to move on; unknown actions always are).
    pub open spec fn action_ok(&self, action: Seq<char>, cfg: Option<PomodoroSettings>) -> bool {
        &&& (action == "toggle"@ ==> self.toggle_ok(cfg))
        &&& (action == "skip"@ ==> self.can_advance())
        &&& (action == "reset"@ ==> self.reset_ok(cfg))
    }

    /// The settings applied to this state.
    pub open spec fn with_settings(self, cfg: PomodoroSettings) -> PomodoroState {
        PomodoroState {
            work_duration_mins: match cfg.work_duration_mins {
                Some(v) => at_least_one(v),
                None => self.work_duration_mins,
            },
            short_break_mins: match cfg.short_break_mins {
                Some(v) => at_least_one(v),
                None => self.short_break_mins,
            },
            long_break_mins: match cfg.long_break_mins {
                Some(v) => at_least_one(v),
                None => self.long_break_mins,
            },
            sessions_before_long_break: match cfg.sessions_before_long_break {
                Some(v) => at_least_one(v) as u32,
                None => self.sessions_before_long_break,
            },
            ..self
        }
    }

    /// The state moved into `next`, with a full countdown, paused.
    pub open spec fn entered(self, next: PomodoroPhase) -> PomodoroState {
        PomodoroState {
            phase: next,
            remaining_secs: self.phase_secs(next) as u64,
            total_secs: self.phase_secs(next) as u64,
            is_running: false,
            ..self
        }
    }

    /// The state after one second of the timer.
    pub open spec fn after_tick(self) -> PomodoroState {
        if !self.is_running {
            self
        } else if self.remaining_secs > 0 {
            PomodoroState { remaining_secs: (self.remaining_secs - 1) as u64, ..self }
        } else {
            let counted = if self.phase == PomodoroPhase::Work {
                (self.completed_sessions + 1) as u32
            } else {
                self.completed_sessions
            };
            (PomodoroState { completed_sessions: counted, ..self }).entered(self.phase_after())
        }
    }

    /// The state after the Start / Pause button.
    pub open spec fn after_toggle(self, cfg: Option<PomodoroSettings>) -> PomodoroState {
        if self.is_running {
            PomodoroState { is_running: false, ..self }
        } else {
            let configured = match cfg {
                Some(c) => self.with_settings(c),
                None => self,
            };
            let moved = if cfg is Some && configured.remaining_secs == 0 {
                configured.entered(configured.phase_after())
            } else {
                configured
            };
            PomodoroState { is_running: true, ..moved }
        }
    }

    /// The state after the Skip button: the current phase ends as if its
    /// countdown had run out (a work session is counted) and the timer
    /// pauses at the start of the phase that follows.
    pub open spec fn after_skip(self) -> PomodoroState {
        let counted = if self.phase == PomodoroPhase::Work {
            PomodoroState { completed_sessions: (self.completed_sessions + 1) as u32, ..self }
        } else {
            self
        };
        counted.entered(self.phase_after())
    }

    /// The state after the Reset button.
    pub open spec fn after_reset(self, cfg: Option<PomodoroSettings>) -> PomodoroState {
        PomodoroState { completed_sessions: 0, ..self.configured(cfg).entered(PomodoroPhase::Work) }
    }

    /// Length of a phase in seconds.
    pub fn duration_for_phase(&self, phase: &PomodoroPhase) -> (secs: u64)
        requires
            self.phase_fits(*phase),
        ensures
            secs as nat == self.phase_secs(*phase),
    {
        match phase {
            PomodoroPhase::Work => self.work_duration_mins * 60,
            PomodoroPhase::ShortBreak => self.short_break_mins * 60,
            PomodoroPhase::LongBreak => self.long_break_mins * 60,
        }
    }

    /// The phase that follows the current one.
    pub fn next_phase(&self) -> (p: PomodoroPhase)
        requires
            self.can_leave(),
        ensures
            p == self.phase_after(),
    {
        match self.phase {
            PomodoroPhase::Work => {
                let next_completed = self.completed_sessions + 1;
                if next_completed % self.sessions_before_long_break == 0 {
                    PomodoroPhase::LongBreak
                } else {
                    PomodoroPhase::ShortBreak
                }
            },
            PomodoroPhase::ShortBreak | PomodoroPhase::LongBreak => PomodoroPhase::Work,
        }
    }

    /// Applies saved settings: each present duration (at least 1 minute)
    /// and the session count (at least 1) replace the current ones.
    pub fn apply_saved_settings(&mut self, cfg: &PomodoroSettings)
        ensures
            *final(self) == old(self).with_settings(*cfg),
    {
        if let Some(v) = cfg.work_duration_mins {
            self.work_duration_mins = if v < 1 { 1 } else { v };
        }
        if let Some(v) = cfg.short_break_mins {
            self.short_break_mins = if v < 1 { 1 } else { v };
        }
        if let Some(v) = cfg.long_break_mins {
            self.long_break_mins = if v < 1 { 1 } else { v };
        }
        if let Some(v) = cfg.sessions_before_long_break {
            let at_least: u64 = if v < 1 { 1 } else { v };
            self.sessions_before_long_break = at_least as u32;
        }
    }

    fn enter(&mut self, next: PomodoroPhase)
        requires
            old(self).phase_fits(next),
        ensures
            *final(self) == old(self).entered(next),
            final(self).well_formed(),
    {
        let dur = self.duration_for_phase(&next);
        self.phase = next;
        self.remaining_secs = dur;
        self.total_secs = dur;
        self.is_running = false;
    }

    /// Prepares the timer at start-up: saved settings (when there are any)
    /// are applied and a full work phase is loaded.
    pub fn initialise(&mut self, cfg: Option<PomodoroSettings>)
        requires
            old(self).reset_ok(cfg),
        ensures
            final(self).well_formed(),
            ({
                let base = old(self).configured(cfg);
                *final(self) == PomodoroState {
                    remaining_secs: base.phase_secs(PomodoroPhase::Work) as u64,
                    total_secs: base.phase_secs(PomodoroPhase::Work) as u64,
                    ..base
                }
            }),
    {
        if let Some(c) = cfg {
            self.apply_saved_settings(&c);
        }
        let dur = self.duration_for_phase(&PomodoroPhase::Work);
        self.remaining_secs = dur;
        self.total_secs = dur;
    }

    /// One second of the timer. A paused timer is left alone
    /// ([`TickOutcome::Paused`]); a running one counts down
    /// ([`TickOutcome::Ticked`]); at zero it moves to the next phase, pauses,
    /// and counts a finished work session ([`TickOutcome::PhaseComplete`]).
    pub fn tick(&mut self) -> (out: TickOutcome)
        requires
            old(self).well_formed(),
            old(self).tick_ok(),
        ensures
            final(self).well_formed(),
            *final(self) == old(self).after_tick(),
            out == (if !old(self).is_running {
                TickOutcome::Paused
            } else if old(self).remaining_secs > 0 {
                TickOutcome::Ticked
            } else {
                TickOutcome::PhaseComplete
            }),
    {
        if !self.is_running {
            return TickOutcome::Paused;
        }
        if self.remaining_secs > 0 {
            self.remaining_secs = self.remaining_secs - 1;
            TickOutcome::Ticked
        } else {
            let next = self.next_phase();
            if self.phase == PomodoroPhase::Work {
                self.completed_sessions = self.completed_sessions + 1;
            }
            self.enter(next);
            TickOutcome::PhaseComplete
        }
    }

    /// The Start / Pause button. Before starting, saved settings (when there
    /// are any) are applied, and a timer stopped at zero moves on to the next
    /// phase; then the running flag flips.
    pub fn toggle(&mut self, cfg: Option<PomodoroSettings>)
        requires
            old(self).well_formed(),
            old(self).toggle_ok(cfg),
        ensures
            final(self).well_formed(),
            *final(self) == old(self).after_toggle(cfg),
    {
        if !self.is_running {
            if let Some(c) = cfg {
                self.apply_saved_settings(&c);
                if self.remaining_secs == 0 {
                    let next = self.next_phase();
                    self.enter(next);
                }
            }
        }
        self.is_running = !self.is_running;
    }

    /// The Skip button: the current phase ends as if its countdown had run
    /// out (a work session counts as completed, and the next phase is the one
    /// that ending it calls for), and the timer pauses.
    pub fn skip(&mut self)
        requires
            old(self).can_advance(),
        ensures
            final(self).well_formed(),
            *final(self) == old(self).after_skip(),
    {
        let next = self.next_phase();
        if self.phase == PomodoroPhase::Work {
            self.completed_sessions = self.completed_sessions + 1;
        }
        self.enter(next);
    }

    /// The Reset button: saved settings (when there are any) are applied and
    /// the timer goes back, paused, to a full work phase with no completed
    /// sessions.
    pub fn reset(&mut self, cfg: Option<PomodoroSettings>)
        requires
            old(self).reset_ok(cfg),
        ensures
            final(self).well_formed(),
            *final(self) == old(self).after_reset(cfg),
    {
        if let Some(c) = cfg {
            self.apply_saved_settings(&c);
        }
        self.enter(PomodoroPhase::Work);
        self.completed_sessions = 0;
    }

    /// Carries out a settings-panel action by name ("toggle", "skip" or
    /// "reset"); any other name is refused with
    /// "Unknown pomodoro action: <name>" and changes nothing.
    pub fn handle_action(&mut self, action: &str, cfg: Option<PomodoroSettings>) -> (r: Result<
        (),
        String,
    >)
        requires
            old(self).well_formed(),
            old(self).action_ok(action@, cfg),
        ensures
            final(self).well_formed(),
            action@ == "toggle"@ || action@ == "skip"@ || action@ == "reset"@ <==> r is Ok,
            action@ == "toggle"@ ==> *final(self) == old(self).after_toggle(cfg),
            action@ == "skip"@ ==> *final(self) == old(self).after_skip(),
            action@ == "reset"@ ==> *final(self) == old(self).after_reset(cfg),
            r matches Err(e) ==> e@ == "Unknown pomodoro action: "@ + action@ && *final(self)
                == *old(self),
    {
        let a = chars_of(action);
        proof {
            reveal_strlit("toggle");
            reveal_strlit("skip");
            reveal_strlit("reset");
            assert("skip"@.len() != "toggle"@.len());
            assert("reset"@.len() != "toggle"@.len());
            assert("reset"@.len() != "skip"@.len());
        }
        if crate::text::equals_str(&a, "toggle") {
            self.toggle(cfg);
            Ok(())
        } else if crate::text::equals_str(&a, "skip") {
            self.skip();
            Ok(())
        } else if crate::text::equals_str(&a, "reset") {
            self.reset(cfg);
            Ok(())
        } else {
            let mut msg: Vec<char> = Vec::new();
            push_str(&mut msg, "Unknown pomodoro action: ");
            push_str(&mut msg, action);
            proof {
                assert(msg@ =~= "Unknown pomodoro action: "@ + action@);
            }
            Err(string_of(&msg))
        }
    }
}

impl PomodoroState {
    /// A copy of the state.
    pub fn copy(&self) -> (c: Self)
        ensures
            c == *self,
    {
        PomodoroState {
            phase: self.phase,
            remaining_secs: self.remaining_secs,
            total_secs: self.total_secs,
            is_running: self.is_running,
            completed_sessions: self.completed_sessions,
            sessions_before_long_break: self.sessions_before_long_break,
            work_duration_mins: self.work_duration_mins,
            short_break_mins: self.short_break_mins,
            long_break_mins: self.long_break_mins,
        }
    }

    fn fits(&self, phase: &PomodoroPhase) -> (b: bool)
        ensures
            b == self.phase_fits(*phase),
    {
        let m: u64 = match phase {
            PomodoroPhase::Work => self.work_duration_mins,
            PomodoroPhase::ShortBreak => self.short_break_mins,
            PomodoroPhase::LongBreak => self.long_break_mins,
        };
        assert(m <= 307445734561825860u64 <==> m * 60 <= 18446744073709551615u64) by (nonlinear_arith);
        m <= 307445734561825860u64
    }

    /// Whether the timer can move on to its next phase now (see
    /// [`PomodoroState::can_advance`]).
    pub fn advance_allowed(&self) -> (b: bool)
        ensures
            b == self.can_advance(),
    {
        if self.phase == PomodoroPhase::Work && (self.sessions_before_long_break < 1
            || self.completed_sessions == u32::MAX) {
            return false;
        }
        let next = self.next_phase();
        self.fits(&next)
    }

    /// Whether the one-second tick is defined on this state.
    pub fn tick_allowed(&self) -> (b: bool)
        ensures
            b == self.tick_ok(),
    {
        if self.is_running && self.remaining_secs == 0 {
            self.advance_allowed()
        } else {
            true
        }
    }

    /// Whether the named settings-panel action is defined on this state with
    /// these saved settings.
    pub fn action_allowed(&self, action: &str, cfg: Option<PomodoroSettings>) -> (b: bool)
        ensures
            b == self.action_ok(action@, cfg),
    {
        let a = chars_of(action);
        proof {
            reveal_strlit("toggle");
            reveal_strlit("skip");
            reveal_strlit("reset");
            assert("skip"@.len() != "toggle"@.len());
            assert("reset"@.len() != "toggle"@.len());
            assert("reset"@.len() != "skip"@.len());
        }
        if crate::text::equals_str(&a, "toggle") {
            if !self.is_running && self.remaining_secs == 0 {
                match cfg {
                    Some(c) => {
                        let mut t = self.copy();
                        t.apply_saved_settings(&c);
                        t.advance_allowed()
                    },
                    None => true,
                }
            } else {
                true
            }
        } else if crate::text::equals_str(&a, "skip") {
            self.advance_allowed()
        } else if crate::text::equals_str(&a, "reset") {
            let mut t = self.copy();
            if let Some(c) = cfg {
                t.apply_saved_settings(&c);
            }
            t.fits(&PomodoroPhase::Work)
        } else {
            true
        }
    }
}

/// What one second of the timer did.
#[derive(Debug, Clone, Copy, PartialEq, Eq, Structural)]
pub enum TickOutcome {
    /// The timer is paused; nothing changed and nothing is announced.
    Paused,
    /// The countdown went down by a second.
    Ticked,
    /// The phase ran out; the timer moved to the next one and paused.
    PhaseComplete,
}

/// A finished work session is followed by a long break exactly when it
/// brings the completed count to a multiple of the sessions per long break.
pub proof fn law_long_break_cadence(s: PomodoroState)
    requires
        s.well_formed(),
        s.phase == PomodoroPhase::Work,
    ensures
        (s.phase_after() == PomodoroPhase::LongBreak) <==> (s.completed_sessions + 1) % (
        s.sessions_before_long_break as int) == 0,
{
}

/// After a break, work always follows.
pub proof fn law_break_then_work(s: PomodoroState)
    requires
        s.phase != PomodoroPhase::Work,
    ensures
        s.phase_after() == PomodoroPhase::Work,
{
}

/// With no saved settings, pressing Start / Pause twice leaves the timer as
/// it was.
pub proof fn law_toggle_twice(s: PomodoroState)
    ensures
        s.after_toggle(None).after_toggle(None) == s,
{
}

/// Pressing Reset a second time changes nothing.
pub proof fn law_reset_idempotent(s: PomodoroState, cfg: Option<PomodoroSettings>)
    ensures
        s.after_reset(cfg).after_reset(cfg) == s.after_reset(cfg),
{
}

/// Skipping a phase does exactly what letting its countdown run out does.
pub proof fn law_skip_is_finishing_now(s: PomodoroState)
    ensures
        s.after_skip() == (PomodoroState { is_running: true, remaining_secs: 0, ..s }).after_tick(),
{
}

/// Starting a paused timer with saved settings takes them in, whatever
/// time is left: each saved duration (at least one minute) and the saved
/// session count (at least one) replace the timer's, unsaved ones stay, the
/// completed count stays, and the timer runs. With time left, the phase and
/// its countdown are those it had.
pub proof fn law_start_applies_saved_settings(s: PomodoroState, c: PomodoroSettings)
    requires
        !s.is_running,
    ensures
        ({
            let t = s.after_toggle(Some(c));
            &&& t.is_running
            &&& t.work_duration_mins == match c.work_duration_mins {
                Some(v) => if v == 0 {
                    1
                } else {
                    v
                },
                None => s.work_duration_mins,
            }
            &&& t.short_break_mins == match c.short_break_mins {
                Some(v) => if v == 0 {
                    1
                } else {
                    v
                },
                None => s.short_break_mins,
            }
            &&& t.long_break_mins == match c.long_break_mins {
                Some(v) => if v == 0 {
                    1
                } else {
                    v
                },
                None => s.long_break_mins,
            }
            &&& t.sessions_before_long_break == match c.sessions_before_long_break {
                Some(v) => (if v == 0 {
                    1
                } else {
                    v
                }) as u32,
                None => s.sessions_before_long_break,
            }
            &&& t.completed_sessions == s.completed_sessions
            &&& s.remaining_secs > 0 ==> t.phase == s.phase && t.remaining_secs == s.remaining_secs
                && t.total_secs == s.total_secs
        }),
{
}

/// Pausing a running timer only stops it: saved settings are not read.
pub proof fn law_pause_only_stops(s: PomodoroState, cfg: Option<PomodoroSettings>)
    requires
        s.is_running,
    ensures
        s.after_toggle(cfg) == (PomodoroState { is_running: false, ..s }),
{
}

/// A running timer loses one second per tick. When a work session runs
/// out it counts as completed and the timer pauses at the start of a break:
/// a long one when the completed count is then a multiple of the sessions
/// per long break, a short one otherwise, each as long as its minutes say.
/// When a break runs out the timer pauses at the start of a work session
/// of the work minutes, with the completed count unchanged.
pub proof fn law_tick_counts_down(s: PomodoroState)
    requires
        s.is_running,
        s.phase == PomodoroPhase::Work ==> s.sessions_before_long_break >= 1
            && s.completed_sessions < u32::MAX,
    ensures
        ({
            let t = s.after_tick();
            &&& s.remaining_secs > 0 ==> t == (PomodoroState {
                remaining_secs: (s.remaining_secs - 1) as u64,
                ..s
            })
            &&& s.remaining_secs == 0 && s.phase == PomodoroPhase::Work ==> {
                &&& t.completed_sessions == s.completed_sessions + 1
                &&& !t.is_running
                &&& ((s.completed_sessions + 1) % (s.sessions_before_long_break as int) == 0 ==> t.phase
                    == PomodoroPhase::LongBreak && t.total_secs == (s.long_break_mins * 60) as u64)
                &&& ((s.completed_sessions + 1) % (s.sessions_before_long_break as int) != 0 ==> t.phase
                    == PomodoroPhase::ShortBreak && t.total_secs == (s.short_break_mins * 60) as u64)
                &&& t.remaining_secs == t.total_secs
            }
            &&& s.remaining_secs == 0 && s.phase != PomodoroPhase::Work ==> {
                &&& t.completed_sessions == s.completed_sessions
                &&& !t.is_running
                &&& t.phase == PomodoroPhase::Work
                &&& t.total_secs == (s.work_duration_mins * 60) as u64
                &&& t.remaining_secs == t.total_secs
            }
        }),
{
}

/// A paused timer does not move.
pub proof fn law_paused_timer_stays(s: PomodoroState)
    requires
        !s.is_running,
    ensures
        s.after_tick() == s,
{
}

} // verus!

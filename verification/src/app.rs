//! The countdown controller: which interval is on, how much of it is left,
//! and what the user is editing.

use crate::clock::Clock;
use crate::span::{Span, Timestamp, NANOS_PER_MINUTE};
use vstd::prelude::*;

verus! {

/// The shortest interval that an edit can leave configured, in nanoseconds:
/// one minute.
pub const MIN_DURATION: u128 = NANOS_PER_MINUTE;

/// The focus interval of a fresh timer, in nanoseconds: fifty minutes.
pub const DEFAULT_POMO_DUR: u128 = 50 * NANOS_PER_MINUTE;

/// The break interval of a fresh timer, in nanoseconds: a quarter of an hour.
pub const DEFAULT_BREAK_DUR: u128 = 15 * NANOS_PER_MINUTE;

/// What an edit adds to or takes from a configured interval, in nanoseconds:
/// one minute.
pub const EDIT_STEP: u128 = NANOS_PER_MINUTE;

/// The phase of the timer.
#[derive(Clone, Copy, Debug, Default, PartialEq, Eq, Structural)]
pub enum AppState {
    /// A focus interval is due or paused.
    #[default]
    StopPomo,
    /// A focus interval is counting down.
    RunPomo,
    /// A break is due or paused.
    StopBreak,
    /// A break is counting down.
    RunBreak,
    /// A start was asked for with no focus interval left to run.
    NoMorePomo,
}

/// The field that `increment` and `decrement` act on.
#[derive(Clone, Copy, Debug, Default, PartialEq, Eq, Structural)]
pub enum EditApp {
    /// No field: edits do nothing.
    #[default]
    Nothing,
    /// The number of focus intervals left.
    PomoNum,
    /// The configured length of a focus interval.
    PomoDur,
    /// The configured length of a break.
    BreakDur,
}

impl EditApp {
    /// The field that follows `self` in the round
    /// `Nothing`, `PomoNum`, `PomoDur`, `BreakDur`, `Nothing`.
    pub open spec fn spec_next(self) -> EditApp {
        match self {
            EditApp::Nothing => EditApp::PomoNum,
            EditApp::PomoNum => EditApp::PomoDur,
            EditApp::PomoDur => EditApp::BreakDur,
            EditApp::BreakDur => EditApp::Nothing,
        }
    }
}

impl AppState {
    /// Whether a countdown is running in this phase.
    pub open spec fn spec_is_running(self) -> bool {
        self == AppState::RunPomo || self == AppState::RunBreak
    }

    /// Whether a countdown is running in this phase.
    pub fn is_running(&self) -> (b: bool)
        ensures
            b == self.spec_is_running(),
    {
        match self {
            AppState::RunPomo | AppState::RunBreak => true,
            _ => false,
        }
    }
}

/// The timer. All of it is plain data; a front end reads the fields and calls
/// the methods, and nothing else changes them.
#[derive(Clone, Copy, Debug)]
pub struct App {
    /// The field under edit.
    pub edit_app: EditApp,
    /// Focus intervals left to run.
    pub pomo_num: u64,
    /// What is left of the focus interval.
    pub pomo_dur: Span,
    /// The configured focus interval, from which `pomo_dur` is refilled.
    pub pomo_dur_bk: Span,
    /// What is left of the break.
    pub break_dur: Span,
    /// The configured break, from which `break_dur` is refilled.
    pub break_dur_bk: Span,
    /// A free-standing signed counter.
    pub counter: i64,
    /// Set once the user has asked to leave.
    pub should_quit: bool,
    /// The instant up to which elapsed time has been taken off the running
    /// countdown.
    pub start_time: Timestamp,
    /// The phase.
    pub state: AppState,
    /// The clock that `start_time` is read from.
    pub clock: Clock,
}

impl App {
    /// The state of a fresh timer that reads `clock`.
    pub open spec fn spec_new(clock: Clock) -> App {
        App {
            edit_app: EditApp::Nothing,
            pomo_num: 1,
            pomo_dur: Span { nanos: DEFAULT_POMO_DUR },
            pomo_dur_bk: Span { nanos: DEFAULT_POMO_DUR },
            break_dur: Span { nanos: DEFAULT_BREAK_DUR },
            break_dur_bk: Span { nanos: DEFAULT_BREAK_DUR },
            counter: 0,
            should_quit: false,
            start_time: Timestamp { nanos: 0 },
            state: AppState::StopPomo,
            clock,
        }
    }

    /// Both configured intervals last a minute or more. Every fresh timer is
    /// so, and no method ends it.
    pub open spec fn inv(self) -> bool {
        &&& self.pomo_dur_bk@ >= MIN_DURATION
        &&& self.break_dur_bk@ >= MIN_DURATION
    }

    /// `self` with the edit moved on to the next field.
    pub open spec fn spec_next_edit(self) -> App {
        App { edit_app: self.edit_app.spec_next(), ..self }
    }

    /// `self` with one focus interval more, unless the count is full.
    pub open spec fn spec_increment_pomo_num(self) -> App {
        App {
            pomo_num: if self.pomo_num < u64::MAX {
                (self.pomo_num + 1) as u64
            } else {
                self.pomo_num
            },
            ..self
        }
    }

    /// `self` with one focus interval less, unless none is left.
    pub open spec fn spec_decrement_pomo_num(self) -> App {
        App {
            pomo_num: if self.pomo_num > 0 {
                (self.pomo_num - 1) as u64
            } else {
                self.pomo_num
            },
            ..self
        }
    }

    /// A configured interval after one step up: a minute longer, or as long
    /// as a span can be.
    pub open spec fn spec_longer(dur: Span) -> Span {
        dur.spec_saturating_add(Span { nanos: EDIT_STEP })
    }

    /// A configured interval after one step down: a minute shorter where
    /// that leaves a minute or more, else as it was.
    pub open spec fn spec_shorter(dur: Span) -> Span {
        if dur@ >= EDIT_STEP + MIN_DURATION {
            Span { nanos: (dur.nanos - EDIT_STEP) as u128 }
        } else {
            dur
        }
    }

    /// `self` after `increment`: the field under edit one step up, all else
    /// as it was.
    pub open spec fn spec_increment(self) -> App {
        match self.edit_app {
            EditApp::Nothing => self,
            EditApp::PomoNum => self.spec_increment_pomo_num(),
            EditApp::PomoDur => App { pomo_dur_bk: Self::spec_longer(self.pomo_dur_bk), ..self },
            EditApp::BreakDur => App {
                break_dur_bk: Self::spec_longer(self.break_dur_bk),
                ..self
            },
        }
    }

    /// `self` after `decrement`: the field under edit one step down, all
    /// else as it was.
    pub open spec fn spec_decrement(self) -> App {
        match self.edit_app {
            EditApp::Nothing => self,
            EditApp::PomoNum => self.spec_decrement_pomo_num(),
            EditApp::PomoDur => App { pomo_dur_bk: Self::spec_shorter(self.pomo_dur_bk), ..self },
            EditApp::BreakDur => App {
                break_dur_bk: Self::spec_shorter(self.break_dur_bk),
                ..self
            },
        }
    }

    /// `self` once a focus interval is over: one interval fewer to run, both
    /// countdowns refilled, a break due.
    pub open spec fn spec_finish_pomo(self) -> App {
        App {
            pomo_num: self.spec_decrement_pomo_num().pomo_num,
            pomo_dur: self.pomo_dur_bk,
            break_dur: self.break_dur_bk,
            state: AppState::StopBreak,
            ..self
        }
    }

    /// `self` once a break is over: both countdowns refilled, a focus
    /// interval due.
    pub open spec fn spec_finish_break(self) -> App {
        App {
            pomo_dur: self.pomo_dur_bk,
            break_dur: self.break_dur_bk,
            state: AppState::StopPomo,
            ..self
        }
    }

    /// `self` after a start/stop at the instant `now`.
    ///
    /// A running countdown pauses. A paused one with time left resumes from
    /// `now`; a focus interval resumes only while one is left to run, else
    /// the timer is out of intervals. A paused countdown with nothing left
    /// is over, and the other kind of interval becomes due. Out of
    /// intervals, a start needs the count to be raised first.
    pub open spec fn spec_toggle(self, now: Timestamp) -> App {
        match self.state {
            AppState::RunPomo => App { state: AppState::StopPomo, ..self },
            AppState::RunBreak => App { state: AppState::StopBreak, ..self },
            AppState::StopPomo => if self.pomo_dur@ == 0 {
                self.spec_finish_pomo()
            } else if self.pomo_num == 0 {
                App { state: AppState::NoMorePomo, ..self }
            } else {
                App { start_time: now, state: AppState::RunPomo, ..self }
            },
            AppState::StopBreak => if self.break_dur@ == 0 {
                self.spec_finish_break()
            } else {
                App { start_time: now, state: AppState::RunBreak, ..self }
            },
            AppState::NoMorePomo => if self.pomo_num > 0 {
                App { start_time: now, state: AppState::RunPomo, ..self }
            } else {
                self
            },
        }
    }

    /// `self` after the focus countdown has been brought up to `now`.
    ///
    /// Outside a running focus interval nothing changes. Inside one, the time
    /// since `start_time` comes off `pomo_dur`, never below zero, and
    /// `start_time` moves to `now`; a countdown that reaches zero is paused
    /// and toggled at once, which ends the interval.
    pub open spec fn spec_update_timer(self, now: Timestamp) -> App {
        if self.state == AppState::RunPomo {
            let left = self.pomo_dur.spec_saturating_sub(now.spec_since(self.start_time));
            if left@ == 0 {
                App {
                    pomo_dur: left,
                    start_time: now,
                    state: AppState::StopPomo,
                    ..self
                }.spec_toggle(now)
            } else {
                App { pomo_dur: left, start_time: now, ..self }
            }
        } else {
            self
        }
    }

    /// `self` after the break countdown has been brought up to `now`; as
    /// `spec_update_timer`, for a running break and `break_dur`.
    pub open spec fn spec_update_break_timer(self, now: Timestamp) -> App {
        if self.state == AppState::RunBreak {
            let left = self.break_dur.spec_saturating_sub(now.spec_since(self.start_time));
            if left@ == 0 {
                App {
                    break_dur: left,
                    start_time: now,
                    state: AppState::StopBreak,
                    ..self
                }.spec_toggle(now)
            } else {
                App { break_dur: left, start_time: now, ..self }
            }
        } else {
            self
        }
    }

    /// `self` after the running countdown, if any, has been brought up to
    /// `now`.
    pub open spec fn spec_advance(self, now: Timestamp) -> App {
        match self.state {
            AppState::RunPomo => self.spec_update_timer(now),
            AppState::RunBreak => self.spec_update_break_timer(now),
            _ => self,
        }
    }

    /// A fresh timer: one focus interval of fifty minutes and a break of
    /// fifteen, a focus interval due, nothing under edit. Its clock starts
    /// now.
    pub fn new() -> (app: App)
        ensures
            app == Self::spec_new(app.clock),
            app.inv(),
    {
        App {
            edit_app: EditApp::Nothing,
            pomo_num: 1,
            pomo_dur: Span::from_nanos(DEFAULT_POMO_DUR),
            pomo_dur_bk: Span::from_nanos(DEFAULT_POMO_DUR),
            break_dur: Span::from_nanos(DEFAULT_BREAK_DUR),
            break_dur_bk: Span::from_nanos(DEFAULT_BREAK_DUR),
            counter: 0,
            should_quit: false,
            start_time: Timestamp::origin(),
            state: AppState::StopPomo,
            clock: Clock::start(),
        }
    }

    /// Called on every tick of the front end's event loop. The countdown is
    /// driven by `increase_timer`, so there is nothing to do here.
    pub fn tick(&self) {
    }

    /// Asks the event loop to stop.
    pub fn quit(&mut self)
        ensures
            *final(self) == (App { should_quit: true, ..*old(self) }),
    {
        self.should_quit = true;
    }

    /// Moves the edit on to the next field.
    pub fn next_edit(&mut self)
        ensures
            *final(self) == old(self).spec_next_edit(),
    {
        self.edit_app = match self.edit_app {
            EditApp::Nothing => EditApp::PomoNum,
            EditApp::PomoNum => EditApp::PomoDur,
            EditApp::PomoDur => EditApp::BreakDur,
            EditApp::BreakDur => EditApp::Nothing,
        }
    }

    /// Steps the field under edit up.
    pub fn increment(&mut self)
        ensures
            *final(self) == old(self).spec_increment(),
    {
        match self.edit_app {
            EditApp::PomoNum => self.increment_pomo_num(),
            EditApp::PomoDur => self.increment_pomo_dur(),
            EditApp::BreakDur => self.increment_break_dur(),
            EditApp::Nothing => (),
        }
    }

    /// Steps the field under edit down.
    pub fn decrement(&mut self)
        ensures
            *final(self) == old(self).spec_decrement(),
    {
        match self.edit_app {
            EditApp::PomoNum => self.decrement_pomo_num(),
            EditApp::PomoDur => self.decrement_pomo_dur(),
            EditApp::BreakDur => self.decrement_break_dur(),
            EditApp::Nothing => (),
        }
    }

    /// Starts, pauses or resumes at the instant `now`; where the paused
    /// countdown has nothing left, ends the interval instead.
    pub fn toggle_start_stop_at(&mut self, now: Timestamp)
        ensures
            *final(self) == old(self).spec_toggle(now),
    {
        match self.state {
            AppState::RunPomo => {
                self.state = AppState::StopPomo;
            },
            AppState::StopPomo => {
                if self.pomo_dur.is_zero() {
                    self.decrement_pomo_num();
                    self.pomo_dur = self.pomo_dur_bk;
                    self.break_dur = self.break_dur_bk;
                    self.state = AppState::StopBreak;
                } else if self.pomo_num == 0 {
                    self.state = AppState::NoMorePomo;
                } else {
                    self.start_time = now;
                    self.state = AppState::RunPomo;
                }
            },
            AppState::RunBreak => {
                self.state = AppState::StopBreak;
            },
            AppState::StopBreak => {
                if self.break_dur.is_zero() {
                    self.break_dur = self.break_dur_bk;
                    self.pomo_dur = self.pomo_dur_bk;
                    self.state = AppState::StopPomo;
                } else {
                    self.start_time = now;
                    self.state = AppState::RunBreak;
                }
            },
            AppState::NoMorePomo => {
                if self.pomo_num > 0 {
                    self.start_time = now;
                    self.state = AppState::RunPomo;
                }
            },
        }
    }

    /// Starts, pauses or resumes at the present instant, read from the
    /// timer's clock.
    pub fn toggle_start_stop(&mut self)
        ensures
            exists|now: Timestamp| *final(self) == #[trigger] old(self).spec_toggle(now),
    {
        let now = self.clock.now();
        self.toggle_start_stop_at(now);
    }

    /// Brings a running focus countdown up to the instant `now`.
    pub fn update_timer_at(&mut self, now: Timestamp)
        ensures
            *final(self) == old(self).spec_update_timer(now),
    {
        if self.state == AppState::RunPomo {
            let elapsed = now.since(self.start_time);
            self.start_time = now;
            self.pomo_dur = self.pomo_dur.saturating_sub(elapsed);
            if self.pomo_dur.is_zero() {
                self.state = AppState::StopPomo;
                self.toggle_start_stop_at(now);
            }
        }
    }

    /// Brings a running focus countdown up to the present instant, read from
    /// the timer's clock.
    pub fn update_timer(&mut self)
        ensures
            exists|now: Timestamp| *final(self) == #[trigger] old(self).spec_update_timer(now),
    {
        let now = self.clock.now();
        self.update_timer_at(now);
    }

    /// Brings a running break countdown up to the instant `now`.
    pub fn update_break_timer_at(&mut self, now: Timestamp)
        ensures
            *final(self) == old(self).spec_update_break_timer(now),
    {
        if self.state == AppState::RunBreak {
            let elapsed = now.since(self.start_time);
            self.start_time = now;
            self.break_dur = self.break_dur.saturating_sub(elapsed);
            if self.break_dur.is_zero() {
                self.state = AppState::StopBreak;
                self.toggle_start_stop_at(now);
            }
        }
    }

    /// Brings a running break countdown up to the present instant, read from
    /// the timer's clock.
    pub fn update_break_timer(&mut self)
        ensures
            exists|now: Timestamp| *final(self) == #[trigger] old(self).spec_update_break_timer(
                now,
            ),
    {
        let now = self.clock.now();
        self.update_break_timer_at(now);
    }

    /// Brings whichever countdown is running up to the instant `now`; does
    /// nothing while none is.
    pub fn advance(&mut self, now: Timestamp)
        ensures
            *final(self) == old(self).spec_advance(now),
    {
        match self.state {
            AppState::RunPomo => self.update_timer_at(now),
            AppState::RunBreak => self.update_break_timer_at(now),
            _ => {},
        }
    }

    /// Shortens the configured focus interval by a minute, unless that would
    /// leave less than a minute.
    pub fn decrement_pomo_dur(&mut self)
        ensures
            *final(self) == (App {
                pomo_dur_bk: Self::spec_shorter(old(self).pomo_dur_bk),
                ..*old(self)
            }),
    {
        if let Some(res) = self.pomo_dur_bk.checked_sub(Span::from_nanos(EDIT_STEP)) {
            if res.as_nanos() >= MIN_DURATION {
                self.pomo_dur_bk = res;
            }
        }
    }

    /// Lengthens the configured focus interval by a minute.
    pub fn increment_pomo_dur(&mut self)
        ensures
            *final(self) == (App {
                pomo_dur_bk: Self::spec_longer(old(self).pomo_dur_bk),
                ..*old(self)
            }),
    {
        self.pomo_dur_bk = self.pomo_dur_bk.saturating_add(Span::from_nanos(EDIT_STEP));
    }

    /// Shortens the configured break by a minute, unless that would leave
    /// less than a minute.
    pub fn decrement_break_dur(&mut self)
        ensures
            *final(self) == (App {
                break_dur_bk: Self::spec_shorter(old(self).break_dur_bk),
                ..*old(self)
            }),
    {
        if let Some(res) = self.break_dur_bk.checked_sub(Span::from_nanos(EDIT_STEP)) {
            if res.as_nanos() >= MIN_DURATION {
                self.break_dur_bk = res;
            }
        }
    }

    /// Lengthens the configured break by a minute.
    pub fn increment_break_dur(&mut self)
        ensures
            *final(self) == (App {
                break_dur_bk: Self::spec_longer(old(self).break_dur_bk),
                ..*old(self)
            }),
    {
        self.break_dur_bk = self.break_dur_bk.saturating_add(Span::from_nanos(EDIT_STEP));
    }

    /// Takes one from the free-standing counter, unless it is as low as it
    /// can be.
    pub fn decrement_counter(&mut self)
        ensures
            *final(self) == (App {
                counter: if old(self).counter > i64::MIN {
                    (old(self).counter - 1) as i64
                } else {
                    old(self).counter
                },
                ..*old(self)
            }),
    {
        if let Some(res) = self.counter.checked_sub(1) {
            self.counter = res;
        }
    }

    /// Adds a focus interval to those left to run, unless the count is full.
    pub fn increment_pomo_num(&mut self)
        ensures
            *final(self) == old(self).spec_increment_pomo_num(),
    {
        if let Some(res) = self.pomo_num.checked_add(1) {
            self.pomo_num = res;
        }
    }

    /// Takes a focus interval from those left to run, unless none is left.
    pub fn decrement_pomo_num(&mut self)
        ensures
            *final(self) == old(self).spec_decrement_pomo_num(),
    {
        if let Some(res) = self.pomo_num.checked_sub(1) {
            self.pomo_num = res;
        }
    }
}

impl Default for App {
    /// A fresh timer, as `App::new` makes it.
    fn default() -> (app: App)
        ensures
            app == App::spec_new(app.clock),
            app.inv(),
    {
        App::new()
    }
}

} // verus!

//! A run without a user: each focus interval and each break is counted
//! through second by second, and a line is shown where one ends. The caller
//! shows what a step hands back and waits a second after each count.

use crate::config::Config;
use vstd::prelude::*;

verus! {

/// Seconds in a minute.
pub const SECS_PER_MINUTE: u64 = 60;

/// How far a run has come: in which pomodoro, counted from zero, whether in
/// its break, and how many seconds of the interval have been counted.
#[derive(Debug, Clone, Copy, PartialEq, Eq, Structural)]
pub struct Run {
    pub pomo: u32,
    pub on_break: bool,
    pub second: u64,
}

/// What a step of a run has to show.
#[derive(Debug, Clone, Copy, PartialEq, Eq, Structural)]
pub enum Show {
    /// One more second of pomodoro `pomo`: before it, `min` minutes and `sec`
    /// seconds of the interval had passed.
    Second { pomo: u32, min: u64, sec: u64 },
    /// The focus interval is over: time for the break.
    FocusOver,
    /// The break is over; after every pomodoro but the first, that is a call
    /// back to work.
    BreakOver { back_to_work: bool },
    /// All pomodoros are done. The run stays here.
    Finished,
}

impl Run {
    /// The seconds in an interval of `minutes` minutes.
    pub open spec fn spec_seconds(minutes: u32) -> nat {
        (minutes * SECS_PER_MINUTE) as nat
    }

    /// Where the run stands after one step under `config`.
    pub open spec fn spec_step(self, config: Config) -> Run {
        if self.pomo >= config.num_pomodoro {
            self
        } else if !self.on_break {
            if self.second < Self::spec_seconds(config.dur_pomodoro) {
                Run { second: (self.second + 1) as u64, ..self }
            } else {
                Run { on_break: true, second: 0, ..self }
            }
        } else {
            if self.second < Self::spec_seconds(config.dur_pause) {
                Run { second: (self.second + 1) as u64, ..self }
            } else {
                Run { pomo: (self.pomo + 1) as u32, on_break: false, second: 0 }
            }
        }
    }

    /// What one step under `config` shows.
    pub open spec fn spec_show(self, config: Config) -> Show {
        if self.pomo >= config.num_pomodoro {
            Show::Finished
        } else if self.second < Self::spec_seconds(
            if self.on_break {
                config.dur_pause
            } else {
                config.dur_pomodoro
            },
        ) {
            Show::Second {
                pomo: self.pomo,
                min: self.second / SECS_PER_MINUTE,
                sec: self.second % SECS_PER_MINUTE,
            }
        } else if self.on_break {
            Show::BreakOver { back_to_work: self.pomo != 0 }
        } else {
            Show::FocusOver
        }
    }

    /// The beginning of a run: the first pomodoro, its focus interval, no
    /// second counted.
    pub fn start() -> (run: Run)
        ensures
            run == (Run { pomo: 0, on_break: false, second: 0 }),
    {
        Run { pomo: 0, on_break: false, second: 0 }
    }

    /// Takes one step: counts a second of the interval that is on, or, where
    /// all its seconds are counted, moves on to the next interval. Hands back
    /// what to show for the step.
    pub fn step(&mut self, config: &Config) -> (show: Show)
        ensures
            *final(self) == old(self).spec_step(*config),
            show == old(self).spec_show(*config),
    {
        if self.pomo >= config.num_pomodoro {
            return Show::Finished;
        }
        let minutes: u32 = if self.on_break {
            config.dur_pause
        } else {
            config.dur_pomodoro
        };
        if self.second < minutes as u64 * SECS_PER_MINUTE {
            let show = Show::Second {
                pomo: self.pomo,
                min: self.second / SECS_PER_MINUTE,
                sec: self.second % SECS_PER_MINUTE,
            };
            self.second += 1;
            show
        } else if self.on_break {
            let show = Show::BreakOver { back_to_work: self.pomo != 0 };
            self.pomo += 1;
            self.on_break = false;
            self.second = 0;
            show
        } else {
            self.on_break = true;
            self.second = 0;
            Show::FocusOver
        }
    }
}

} // verus!

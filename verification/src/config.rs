//! The configuration of a run: how many focus intervals, and how long a focus
//! interval and a break last. It comes from three texts, as a command line
//! gives them, and is held to whole numbers of at least one.

use crate::app::{App, AppState, EditApp};
use crate::clock::Clock;
use crate::span::{Span, Timestamp, NANOS_PER_MINUTE};
use crate::decimal::{parse_u32, spec_parse_u32};
use vstd::prelude::*;

verus! {

/// Which of the three settings.
#[derive(Debug, Clone, Copy, PartialEq, Eq, Structural)]
pub enum Setting {
    /// The number of focus intervals.
    Pomodoros,
    /// The minutes of a focus interval.
    FocusMinutes,
    /// The minutes of a break.
    BreakMinutes,
}

/// What is wrong with a setting.
#[derive(Debug, Clone, Copy, PartialEq, Eq, Structural)]
pub enum Fault {
    /// It was not given.
    Missing,
    /// Its text is no number that fits in 32 bits.
    NotANumber,
    /// It is zero.
    Zero,
}

/// Why a configuration was turned down: the first setting at fault, in the
/// order pomodoros, focus minutes, break minutes, and its fault.
#[derive(Debug, Clone, Copy, PartialEq, Eq, Structural)]
pub struct ConfigError {
    pub setting: Setting,
    pub fault: Fault,
}

/// A configuration. It is valid when no setting is zero.
#[derive(Debug, Clone, Copy, PartialEq, Eq, Structural)]
pub struct Config {
    /// The number of focus intervals.
    pub num_pomodoro: u32,
    /// The minutes of a focus interval.
    pub dur_pomodoro: u32,
    /// The minutes of a break.
    pub dur_pause: u32,
}

impl ConfigError {
    /// The line that tells the user what was wrong.
    pub fn message(&self) -> (words: &'static str)
        ensures
            words@ == match (self.setting, self.fault) {
                (Setting::Pomodoros, Fault::Zero) => "The number of pomodoros must be at least 1"@,
                (Setting::Pomodoros, _) => "Error parsing number of pomodoros"@,
                (Setting::FocusMinutes, Fault::Missing) => "Error parsing duration of pomodoros"@,
                (Setting::FocusMinutes, Fault::NotANumber) => "Error parsing duration of pomodors"@,
                (Setting::FocusMinutes, Fault::Zero) => "The duration of a pomodoro must be at least 1 minute"@,
                (Setting::BreakMinutes, Fault::Missing) => "Error parsing duration of pause"@,
                (Setting::BreakMinutes, Fault::NotANumber) => "Error parsing duration of puase"@,
                (Setting::BreakMinutes, Fault::Zero) => "The duration of a pause must be at least 1 minute"@,
            },
    {
        match (self.setting, self.fault) {
            (Setting::Pomodoros, Fault::Zero) => "The number of pomodoros must be at least 1",
            (Setting::Pomodoros, _) => "Error parsing number of pomodoros",
            (Setting::FocusMinutes, Fault::Missing) => "Error parsing duration of pomodoros",
            (Setting::FocusMinutes, Fault::NotANumber) => "Error parsing duration of pomodors",
            (Setting::FocusMinutes, Fault::Zero) => "The duration of a pomodoro must be at least 1 minute",
            (Setting::BreakMinutes, Fault::Missing) => "Error parsing duration of pause",
            (Setting::BreakMinutes, Fault::NotANumber) => "Error parsing duration of puase",
            (Setting::BreakMinutes, Fault::Zero) => "The duration of a pause must be at least 1 minute",
        }
    }
}

/// What one setting's text gives: its number, or its fault.
pub open spec fn spec_setting(text: Option<Seq<char>>) -> Result<u32, Fault> {
    match text {
        None => Err(Fault::Missing),
        Some(s) => match spec_parse_u32(s) {
            None => Err(Fault::NotANumber),
            Some(n) => if n == 0 {
                Err(Fault::Zero)
            } else {
                Ok(n)
            },
        },
    }
}

/// Reads one setting from its text, if it was given.
pub fn read_setting(text: Option<&str>) -> (number: Result<u32, Fault>)
    ensures
        number == spec_setting(
            match text {
                Some(s) => Some(s@),
                None => None,
            },
        ),
{
    match text {
        None => Err(Fault::Missing),
        Some(s) => match parse_u32(s) {
            None => Err(Fault::NotANumber),
            Some(n) => if n == 0 {
                Err(Fault::Zero)
            } else {
                Ok(n)
            },
        },
    }
}

impl Config {
    /// No setting is zero.
    pub open spec fn valid(self) -> bool {
        self.num_pomodoro >= 1 && self.dur_pomodoro >= 1 && self.dur_pause >= 1
    }

    /// The first setting of `self` that is zero, if any.
    pub open spec fn spec_check(self) -> Result<(), ConfigError> {
        if self.num_pomodoro == 0 {
            Err(ConfigError { setting: Setting::Pomodoros, fault: Fault::Zero })
        } else if self.dur_pomodoro == 0 {
            Err(ConfigError { setting: Setting::FocusMinutes, fault: Fault::Zero })
        } else if self.dur_pause == 0 {
            Err(ConfigError { setting: Setting::BreakMinutes, fault: Fault::Zero })
        } else {
            Ok(())
        }
    }

    /// The configuration that the three texts give, or the first setting at
    /// fault.
    pub open spec fn spec_new(
        pomo: Option<Seq<char>>,
        dur: Option<Seq<char>>,
        pause: Option<Seq<char>>,
    ) -> Result<Config, ConfigError> {
        match spec_setting(pomo) {
            Err(fault) => Err(ConfigError { setting: Setting::Pomodoros, fault }),
            Ok(num_pomodoro) => match spec_setting(dur) {
                Err(fault) => Err(ConfigError { setting: Setting::FocusMinutes, fault }),
                Ok(dur_pomodoro) => match spec_setting(pause) {
                    Err(fault) => Err(ConfigError { setting: Setting::BreakMinutes, fault }),
                    Ok(dur_pause) => Ok(Config { num_pomodoro, dur_pomodoro, dur_pause }),
                },
            },
        }
    }

    /// The timer that a valid configuration sets up on `clock`: as many
    /// focus intervals as asked for, both countdowns full, a focus interval
    /// due.
    pub open spec fn spec_timer(self, clock: Clock) -> App {
        App {
            edit_app: EditApp::Nothing,
            pomo_num: self.num_pomodoro as u64,
            pomo_dur: Span { nanos: (self.dur_pomodoro * NANOS_PER_MINUTE) as u128 },
            pomo_dur_bk: Span { nanos: (self.dur_pomodoro * NANOS_PER_MINUTE) as u128 },
            break_dur: Span { nanos: (self.dur_pause * NANOS_PER_MINUTE) as u128 },
            break_dur_bk: Span { nanos: (self.dur_pause * NANOS_PER_MINUTE) as u128 },
            counter: 0,
            should_quit: false,
            start_time: Timestamp { nanos: 0 },
            state: AppState::StopPomo,
            clock,
        }
    }

    /// Reads a configuration from the texts of its three settings, each of
    /// which may be missing. It is valid if it is there at all.
    pub fn new(pomo: Option<&str>, dur: Option<&str>, pause: Option<&str>) -> (config: Result<
        Config,
        ConfigError,
    >)
        ensures
            config == Self::spec_new(
                match pomo {
                    Some(s) => Some(s@),
                    None => None,
                },
                match dur {
                    Some(s) => Some(s@),
                    None => None,
                },
                match pause {
                    Some(s) => Some(s@),
                    None => None,
                },
            ),
            config matches Ok(c) ==> c.valid(),
    {
        let num_pomodoro = match read_setting(pomo) {
            Ok(n) => n,
            Err(fault) => {
                return Err(ConfigError { setting: Setting::Pomodoros, fault });
            },
        };
        let dur_pomodoro = match read_setting(dur) {
            Ok(n) => n,
            Err(fault) => {
                return Err(ConfigError { setting: Setting::FocusMinutes, fault });
            },
        };
        let dur_pause = match read_setting(pause) {
            Ok(n) => n,
            Err(fault) => {
                return Err(ConfigError { setting: Setting::BreakMinutes, fault });
            },
        };
        Ok(Config { num_pomodoro, dur_pomodoro, dur_pause })
    }

    /// Says whether the configuration is valid, and if not, which setting is
    /// the first at fault.
    pub fn check(&self) -> (verdict: Result<(), ConfigError>)
        ensures
            verdict == self.spec_check(),
            verdict is Ok <==> self.valid(),
    {
        if self.num_pomodoro == 0 {
            Err(ConfigError { setting: Setting::Pomodoros, fault: Fault::Zero })
        } else if self.dur_pomodoro == 0 {
            Err(ConfigError { setting: Setting::FocusMinutes, fault: Fault::Zero })
        } else if self.dur_pause == 0 {
            Err(ConfigError { setting: Setting::BreakMinutes, fault: Fault::Zero })
        } else {
            Ok(())
        }
    }
}

impl App {
    /// Sets up a timer as `config` says; turns an invalid configuration down
    /// and makes no timer of it. The timer's clock starts now.
    pub fn from_config(config: &Config) -> (made: Result<App, ConfigError>)
        ensures
            match made {
                Ok(app) => config.valid() && app == config.spec_timer(app.clock) && app.inv(),
                Err(e) => config.spec_check() == Err::<(), ConfigError>(e),
            },
    {
        match config.check() {
            Err(e) => Err(e),
            Ok(()) => {
                let focus = Span::from_minutes(config.dur_pomodoro as u64);
                let pause = Span::from_minutes(config.dur_pause as u64);
                Ok(
                    App {
                        edit_app: EditApp::Nothing,
                        pomo_num: config.num_pomodoro as u64,
                        pomo_dur: focus,
                        pomo_dur_bk: focus,
                        break_dur: pause,
                        break_dur_bk: pause,
                        counter: 0,
                        should_quit: false,
                        start_time: Timestamp::origin(),
                        state: AppState::StopPomo,
                        clock: Clock::start(),
                    },
                )
            },
        }
    }
}

} // verus!

//! A timer that counts up: a stopwatch runs until it has covered the interval
//! that is on, and then the other kind of interval becomes due.

use crate::clock::Clock;
use crate::decimal::{append_decimal, spec_digits};
use crate::message::Message;
use crate::span::{Span, Timestamp, NANOS_PER_MILLI, NANOS_PER_SEC};
use vstd::prelude::*;
use vstd::string::*;

verus! {

/// How often a running stopwatch wants a tick, in nanoseconds: every ten
/// milliseconds.
pub const TICK_EVERY: u128 = 10 * NANOS_PER_MILLI;

/// Seconds in a minute.
pub const MINUTE: u64 = 60;

/// Whether the stopwatch runs, and up to which instant it has counted.
#[derive(Debug, Clone, Copy, PartialEq, Eq, Structural)]
pub enum State {
    Idle,
    Ticking { last_tick: Timestamp },
}

/// The time counted so far in the interval that is on.
#[derive(Debug, Clone, Copy, PartialEq, Eq, Structural)]
pub struct Stopwatch {
    pub duration: Span,
    pub state: State,
}

/// The line that tells the user what the timer is up to.
#[derive(Debug, Clone, Copy, PartialEq, Eq, Structural)]
pub enum Notice {
    StartPomodoro,
    StartBreak,
    InvalidPomodoro,
    InvalidBreak,
    StayFocused,
    Chill,
}

/// What a message brought to an end, if anything.
#[derive(Debug, Clone, Copy, PartialEq, Eq, Structural)]
pub enum Ended {
    Nothing,
    Pomodoro,
    Break,
}

/// The timer of the graphical front end.
#[derive(Debug, Clone, Copy)]
pub struct Pomodoro {
    /// The length of a focus interval, in minutes.
    pub pomodoro_duration: u64,
    /// Focus intervals left to run.
    pub pomodoro_counter: u32,
    /// The length of a break, in minutes.
    pub break_duration: u64,
    /// The stopwatch.
    pub elapsed_time: Stopwatch,
    /// Whether the interval that is on, or due, is a focus interval.
    pub is_pomodoro: bool,
    /// The line to show.
    pub notice: Notice,
    /// The clock that a press of Start reads, and that the instants of the
    /// ticks are to be read from.
    pub clock: Clock,
}

/// The words that a window shows of the timer.
#[derive(Debug, Clone, PartialEq, Eq)]
pub struct Panel {
    /// The focus intervals left to run.
    pub counter: String,
    /// The length of a focus interval.
    pub pomodoro_duration: String,
    /// The length of a break.
    pub break_duration: String,
    /// The notice.
    pub notice: &'static str,
    /// The time on the stopwatch.
    pub elapsed: String,
}

impl Notice {
    /// The words of the notice.
    pub open spec fn spec_text(self) -> Seq<char> {
        match self {
            Notice::StartPomodoro => "Start a new Pomodoro"@,
            Notice::StartBreak => "Start a new Break"@,
            Notice::InvalidPomodoro => "Please set a valid Pomodoro number"@,
            Notice::InvalidBreak => "Please set a valid Break duration"@,
            Notice::StayFocused => "Stay focused ^-^"@,
            Notice::Chill => "Chill Bro :)"@,
        }
    }

    /// The words of the notice.
    pub fn text(&self) -> (words: &'static str)
        ensures
            words@ == self.spec_text(),
    {
        match self {
            Notice::StartPomodoro => "Start a new Pomodoro",
            Notice::StartBreak => "Start a new Break",
            Notice::InvalidPomodoro => "Please set a valid Pomodoro number",
            Notice::InvalidBreak => "Please set a valid Break duration",
            Notice::StayFocused => "Stay focused ^-^",
            Notice::Chill => "Chill Bro :)",
        }
    }
}

impl Pomodoro {
    /// The state of a fresh timer that reads `clock`.
    pub open spec fn spec_new(clock: Clock) -> Pomodoro {
        Pomodoro {
            pomodoro_duration: 0,
            pomodoro_counter: 0,
            break_duration: 0,
            elapsed_time: Stopwatch { duration: Span { nanos: 0 }, state: State::Idle },
            is_pomodoro: true,
            notice: Notice::StartPomodoro,
            clock,
        }
    }

    /// Whether the stopwatch has covered the interval that is on: its whole
    /// seconds are no fewer than the minutes of the interval times sixty.
    pub open spec fn spec_interval_covered(self) -> bool {
        let secs = self.elapsed_time.duration@ / (NANOS_PER_SEC as nat);
        if self.is_pomodoro {
            secs >= self.pomodoro_duration * MINUTE
        } else {
            secs >= self.break_duration * MINUTE
        }
    }

    /// `self` after a press of Start at the instant `now`: the stopwatch runs
    /// from `now`, unless the interval that is due has no length, or is a
    /// focus interval with none left to run; then only the notice changes.
    pub open spec fn spec_start(self, now: Timestamp) -> Pomodoro {
        if self.is_pomodoro && (self.pomodoro_counter == 0 || self.pomodoro_duration == 0) {
            Pomodoro { notice: Notice::InvalidPomodoro, ..self }
        } else if !self.is_pomodoro && self.break_duration == 0 {
            Pomodoro { notice: Notice::InvalidBreak, ..self }
        } else {
            Pomodoro {
                elapsed_time: Stopwatch {
                    state: State::Ticking { last_tick: now },
                    ..self.elapsed_time
                },
                ..self
            }
        }
    }

    /// `self` with the time up to `at` counted: a running stopwatch gains
    /// the time since its last tick and ticks at `at`; one that stands still
    /// stays as it is.
    pub open spec fn spec_count(self, at: Timestamp) -> Pomodoro {
        match self.elapsed_time.state {
            State::Ticking { last_tick } => Pomodoro {
                elapsed_time: Stopwatch {
                    duration: self.elapsed_time.duration.spec_saturating_add(
                        at.spec_since(last_tick),
                    ),
                    state: State::Ticking { last_tick: at },
                },
                notice: if self.is_pomodoro {
                    Notice::StayFocused
                } else {
                    Notice::Chill
                },
                ..self
            },
            State::Idle => self,
        }
    }

    /// `self` once the interval that is on is over: the stopwatch stands at
    /// zero and the other kind of interval is due; a focus interval that is
    /// over is one fewer to run.
    pub open spec fn spec_finish(self) -> Pomodoro {
        if self.is_pomodoro {
            Pomodoro {
                elapsed_time: Stopwatch { duration: Span { nanos: 0 }, state: State::Idle },
                pomodoro_counter: if self.pomodoro_counter > 0 {
                    (self.pomodoro_counter - 1) as u32
                } else {
                    0
                },
                is_pomodoro: false,
                notice: Notice::StartBreak,
                ..self
            }
        } else {
            Pomodoro {
                elapsed_time: Stopwatch { duration: Span { nanos: 0 }, state: State::Idle },
                is_pomodoro: true,
                notice: Notice::StartPomodoro,
                ..self
            }
        }
    }

    /// `self` after a tick at the instant `at`. A stopwatch that stands still
    /// takes no notice of a tick: the timer stays as it is. On a running one
    /// the time is counted, and the interval is over if the stopwatch has
    /// then covered it.
    pub open spec fn spec_tick(self, at: Timestamp) -> Pomodoro {
        match self.elapsed_time.state {
            State::Idle => self,
            State::Ticking { .. } => if self.spec_count(at).spec_interval_covered() {
                self.spec_count(at).spec_finish()
            } else {
                self.spec_count(at)
            },
        }
    }

    /// `self` after `message`, where a press of Start happens at the instant
    /// `now`. The counts go up and down by one and stop at zero and at the
    /// most they can hold.
    pub open spec fn spec_update(self, message: Message, now: Timestamp) -> Pomodoro {
        match message {
            Message::IncrementPomodoroCounter => Pomodoro {
                pomodoro_counter: if self.pomodoro_counter < u32::MAX {
                    (self.pomodoro_counter + 1) as u32
                } else {
                    self.pomodoro_counter
                },
                ..self
            },
            Message::DecrementPomodoroCounter => Pomodoro {
                pomodoro_counter: if self.pomodoro_counter > 0 {
                    (self.pomodoro_counter - 1) as u32
                } else {
                    self.pomodoro_counter
                },
                ..self
            },
            Message::IncrementPomodoroDuration => Pomodoro {
                pomodoro_duration: if self.pomodoro_duration < u64::MAX {
                    (self.pomodoro_duration + 1) as u64
                } else {
                    self.pomodoro_duration
                },
                ..self
            },
            Message::DecrementPomodoroDuration => Pomodoro {
                pomodoro_duration: if self.pomodoro_duration > 0 {
                    (self.pomodoro_duration - 1) as u64
                } else {
                    self.pomodoro_duration
                },
                ..self
            },
            Message::IncrementBreakDuration => Pomodoro {
                break_duration: if self.break_duration < u64::MAX {
                    (self.break_duration + 1) as u64
                } else {
                    self.break_duration
                },
                ..self
            },
            Message::DecrementBreakDuration => Pomodoro {
                break_duration: if self.break_duration > 0 {
                    (self.break_duration - 1) as u64
                } else {
                    self.break_duration
                },
                ..self
            },
            Message::StartPressed => self.spec_start(now),
            Message::StopPressed => Pomodoro {
                elapsed_time: Stopwatch { state: State::Idle, ..self.elapsed_time },
                ..self
            },
            Message::Tick(at) => self.spec_tick(at),
        }
    }

    /// What `message` brings to an end: the interval that is on, where the
    /// message is a tick on a running stopwatch that sees it covered. No
    /// other message ends anything, and no tick on a stopwatch that stands
    /// still.
    pub open spec fn spec_ended(self, message: Message) -> Ended {
        match message {
            Message::Tick(at) => if self.elapsed_time.state is Ticking && self.spec_count(
                at,
            ).spec_interval_covered() {
                if self.is_pomodoro {
                    Ended::Pomodoro
                } else {
                    Ended::Break
                }
            } else {
                Ended::Nothing
            },
            _ => Ended::Nothing,
        }
    }

    /// The time on the stopwatch as the window shows it: its whole minutes
    /// and the seconds beyond them.
    pub open spec fn spec_elapsed_text(self) -> Seq<char> {
        let secs = self.elapsed_time.duration@ / (NANOS_PER_SEC as nat);
        spec_digits(secs / (MINUTE as nat)) + " min "@ + spec_digits(secs % (MINUTE as nat))
            + " sec"@
    }

    /// The words that a window shows of the timer.
    pub fn panel(&self) -> (panel: Panel)
        ensures
            panel.counter@ == spec_digits(self.pomodoro_counter as nat),
            panel.pomodoro_duration@ == spec_digits(self.pomodoro_duration as nat)
                + " minutes"@,
            panel.break_duration@ == spec_digits(self.break_duration as nat) + " minutes"@,
            panel.notice@ == self.notice.spec_text(),
            panel.elapsed@ == self.spec_elapsed_text(),
    {
        let mut counter = String::new();
        append_decimal(&mut counter, self.pomodoro_counter as u128);
        assert(counter@ =~= spec_digits(self.pomodoro_counter as nat));
        let mut pomodoro_duration = String::new();
        append_decimal(&mut pomodoro_duration, self.pomodoro_duration as u128);
        pomodoro_duration.append(" minutes");
        assert(pomodoro_duration@ =~= spec_digits(self.pomodoro_duration as nat) + " minutes"@);
        let mut break_duration = String::new();
        append_decimal(&mut break_duration, self.break_duration as u128);
        break_duration.append(" minutes");
        assert(break_duration@ =~= spec_digits(self.break_duration as nat) + " minutes"@);
        let secs = self.elapsed_time.duration.as_secs();
        let mut elapsed = String::new();
        append_decimal(&mut elapsed, secs / (MINUTE as u128));
        elapsed.append(" min ");
        append_decimal(&mut elapsed, secs % (MINUTE as u128));
        elapsed.append(" sec");
        assert(elapsed@ =~= self.spec_elapsed_text());
        Panel { counter, pomodoro_duration, break_duration, notice: self.notice.text(), elapsed }
    }

    /// A fresh timer: nothing configured, the stopwatch at zero and still, a
    /// focus interval due. Its clock starts now.
    pub fn new() -> (pomodoro: Pomodoro)
        ensures
            pomodoro == Self::spec_new(pomodoro.clock),
    {
        Pomodoro {
            pomodoro_duration: 0,
            pomodoro_counter: 0,
            break_duration: 0,
            elapsed_time: Stopwatch { duration: Span::zero(), state: State::Idle },
            is_pomodoro: true,
            notice: Notice::StartPomodoro,
            clock: Clock::start(),
        }
    }

    /// How often the front end is to send a tick: every ten milliseconds
    /// while the stopwatch runs, never while it stands still.
    pub fn subscription(&self) -> (every: Option<Span>)
        ensures
            every == match self.elapsed_time.state {
                State::Idle => None::<Span>,
                State::Ticking { .. } => Some(Span { nanos: TICK_EVERY }),
            },
    {
        match self.elapsed_time.state {
            State::Idle => None,
            State::Ticking { .. } => Some(Span::from_nanos(TICK_EVERY)),
        }
    }

    /// Whether the stopwatch has covered the interval that is on.
    pub fn interval_covered(&self) -> (covered: bool)
        ensures
            covered == self.spec_interval_covered(),
    {
        let secs: u128 = self.elapsed_time.duration.as_secs();
        let minutes: u64 = if self.is_pomodoro {
            self.pomodoro_duration
        } else {
            self.break_duration
        };
        secs >= minutes as u128 * (MINUTE as u128)
    }

    /// Handles `message`, with `now` as the instant of a press of Start, and
    /// says what came to an end.
    pub fn update_at(&mut self, message: Message, now: Timestamp) -> (ended: Ended)
        ensures
            *final(self) == old(self).spec_update(message, now),
            ended == old(self).spec_ended(message),
            message is Tick && old(self).elapsed_time.state is Idle ==> *final(self) == *old(self)
                && ended == Ended::Nothing,
    {
        match message {
            Message::IncrementPomodoroCounter => {
                if self.pomodoro_counter < u32::MAX {
                    self.pomodoro_counter += 1;
                }
            },
            Message::DecrementPomodoroCounter => {
                if self.pomodoro_counter != 0 {
                    self.pomodoro_counter -= 1;
                }
            },
            Message::IncrementPomodoroDuration => {
                if self.pomodoro_duration < u64::MAX {
                    self.pomodoro_duration += 1;
                }
            },
            Message::DecrementPomodoroDuration => {
                if self.pomodoro_duration != 0 {
                    self.pomodoro_duration -= 1;
                }
            },
            Message::IncrementBreakDuration => {
                if self.break_duration < u64::MAX {
                    self.break_duration += 1;
                }
            },
            Message::DecrementBreakDuration => {
                if self.break_duration != 0 {
                    self.break_duration -= 1;
                }
            },
            Message::StartPressed => {
                if self.is_pomodoro && (self.pomodoro_counter == 0 || self.pomodoro_duration
                    == 0) {
                    self.notice = Notice::InvalidPomodoro;
                } else if !self.is_pomodoro && self.break_duration == 0 {
                    self.notice = Notice::InvalidBreak;
                } else {
                    self.elapsed_time.state = State::Ticking { last_tick: now };
                }
            },
            Message::StopPressed => {
                self.elapsed_time.state = State::Idle;
            },
            Message::Tick(at) => {
                match self.elapsed_time.state {
                    State::Ticking { last_tick } => {
                        self.elapsed_time.duration = self.elapsed_time.duration.saturating_add(
                            at.since(last_tick),
                        );
                        self.elapsed_time.state = State::Ticking { last_tick: at };
                        self.notice = if self.is_pomodoro {
                            Notice::StayFocused
                        } else {
                            Notice::Chill
                        };
                        if self.interval_covered() {
                            self.elapsed_time.state = State::Idle;
                            self.elapsed_time.duration = Span::zero();
                            if self.is_pomodoro {
                                if self.pomodoro_counter != 0 {
                                    self.pomodoro_counter -= 1;
                                }
                                self.is_pomodoro = false;
                                self.notice = Notice::StartBreak;
                                return Ended::Pomodoro;
                            } else {
                                self.is_pomodoro = true;
                                self.notice = Notice::StartPomodoro;
                                return Ended::Break;
                            }
                        }
                    },
                    State::Idle => {},
                }
            },
        }
        Ended::Nothing
    }

    /// Handles `message`; a press of Start happens at the present instant,
    /// read from the timer's clock, and no other message looks at the clock.
    pub fn update(&mut self, message: Message) -> (ended: Ended)
        ensures
            exists|now: Timestamp| *final(self) == #[trigger] old(self).spec_update(message, now),
            message != Message::StartPressed ==> *final(self) == old(self).spec_update(
                message,
                Timestamp { nanos: 0 },
            ),
            ended == old(self).spec_ended(message),
            message is Tick && old(self).elapsed_time.state is Idle ==> *final(self) == *old(self)
                && ended == Ended::Nothing,
    {
        let now = self.clock.now();
        self.update_at(message, now)
    }
}

} // verus!

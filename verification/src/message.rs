//! What the buttons and the ticker of a graphical front end say to the
//! stopwatch-driven timer.

use crate::span::Timestamp;
use vstd::prelude::*;

verus! {

/// A press of a button, or a tick of the running stopwatch with the instant
/// it was made at.
#[derive(Debug, Clone, Copy, PartialEq, Eq, Structural)]
pub enum Message {
    IncrementPomodoroCounter,
    DecrementPomodoroCounter,
    IncrementPomodoroDuration,
    DecrementPomodoroDuration,
    IncrementBreakDuration,
    DecrementBreakDuration,
    StartPressed,
    StopPressed,
    Tick(Timestamp),
}

} // verus!

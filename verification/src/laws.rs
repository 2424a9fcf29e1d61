//! What holds of the timers whatever is done to them, stated over the models
//! of [`App`] and [`Pomodoro`] and proved once for all states.

use crate::app::{App, AppState, EditApp, MIN_DURATION};
use crate::message::Message;
use crate::pomodoro::{Ended, Pomodoro, State};
use crate::span::Timestamp;
use vstd::prelude::*;

verus! {

/// One call on a timer, with the instant it is made at where that matters.
pub enum Step {
    /// `advance` at an instant.
    Advance(Timestamp),
    /// `toggle_start_stop` at an instant.
    Toggle(Timestamp),
    /// `next_edit`.
    NextEdit,
    /// `increment`.
    Increment,
    /// `decrement`.
    Decrement,
    /// `quit`.
    Quit,
}

/// The timer after one step.
pub open spec fn spec_step(s: App, step: Step) -> App {
    match step {
        Step::Advance(now) => s.spec_advance(now),
        Step::Toggle(now) => s.spec_toggle(now),
        Step::NextEdit => s.spec_next_edit(),
        Step::Increment => s.spec_increment(),
        Step::Decrement => s.spec_decrement(),
        Step::Quit => App { should_quit: true, ..s },
    }
}

/// The timer after the steps of `steps`, first to last.
pub open spec fn spec_run(s: App, steps: Seq<Step>) -> App
    decreases steps.len(),
{
    if steps.len() == 0 {
        s
    } else {
        spec_step(spec_run(s, steps.drop_last()), steps.last())
    }
}

/// The lesser of a configured interval and the one-minute floor: what no
/// step takes the interval below.
pub open spec fn spec_floor(nanos: nat) -> nat {
    if nanos < MIN_DURATION {
        nanos
    } else {
        MIN_DURATION as nat
    }
}

/// No step takes a configured interval below a minute, nor lowers one that
/// is below a minute already; and a step changes a configured interval only
/// if it is an edit.
pub proof fn lemma_step_keeps_floor(s: App, step: Step)
    ensures
        spec_step(s, step).pomo_dur_bk@ >= spec_floor(s.pomo_dur_bk@),
        spec_step(s, step).break_dur_bk@ >= spec_floor(s.break_dur_bk@),
        s.inv() ==> spec_step(s, step).inv(),
        !(step is Increment || step is Decrement) ==> {
            &&& spec_step(s, step).pomo_dur_bk == s.pomo_dur_bk
            &&& spec_step(s, step).break_dur_bk == s.break_dur_bk
        },
{
}

/// Whatever is done to a timer, and in whatever order, neither countdown
/// and no count of intervals is ever below zero.
pub proof fn lemma_run_never_negative(s: App, steps: Seq<Step>)
    ensures
        spec_run(s, steps).pomo_dur@ >= 0,
        spec_run(s, steps).break_dur@ >= 0,
        spec_run(s, steps).pomo_num >= 0,
{
}

/// Whatever is done to a timer, and in whatever order, a configured interval
/// of a minute or more stays at a minute or more: decrementing it over and
/// over stops at the floor.
pub proof fn lemma_run_keeps_floor(s: App, steps: Seq<Step>)
    ensures
        spec_run(s, steps).pomo_dur_bk@ >= spec_floor(s.pomo_dur_bk@),
        spec_run(s, steps).break_dur_bk@ >= spec_floor(s.break_dur_bk@),
        s.inv() ==> spec_run(s, steps).inv(),
    decreases steps.len(),
{
    if steps.len() > 0 {
        lemma_run_keeps_floor(s, steps.drop_last());
        lemma_step_keeps_floor(spec_run(s, steps.drop_last()), steps.last());
    }
}

/// With the count of focus intervals under edit and at zero, `decrement`
/// changes nothing.
pub proof fn lemma_decrement_stops_at_zero(s: App)
    requires
        s.edit_app == EditApp::PomoNum,
        s.pomo_num == 0,
    ensures
        s.spec_decrement() == s,
{
}

/// Advancing twice to one instant is advancing to it once.
pub proof fn lemma_advance_idempotent(s: App, now: Timestamp)
    ensures
        s.spec_advance(now).spec_advance(now) == s.spec_advance(now),
{
}

/// Elapsed time adds up: where the phase is the same after advancing to
/// `later`, it makes no difference to have advanced to an instant between
/// `start_time` and `later` on the way.
pub proof fn lemma_advance_additive(s: App, between: Timestamp, later: Timestamp)
    requires
        s.start_time@ <= between@ <= later@,
        s.spec_advance(later).state == s.state,
    ensures
        s.spec_advance(between).spec_advance(later) == s.spec_advance(later),
{
}

/// An edit touches the one field it is aimed at: with nothing under edit it
/// changes nothing, and otherwise the state after it is the state before it
/// with that field replaced.
pub proof fn lemma_edit_isolation(s: App)
    ensures
        s.edit_app == EditApp::Nothing ==> s.spec_increment() == s && s.spec_decrement() == s,
        s.edit_app == EditApp::PomoNum ==> {
            &&& s.spec_increment() == (App { pomo_num: s.spec_increment().pomo_num, ..s })
            &&& s.spec_decrement() == (App { pomo_num: s.spec_decrement().pomo_num, ..s })
        },
        s.edit_app == EditApp::PomoDur ==> {
            &&& s.spec_increment() == (App { pomo_dur_bk: s.spec_increment().pomo_dur_bk, ..s })
            &&& s.spec_decrement() == (App { pomo_dur_bk: s.spec_decrement().pomo_dur_bk, ..s })
        },
        s.edit_app == EditApp::BreakDur ==> {
            &&& s.spec_increment() == (App { break_dur_bk: s.spec_increment().break_dur_bk, ..s })
            &&& s.spec_decrement() == (App { break_dur_bk: s.spec_decrement().break_dur_bk, ..s })
        },
{
}

/// Moving the edit on four times brings it back to where it was, and
/// changes nothing else.
pub proof fn lemma_next_edit_round(s: App)
    ensures
        s.spec_next_edit().spec_next_edit().spec_next_edit().spec_next_edit() == s,
{
}

/// A pause loses no time and gains none: a running countdown with time left
/// that is stopped at one instant and started again at another, however much
/// later, has as much left as before.
pub proof fn lemma_pause_keeps_remaining(s: App, paused: Timestamp, resumed: Timestamp)
    requires
        s.state == AppState::RunPomo && s.pomo_dur@ > 0 || s.state == AppState::RunBreak
            && s.break_dur@ > 0,
    ensures
        s.spec_toggle(paused).spec_toggle(resumed).pomo_dur == s.pomo_dur,
        s.spec_toggle(paused).spec_toggle(resumed).break_dur == s.break_dur,
        s.pomo_num > 0 ==> s.spec_toggle(paused).spec_toggle(resumed) == (App {
            start_time: resumed,
            ..s
        }),
{
}

/// Out of focus intervals, a start does nothing until the count is raised;
/// once it is, the start runs a focus interval from that instant.
pub proof fn lemma_out_of_intervals(s: App, now: Timestamp)
    requires
        s.state == AppState::NoMorePomo,
    ensures
        s.pomo_num == 0 ==> s.spec_toggle(now) == s,
        s.pomo_num > 0 ==> s.spec_toggle(now) == (App {
            start_time: now,
            state: AppState::RunPomo,
            ..s
        }),
{
}

/// A stopwatch that stands still takes no notice of a tick: whatever is
/// configured and whatever it has counted, the timer stays as it is and no
/// interval ends.
pub proof fn lemma_idle_tick_changes_nothing(p: Pomodoro, at: Timestamp, now: Timestamp)
    requires
        p.elapsed_time.state == State::Idle,
    ensures
        p.spec_tick(at) == p,
        p.spec_update(Message::Tick(at), now) == p,
        p.spec_ended(Message::Tick(at)) == Ended::Nothing,
{
}

/// Only a tick on a running stopwatch ends an interval, and it ends the kind
/// of interval that was on.
pub proof fn lemma_only_a_running_tick_ends(p: Pomodoro, message: Message)
    requires
        p.spec_ended(message) != Ended::Nothing,
    ensures
        message is Tick,
        p.elapsed_time.state is Ticking,
        p.spec_ended(message) == if p.is_pomodoro {
            Ended::Pomodoro
        } else {
            Ended::Break
        },
{
}

} // verus!

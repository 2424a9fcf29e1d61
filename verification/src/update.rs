//! What a key press and a tick of the event loop do to the timer.

use crate::app::{App, AppState};
use crate::span::Timestamp;
use vstd::prelude::*;

verus! {

/// The modifier mask of a key pressed with Control and nothing else.
pub const CONTROL: u8 = 0b0000_0010;

/// The keys that the timer tells apart.
#[derive(Clone, Copy, Debug, PartialEq, Eq, Structural)]
pub enum Key {
    /// Escape.
    Esc,
    /// A character key.
    Char(char),
    /// Arrow left.
    Left,
    /// Arrow right.
    Right,
    /// Tab.
    Tab,
    /// Any other key.
    Other,
}

/// A key press: the key, and the modifiers held with it as a bit mask
/// (Shift 1, Control 2, Alt 4, and so on).
#[derive(Clone, Copy, Debug, PartialEq, Eq, Structural)]
pub struct KeyPress {
    pub code: Key,
    pub modifiers: u8,
}

/// What a key press asks of the timer.
#[derive(Clone, Copy, Debug, PartialEq, Eq, Structural)]
pub enum Action {
    /// Leave the event loop.
    Quit,
    /// Step the field under edit up.
    Increment,
    /// Step the field under edit down.
    Decrement,
    /// Move the edit on to the next field.
    NextEdit,
    /// Start, pause or resume.
    Toggle,
    /// Nothing: the key has no meaning.
    Nothing,
}

/// The meaning of each key: Escape and `q` quit, and so does `c` or `C` with
/// Control and no other modifier; arrow left and `j` step up, arrow right and
/// `k` step down; Tab moves the edit on; the space bar starts and stops. A
/// key that is none of these means nothing.
pub open spec fn spec_action(key: KeyPress) -> Action {
    match key.code {
        Key::Esc => Action::Quit,
        Key::Char(c) => if c == 'q' {
            Action::Quit
        } else if c == 'c' || c == 'C' {
            if key.modifiers == CONTROL {
                Action::Quit
            } else {
                Action::Nothing
            }
        } else if c == 'j' {
            Action::Increment
        } else if c == 'k' {
            Action::Decrement
        } else if c == ' ' {
            Action::Toggle
        } else {
            Action::Nothing
        },
        Key::Left => Action::Increment,
        Key::Right => Action::Decrement,
        Key::Tab => Action::NextEdit,
        Key::Other => Action::Nothing,
    }
}

/// The timer after `action`, where a toggle happens at the instant `now`.
pub open spec fn spec_apply(app: App, action: Action, now: Timestamp) -> App {
    match action {
        Action::Quit => App { should_quit: true, ..app },
        Action::Increment => app.spec_increment(),
        Action::Decrement => app.spec_decrement(),
        Action::NextEdit => app.spec_next_edit(),
        Action::Toggle => app.spec_toggle(now),
        Action::Nothing => app,
    }
}

/// Reads a key press.
pub fn action_for(key: &KeyPress) -> (action: Action)
    ensures
        action == spec_action(*key),
{
    match key.code {
        Key::Esc => Action::Quit,
        Key::Char(c) => {
            if c == 'q' {
                Action::Quit
            } else if c == 'c' || c == 'C' {
                if key.modifiers == CONTROL {
                    Action::Quit
                } else {
                    Action::Nothing
                }
            } else if c == 'j' {
                Action::Increment
            } else if c == 'k' {
                Action::Decrement
            } else if c == ' ' {
                Action::Toggle
            } else {
                Action::Nothing
            }
        },
        Key::Left => Action::Increment,
        Key::Right => Action::Decrement,
        Key::Tab => Action::NextEdit,
        Key::Other => Action::Nothing,
    }
}

/// Does to the timer what the key press asks. A toggle happens at the
/// present instant, read from the timer's clock; no other action looks at
/// the time.
pub fn update(app: &mut App, key_event: KeyPress)
    ensures
        exists|now: Timestamp| *final(app) == #[trigger] spec_apply(
            *old(app),
            spec_action(key_event),
            now,
        ),
        spec_action(key_event) != Action::Toggle ==> *final(app) == spec_apply(
            *old(app),
            spec_action(key_event),
            old(app).start_time,
        ),
{
    let ghost before = *app;
    match action_for(&key_event) {
        Action::Quit => app.quit(),
        Action::Increment => app.increment(),
        Action::Decrement => app.decrement(),
        Action::NextEdit => app.next_edit(),
        Action::Toggle => app.toggle_start_stop(),
        Action::Nothing => {},
    }
    proof {
        if spec_action(key_event) == Action::Toggle {
            let now = choose|now: Timestamp| *app == #[trigger] before.spec_toggle(now);
            assert(*app == spec_apply(before, Action::Toggle, now));
        } else {
            assert(*app == spec_apply(before, spec_action(key_event), before.start_time));
        }
    }
}

/// Brings whichever countdown is running up to the present instant, read
/// from the timer's clock. While none is running the timer stays as it is.
pub fn increase_timer(app: &mut App)
    ensures
        exists|now: Timestamp| *final(app) == #[trigger] old(app).spec_advance(now),
        !old(app).state.spec_is_running() ==> *final(app) == *old(app),
{
    let ghost before = *app;
    match app.state {
        AppState::RunPomo => {
            app.update_timer();
            proof {
                let now = choose|now: Timestamp| *app == #[trigger] before.spec_update_timer(now);
                assert(*app == before.spec_advance(now));
            }
        },
        AppState::RunBreak => {
            app.update_break_timer();
            proof {
                let now = choose|now: Timestamp|
                    *app == #[trigger] before.spec_update_break_timer(now);
                assert(*app == before.spec_advance(now));
            }
        },
        _ => {
            assert(*app == before.spec_advance(before.start_time));
        },
    }
}

} // verus!

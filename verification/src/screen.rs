//! What the terminal front end shows of a timer, as plain data: the words,
//! and the colour of each part. Laying the parts out and drawing them is the
//! front end's business.

use crate::app::{App, AppState, EditApp};
use crate::decimal::{append_decimal, append_two_digits, spec_digits, spec_two_digits};
use crate::span::{Span, NANOS_PER_SEC};
use vstd::prelude::*;
use vstd::string::*;

verus! {

/// The emoji that `emojis::get_by_shortcode` finds for a shortcode, as text;
/// `None` for a shortcode that it does not know.
pub uninterp spec fn shortcode_emoji(code: Seq<char>) -> Option<Seq<char>>;

/// `emojis::get_by_shortcode`, with the emoji turned into its text. The
/// lookup goes to a table that is fixed when the program is built, so one
/// shortcode always gives one answer; the contract names that answer and
/// says no more of it.
#[verifier::external_body]
fn emoji_by_shortcode(code: &str) -> (emoji: Option<String>)
    ensures
        match emoji {
            Some(e) => shortcode_emoji(code@) == Some(e@),
            None => shortcode_emoji(code@) is None,
        },
{
    match emojis::get_by_shortcode(code) {
        Some(e) => Some(e.to_string()),
        None => None,
    }
}

/// The colours in use.
#[derive(Debug, Clone, Copy, PartialEq, Eq, Structural)]
pub enum Tint {
    Green,
    Cyan,
    Yellow,
    Red,
}

/// The two emoji that the titles are written with.
#[derive(Debug, Clone, PartialEq, Eq)]
pub struct Glyphs {
    /// The tomato.
    pub pomo_emoji: String,
    /// The timer clock.
    pub timer_emoji: String,
}

/// One of the three boxes at the top, before it is coloured: the field it
/// stands for, what it says, and its title.
#[derive(Debug, Clone, PartialEq, Eq)]
pub struct TopBar {
    pub line_type: EditApp,
    pub text: String,
    pub title: String,
}

/// A box at the top, ready to draw.
#[derive(Debug, Clone, PartialEq, Eq)]
pub struct Bar {
    pub text: String,
    pub title: String,
    pub tint: Tint,
}

/// The big clock in the middle.
#[derive(Debug, Clone, PartialEq, Eq)]
pub struct ClockFace {
    pub text: String,
    pub tint: Tint,
}

/// The line that cheers the user on.
#[derive(Debug, Clone, Copy, PartialEq, Eq)]
pub struct Banner {
    pub text: &'static str,
    pub tint: Tint,
}

/// The two parts of the help line that depend on the timer: what the space
/// bar does now, and what Tab moves the edit to.
#[derive(Debug, Clone, Copy, PartialEq, Eq)]
pub struct Help {
    pub space_action: &'static str,
    pub next_element: &'static str,
}

/// Everything on the screen.
#[derive(Debug, Clone, PartialEq, Eq)]
pub struct Screen {
    pub pomo_num: Bar,
    pub pomo_dur: Bar,
    pub break_dur: Bar,
    pub motivation: Banner,
    pub clock: ClockFace,
    pub help: Help,
}

/// A span as the clock shows it: its whole minutes and the seconds beyond
/// them, each two digits wide at the least; what is left of a second is
/// dropped.
pub open spec fn spec_format_duration(duration: Span) -> Seq<char> {
    let secs = duration@ / (NANOS_PER_SEC as nat);
    spec_two_digits(secs / 60) + "min:"@ + spec_two_digits(secs % 60) + "sec"@
}

/// The colour of the clock: yellow while the timer stands, red while it
/// runs, green once it is out of intervals.
pub open spec fn spec_clock_tint(state: AppState) -> Tint {
    match state {
        AppState::StopPomo | AppState::StopBreak => Tint::Yellow,
        AppState::RunPomo | AppState::RunBreak => Tint::Red,
        AppState::NoMorePomo => Tint::Green,
    }
}

/// What the clock says: what is left of the interval that is on or due, and
/// nothing once the timer is out of intervals.
pub open spec fn spec_clock_text(app: App) -> Seq<char> {
    match app.state {
        AppState::StopPomo | AppState::RunPomo => spec_format_duration(app.pomo_dur),
        AppState::StopBreak | AppState::RunBreak => spec_format_duration(app.break_dur),
        AppState::NoMorePomo => Seq::<char>::empty(),
    }
}

/// The colour of the cheering line: yellow while the timer runs, green
/// otherwise.
pub open spec fn spec_motivation_tint(state: AppState) -> Tint {
    match state {
        AppState::RunPomo | AppState::RunBreak => Tint::Yellow,
        _ => Tint::Green,
    }
}

/// The words of the cheering line.
pub open spec fn spec_motivation_text(state: AppState) -> Seq<char> {
    match state {
        AppState::StopPomo => "Time to focus, press space"@,
        AppState::RunPomo => "Focus, don't look at me!!"@,
        AppState::StopBreak => "Time to take a break, press space"@,
        AppState::RunBreak => "Take a break, enjoy your coffe :)"@,
        AppState::NoMorePomo => "0 Pomodoro Left, add more pomodoros"@,
    }
}

/// What the space bar does now.
pub open spec fn spec_space_action(state: AppState) -> Seq<char> {
    match state {
        AppState::StopPomo | AppState::StopBreak => "start"@,
        _ => "stop"@,
    }
}

/// What Tab moves the edit to.
pub open spec fn spec_next_element(edit: EditApp) -> Seq<char> {
    match edit {
        EditApp::Nothing => "edit pomodoro's number"@,
        EditApp::PomoNum => "edit pomodoro's duration"@,
        EditApp::PomoDur => "edit break's duration"@,
        EditApp::BreakDur => "No action"@,
    }
}

impl Glyphs {
    /// The two emoji, if both were found.
    pub fn pair(pomo: Option<String>, timer: Option<String>) -> (glyphs: Option<Glyphs>)
        ensures
            match glyphs {
                Some(g) => pomo == Some(g.pomo_emoji) && timer == Some(g.timer_emoji),
                None => pomo is None || timer is None,
            },
    {
        match pomo {
            Some(pomo_emoji) => match timer {
                Some(timer_emoji) => Some(Glyphs { pomo_emoji, timer_emoji }),
                None => None,
            },
            None => None,
        }
    }

    /// Looks the two emoji up by their shortcodes, `tomato` and
    /// `timer_clock`. There are glyphs if and only if both are known.
    pub fn new() -> (glyphs: Option<Glyphs>)
        ensures
            match glyphs {
                Some(g) => {
                    &&& shortcode_emoji("tomato"@) == Some(g.pomo_emoji@)
                    &&& shortcode_emoji("timer_clock"@) == Some(g.timer_emoji@)
                },
                None => shortcode_emoji("tomato"@) is None || shortcode_emoji("timer_clock"@)
                    is None,
            },
    {
        let pomo = emoji_by_shortcode("tomato");
        let timer = emoji_by_shortcode("timer_clock");
        Glyphs::pair(pomo, timer)
    }
}

/// Writes a span as the clock shows it.
pub fn format_duration(duration: &Span) -> (text: String)
    ensures
        text@ == spec_format_duration(*duration),
{
    let secs = duration.as_secs();
    let mut text = String::new();
    append_two_digits(&mut text, secs / 60);
    text.append("min:");
    append_two_digits(&mut text, secs % 60);
    text.append("sec");
    assert(text@ =~= spec_format_duration(*duration));
    text
}

/// Colours a box at the top: green where its field is under edit, cyan
/// where it is not.
pub fn top_bar(app: &App, bar_element: &TopBar) -> (bar: Bar)
    ensures
        bar.text@ == bar_element.text@,
        bar.title@ == bar_element.title@,
        bar.tint == if app.edit_app == bar_element.line_type {
            Tint::Green
        } else {
            Tint::Cyan
        },
{
    let tint = if app.edit_app == bar_element.line_type {
        Tint::Green
    } else {
        Tint::Cyan
    };
    Bar { text: bar_element.text.clone(), title: bar_element.title.clone(), tint }
}

/// The big clock.
pub fn center_clock(app: &App) -> (face: ClockFace)
    ensures
        face.tint == spec_clock_tint(app.state),
        face.text@ == spec_clock_text(*app),
{
    let tint = match app.state {
        AppState::StopPomo | AppState::StopBreak => Tint::Yellow,
        AppState::RunPomo | AppState::RunBreak => Tint::Red,
        AppState::NoMorePomo => Tint::Green,
    };
    let text = match app.state {
        AppState::StopPomo | AppState::RunPomo => format_duration(&app.pomo_dur),
        AppState::StopBreak | AppState::RunBreak => format_duration(&app.break_dur),
        AppState::NoMorePomo => String::new(),
    };
    ClockFace { text, tint }
}

/// The cheering line.
pub fn motivation_text(app: &App) -> (banner: Banner)
    ensures
        banner.tint == spec_motivation_tint(app.state),
        banner.text@ == spec_motivation_text(app.state),
{
    let tint = match app.state {
        AppState::StopPomo | AppState::StopBreak => Tint::Green,
        AppState::RunPomo | AppState::RunBreak => Tint::Yellow,
        AppState::NoMorePomo => Tint::Green,
    };
    let text = match app.state {
        AppState::StopPomo => "Time to focus, press space",
        AppState::RunPomo => "Focus, don't look at me!!",
        AppState::StopBreak => "Time to take a break, press space",
        AppState::RunBreak => "Take a break, enjoy your coffe :)",
        AppState::NoMorePomo => "0 Pomodoro Left, add more pomodoros",
    };
    Banner { text, tint }
}

/// The parts of the help line that depend on the timer.
pub fn help_paragraph(app: &App) -> (help: Help)
    ensures
        help.space_action@ == spec_space_action(app.state),
        help.next_element@ == spec_next_element(app.edit_app),
{
    let space_action = match app.state {
        AppState::StopPomo | AppState::StopBreak => "start",
        _ => "stop",
    };
    let next_element = match app.edit_app {
        EditApp::Nothing => "edit pomodoro's number",
        EditApp::PomoNum => "edit pomodoro's duration",
        EditApp::PomoDur => "edit break's duration",
        EditApp::BreakDur => "No action",
    };
    Help { space_action, next_element }
}

/// Everything on the screen: the three boxes with the number of focus
/// intervals left and the two configured lengths, the box of the field under
/// edit in green; the cheering line; the clock; the help line.
pub fn render(app: &App, glyphs: &Glyphs) -> (screen: Screen)
    ensures
        screen.pomo_num.title@ == "Number of "@ + glyphs.pomo_emoji@,
        screen.pomo_num.text@ == spec_digits(app.pomo_num as nat),
        screen.pomo_num.tint == if app.edit_app == EditApp::PomoNum {
            Tint::Green
        } else {
            Tint::Cyan
        },
        screen.pomo_dur.title@ == glyphs.pomo_emoji@ + " duration "@,
        screen.pomo_dur.text@ == spec_format_duration(app.pomo_dur_bk),
        screen.pomo_dur.tint == if app.edit_app == EditApp::PomoDur {
            Tint::Green
        } else {
            Tint::Cyan
        },
        screen.break_dur.title@ == glyphs.timer_emoji@ + "  duration "@,
        screen.break_dur.text@ == spec_format_duration(app.break_dur_bk),
        screen.break_dur.tint == if app.edit_app == EditApp::BreakDur {
            Tint::Green
        } else {
            Tint::Cyan
        },
        screen.motivation.tint == spec_motivation_tint(app.state),
        screen.motivation.text@ == spec_motivation_text(app.state),
        screen.clock.tint == spec_clock_tint(app.state),
        screen.clock.text@ == spec_clock_text(*app),
        screen.help.space_action@ == spec_space_action(app.state),
        screen.help.next_element@ == spec_next_element(app.edit_app),
{
    let mut number_title = String::from_str("Number of ");
    number_title.append(glyphs.pomo_emoji.as_str());
    let mut number_text = String::new();
    append_decimal(&mut number_text, app.pomo_num as u128);
    assert(number_text@ =~= spec_digits(app.pomo_num as nat));
    let pomo_num = top_bar(
        app,
        &TopBar { line_type: EditApp::PomoNum, title: number_title, text: number_text },
    );

    let mut focus_title = glyphs.pomo_emoji.clone();
    focus_title.append(" duration ");
    let pomo_dur = top_bar(
        app,
        &TopBar {
            line_type: EditApp::PomoDur,
            title: focus_title,
            text: format_duration(&app.pomo_dur_bk),
        },
    );

    let mut break_title = glyphs.timer_emoji.clone();
    break_title.append("  duration ");
    let break_dur = top_bar(
        app,
        &TopBar {
            line_type: EditApp::BreakDur,
            title: break_title,
            text: format_duration(&app.break_dur_bk),
        },
    );

    Screen {
        pomo_num,
        pomo_dur,
        break_dur,
        motivation: motivation_text(app),
        clock: center_clock(app),
        help: help_paragraph(app),
    }
}

} // verus!

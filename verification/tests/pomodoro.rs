use pomodoro::pomodoro::{Ended, Notice, State, Stopwatch, TICK_EVERY};
use pomodoro::{Message, Pomodoro, Span, Timestamp};

const SECOND: u128 = 1_000_000_000;

fn configured(counter: u32, focus: u64, pause: u64) -> Pomodoro {
    let mut timer = Pomodoro::new();
    timer.pomodoro_counter = counter;
    timer.pomodoro_duration = focus;
    timer.break_duration = pause;
    timer
}

fn at(nanos: u128) -> Timestamp {
    Timestamp::from_nanos(nanos)
}

#[test]
fn a_fresh_stopwatch_timer_is_empty() {
    let timer = Pomodoro::new();
    assert_eq!(timer.pomodoro_duration, 0);
    assert_eq!(timer.pomodoro_counter, 0);
    assert_eq!(timer.break_duration, 0);
    assert_eq!(timer.elapsed_time, Stopwatch { duration: Span::zero(), state: State::Idle });
    assert!(timer.is_pomodoro);
    assert_eq!(timer.notice, Notice::StartPomodoro);
    assert_eq!(timer.subscription(), None);
}

#[test]
fn the_buttons_count_up_and_down() {
    let mut timer = Pomodoro::new();
    assert_eq!(timer.update(Message::DecrementPomodoroCounter), Ended::Nothing);
    assert_eq!(timer.pomodoro_counter, 0);
    timer.update(Message::IncrementPomodoroCounter);
    timer.update(Message::IncrementPomodoroCounter);
    timer.update(Message::DecrementPomodoroCounter);
    assert_eq!(timer.pomodoro_counter, 1);
    timer.update(Message::DecrementPomodoroDuration);
    assert_eq!(timer.pomodoro_duration, 0);
    timer.update(Message::IncrementPomodoroDuration);
    timer.update(Message::IncrementPomodoroDuration);
    timer.update(Message::IncrementPomodoroDuration);
    timer.update(Message::DecrementPomodoroDuration);
    assert_eq!(timer.pomodoro_duration, 2);
    timer.update(Message::DecrementBreakDuration);
    assert_eq!(timer.break_duration, 0);
    timer.update(Message::IncrementBreakDuration);
    assert_eq!(timer.break_duration, 1);
    assert_eq!(timer.notice, Notice::StartPomodoro);
    assert_eq!(timer.elapsed_time.state, State::Idle);
}

#[test]
fn the_counts_stop_at_the_most_they_can_hold() {
    let mut timer = configured(u32::MAX, u64::MAX, u64::MAX);
    timer.update(Message::IncrementPomodoroCounter);
    timer.update(Message::IncrementPomodoroDuration);
    timer.update(Message::IncrementBreakDuration);
    assert_eq!(timer.pomodoro_counter, u32::MAX);
    assert_eq!(timer.pomodoro_duration, u64::MAX);
    assert_eq!(timer.break_duration, u64::MAX);
}

#[test]
fn start_wants_something_to_run() {
    let mut timer = configured(0, 25, 5);
    timer.update_at(Message::StartPressed, at(9));
    assert_eq!(timer.notice, Notice::InvalidPomodoro);
    assert_eq!(timer.elapsed_time.state, State::Idle);
    let mut timer = configured(2, 0, 5);
    timer.update(Message::StartPressed);
    assert_eq!(timer.notice, Notice::InvalidPomodoro);
    assert_eq!(timer.elapsed_time.state, State::Idle);
    let mut timer = configured(2, 25, 0);
    timer.is_pomodoro = false;
    timer.update(Message::StartPressed);
    assert_eq!(timer.notice, Notice::InvalidBreak);
    assert_eq!(timer.elapsed_time.state, State::Idle);
    let mut timer = configured(0, 0, 5);
    timer.is_pomodoro = false;
    timer.update_at(Message::StartPressed, at(9));
    assert_eq!(timer.elapsed_time.state, State::Ticking { last_tick: at(9) });
}

#[test]
fn start_and_stop_move_the_stopwatch() {
    let mut timer = configured(1, 1, 1);
    assert_eq!(timer.update_at(Message::StartPressed, at(5)), Ended::Nothing);
    assert_eq!(timer.elapsed_time.state, State::Ticking { last_tick: at(5) });
    assert_eq!(timer.subscription(), Some(Span::from_millis(10)));
    assert_eq!(TICK_EVERY, 10_000_000);
    assert_eq!(timer.notice, Notice::StartPomodoro);
    timer.update(Message::Tick(at(5 + 3 * SECOND)));
    assert_eq!(timer.elapsed_time.duration, Span::from_secs(3));
    assert_eq!(timer.notice, Notice::StayFocused);
    timer.update(Message::StopPressed);
    assert_eq!(timer.elapsed_time.state, State::Idle);
    assert_eq!(timer.elapsed_time.duration, Span::from_secs(3));
    timer.update(Message::Tick(at(50 * SECOND)));
    assert_eq!(timer.elapsed_time.duration, Span::from_secs(3));
    assert_eq!(timer.elapsed_time.state, State::Idle);
}

#[test]
fn the_clock_starts_the_stopwatch() {
    let mut timer = configured(1, 1, 1);
    let before = timer.clock.now();
    timer.update(Message::StartPressed);
    let after = timer.clock.now();
    match timer.elapsed_time.state {
        State::Ticking { last_tick } => {
            assert!(before.as_nanos() <= last_tick.as_nanos());
            assert!(last_tick.as_nanos() <= after.as_nanos());
        }
        State::Idle => panic!("the stopwatch stands still"),
    }
}

#[test]
fn a_covered_focus_interval_makes_the_break_due() {
    let mut timer = configured(2, 1, 1);
    timer.update_at(Message::StartPressed, at(0));
    assert_eq!(timer.update(Message::Tick(at(59 * SECOND + 999_999_999))), Ended::Nothing);
    assert!(timer.is_pomodoro);
    assert_eq!(timer.update(Message::Tick(at(60 * SECOND))), Ended::Pomodoro);
    assert!(!timer.is_pomodoro);
    assert_eq!(timer.pomodoro_counter, 1);
    assert_eq!(timer.elapsed_time, Stopwatch { duration: Span::zero(), state: State::Idle });
    assert_eq!(timer.notice, Notice::StartBreak);
    timer.update_at(Message::StartPressed, at(100 * SECOND));
    assert_eq!(timer.update(Message::Tick(at(130 * SECOND))), Ended::Nothing);
    assert_eq!(timer.notice, Notice::Chill);
    assert_eq!(timer.update(Message::Tick(at(170 * SECOND))), Ended::Break);
    assert!(timer.is_pomodoro);
    assert_eq!(timer.pomodoro_counter, 1);
    assert_eq!(timer.elapsed_time, Stopwatch { duration: Span::zero(), state: State::Idle });
    assert_eq!(timer.notice, Notice::StartPomodoro);
}

#[test]
fn a_count_of_zero_stays_at_zero_when_the_interval_ends() {
    let mut timer = configured(1, 1, 1);
    timer.update_at(Message::StartPressed, at(0));
    timer.update(Message::DecrementPomodoroCounter);
    assert_eq!(timer.pomodoro_counter, 0);
    assert_eq!(timer.update(Message::Tick(at(61 * SECOND))), Ended::Pomodoro);
    assert_eq!(timer.pomodoro_counter, 0);
}

#[test]
fn a_tick_from_before_the_last_one_counts_as_no_time() {
    let mut timer = configured(1, 5, 1);
    timer.update_at(Message::StartPressed, at(100 * SECOND));
    timer.update(Message::Tick(at(40 * SECOND)));
    assert_eq!(timer.elapsed_time.duration, Span::zero());
    assert_eq!(timer.elapsed_time.state, State::Ticking { last_tick: at(40 * SECOND) });
}

#[test]
fn each_notice_has_its_words() {
    assert_eq!(Notice::StartPomodoro.text(), "Start a new Pomodoro");
    assert_eq!(Notice::StartBreak.text(), "Start a new Break");
    assert_eq!(Notice::InvalidPomodoro.text(), "Please set a valid Pomodoro number");
    assert_eq!(Notice::InvalidBreak.text(), "Please set a valid Break duration");
    assert_eq!(Notice::StayFocused.text(), "Stay focused ^-^");
    assert_eq!(Notice::Chill.text(), "Chill Bro :)");
}

#[test]
fn the_panel_shows_the_timer_in_words() {
    let mut timer = configured(3, 25, 5);
    timer.elapsed_time.duration = Span::from_nanos(754 * SECOND + 5);
    timer.notice = Notice::StayFocused;
    let panel = timer.panel();
    assert_eq!(panel.counter, "3");
    assert_eq!(panel.pomodoro_duration, "25 minutes");
    assert_eq!(panel.break_duration, "5 minutes");
    assert_eq!(panel.notice, "Stay focused ^-^");
    assert_eq!(panel.elapsed, "12 min 34 sec");
    let panel = Pomodoro::new().panel();
    assert_eq!(panel.counter, "0");
    assert_eq!(panel.pomodoro_duration, "0 minutes");
    assert_eq!(panel.elapsed, "0 min 0 sec");
    assert_eq!(panel.notice, "Start a new Pomodoro");
}

#[test]
fn interval_covered_compares_whole_seconds_with_the_minutes() {
    let mut timer = configured(1, 2, 1);
    assert!(!timer.interval_covered());
    timer.elapsed_time.duration = Span::from_nanos(120 * SECOND - 1);
    assert!(!timer.interval_covered());
    timer.elapsed_time.duration = Span::from_secs(120);
    assert!(timer.interval_covered());
    timer.is_pomodoro = false;
    timer.elapsed_time.duration = Span::from_secs(59);
    assert!(!timer.interval_covered());
    timer.elapsed_time.duration = Span::from_secs(60);
    assert!(timer.interval_covered());
    timer.break_duration = u64::MAX;
    timer.elapsed_time.duration = Span::from_nanos(u128::MAX);
    assert!(timer.interval_covered());
    assert!(Pomodoro::new().interval_covered());
}

#[test]
fn a_tick_on_a_fresh_timer_does_nothing() {
    let mut timer = Pomodoro::new();
    assert_eq!(timer.update(Message::Tick(at(5 * SECOND))), Ended::Nothing);
    assert_eq!(timer.pomodoro_counter, 0);
    assert_eq!(timer.pomodoro_duration, 0);
    assert_eq!(timer.break_duration, 0);
    assert!(timer.is_pomodoro);
    assert_eq!(timer.elapsed_time, Stopwatch { duration: Span::zero(), state: State::Idle });
    assert_eq!(timer.notice, Notice::StartPomodoro);
    assert_eq!(timer.update_at(Message::Tick(at(0)), at(9)), Ended::Nothing);
    assert!(timer.is_pomodoro);
    assert_eq!(timer.notice, Notice::StartPomodoro);
}

#[test]
fn a_tick_on_a_paused_stopwatch_ends_nothing_even_where_the_interval_is_covered() {
    let mut timer = configured(2, 5, 1);
    timer.update_at(Message::StartPressed, at(0));
    timer.update(Message::Tick(at(90 * SECOND)));
    timer.update(Message::StopPressed);
    for _ in 0..4 {
        timer.update(Message::DecrementPomodoroDuration);
    }
    assert_eq!(timer.pomodoro_duration, 1);
    assert!(timer.interval_covered());
    let before = (
        timer.pomodoro_duration,
        timer.pomodoro_counter,
        timer.break_duration,
        timer.elapsed_time,
        timer.is_pomodoro,
        timer.notice,
    );
    assert_eq!(timer.update(Message::Tick(at(200 * SECOND))), Ended::Nothing);
    let after = (
        timer.pomodoro_duration,
        timer.pomodoro_counter,
        timer.break_duration,
        timer.elapsed_time,
        timer.is_pomodoro,
        timer.notice,
    );
    assert_eq!(after, before);
    assert_eq!(
        before,
        (
            1,
            2,
            1,
            Stopwatch { duration: Span::from_secs(90), state: State::Idle },
            true,
            Notice::StayFocused
        )
    );
    timer.update_at(Message::StartPressed, at(300 * SECOND));
    assert_eq!(timer.update(Message::Tick(at(300 * SECOND))), Ended::Pomodoro);
    assert!(!timer.is_pomodoro);
    assert_eq!(timer.pomodoro_counter, 1);
}

#[test]
fn a_tick_on_a_paused_break_ends_nothing() {
    let mut timer = configured(1, 1, 0);
    timer.is_pomodoro = false;
    assert!(timer.interval_covered());
    assert_eq!(timer.update(Message::Tick(at(SECOND))), Ended::Nothing);
    assert!(!timer.is_pomodoro);
    assert_eq!(timer.notice, Notice::StartPomodoro);
    assert_eq!(timer.elapsed_time.state, State::Idle);
}

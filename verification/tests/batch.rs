use pomodoro::batch::{Run, Show, SECS_PER_MINUTE};
use pomodoro::Config;

#[test]
fn a_run_starts_at_the_first_second_of_the_first_pomodoro() {
    assert_eq!(Run::start(), Run { pomo: 0, on_break: false, second: 0 });
    assert_eq!(SECS_PER_MINUTE, 60);
}

#[test]
fn a_second_is_shown_as_minutes_and_seconds() {
    let config = Config { num_pomodoro: 1, dur_pomodoro: 3, dur_pause: 1 };
    let mut run = Run { pomo: 0, on_break: false, second: 125 };
    assert_eq!(run.step(&config), Show::Second { pomo: 0, min: 2, sec: 5 });
    assert_eq!(run, Run { pomo: 0, on_break: false, second: 126 });
}

#[test]
fn a_run_goes_through_every_interval_and_stops() {
    let config = Config { num_pomodoro: 2, dur_pomodoro: 2, dur_pause: 1 };
    let mut run = Run::start();
    let mut shown = Vec::new();
    let mut seconds = 0u64;
    loop {
        match run.step(&config) {
            Show::Second { .. } => seconds += 1,
            Show::Finished => break,
            other => shown.push((seconds, other)),
        }
    }
    assert_eq!(seconds, 2 * (2 + 1) * 60);
    assert_eq!(
        shown,
        vec![
            (120, Show::FocusOver),
            (180, Show::BreakOver { back_to_work: false }),
            (300, Show::FocusOver),
            (360, Show::BreakOver { back_to_work: true }),
        ]
    );
    let end = run;
    assert_eq!(end, Run { pomo: 2, on_break: false, second: 0 });
    assert_eq!(run.step(&config), Show::Finished);
    assert_eq!(run, end);
}

#[test]
fn the_seconds_of_an_interval_count_up_from_zero() {
    let config = Config { num_pomodoro: 1, dur_pomodoro: 1, dur_pause: 1 };
    let mut run = Run::start();
    for second in 0..60 {
        assert_eq!(run.step(&config), Show::Second { pomo: 0, min: 0, sec: second });
    }
    assert_eq!(run.step(&config), Show::FocusOver);
    assert_eq!(run, Run { pomo: 0, on_break: true, second: 0 });
    assert_eq!(run.step(&config), Show::Second { pomo: 0, min: 0, sec: 0 });
}

#[test]
fn a_run_of_no_pomodoros_is_finished_at_once() {
    let config = Config { num_pomodoro: 0, dur_pomodoro: 25, dur_pause: 5 };
    let mut run = Run::start();
    assert_eq!(run.step(&config), Show::Finished);
    assert_eq!(run, Run::start());
}

#[test]
fn the_longest_interval_is_counted_without_overflow() {
    let config = Config { num_pomodoro: 1, dur_pomodoro: u32::MAX, dur_pause: 1 };
    let last = u32::MAX as u64 * 60 - 1;
    let mut run = Run { pomo: 0, on_break: false, second: last };
    assert_eq!(run.step(&config), Show::Second { pomo: 0, min: last / 60, sec: 59 });
    assert_eq!(run.step(&config), Show::FocusOver);
}

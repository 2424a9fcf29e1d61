use pomodoro::update::{action_for, increase_timer, update, Action, Key, KeyPress, CONTROL};
use pomodoro::{App, AppState, EditApp};

fn plain(code: Key) -> KeyPress {
    KeyPress { code, modifiers: 0 }
}

#[test]
fn every_key_has_its_meaning() {
    assert_eq!(action_for(&plain(Key::Esc)), Action::Quit);
    assert_eq!(action_for(&plain(Key::Char('q'))), Action::Quit);
    assert_eq!(action_for(&plain(Key::Left)), Action::Increment);
    assert_eq!(action_for(&plain(Key::Char('j'))), Action::Increment);
    assert_eq!(action_for(&plain(Key::Right)), Action::Decrement);
    assert_eq!(action_for(&plain(Key::Char('k'))), Action::Decrement);
    assert_eq!(action_for(&plain(Key::Tab)), Action::NextEdit);
    assert_eq!(action_for(&plain(Key::Char(' '))), Action::Toggle);
    assert_eq!(action_for(&plain(Key::Other)), Action::Nothing);
    assert_eq!(action_for(&plain(Key::Char('x'))), Action::Nothing);
    assert_eq!(action_for(&plain(Key::Char('Q'))), Action::Nothing);
}

#[test]
fn control_c_quits_only_with_control_alone() {
    assert_eq!(CONTROL, 2);
    for c in ['c', 'C'] {
        assert_eq!(action_for(&plain(Key::Char(c))), Action::Nothing);
        assert_eq!(
            action_for(&KeyPress { code: Key::Char(c), modifiers: CONTROL }),
            Action::Quit
        );
        assert_eq!(
            action_for(&KeyPress { code: Key::Char(c), modifiers: CONTROL | 1 }),
            Action::Nothing
        );
        assert_eq!(
            action_for(&KeyPress { code: Key::Char(c), modifiers: 4 }),
            Action::Nothing
        );
    }
    assert_eq!(
        action_for(&KeyPress { code: Key::Char('q'), modifiers: CONTROL }),
        Action::Quit
    );
}

#[test]
fn update_does_what_the_key_asks() {
    let mut app = App::new();
    update(&mut app, plain(Key::Tab));
    assert_eq!(app.edit_app, EditApp::PomoNum);
    update(&mut app, plain(Key::Char('j')));
    assert_eq!(app.pomo_num, 2);
    update(&mut app, plain(Key::Right));
    update(&mut app, plain(Key::Char('k')));
    assert_eq!(app.pomo_num, 0);
    update(&mut app, plain(Key::Left));
    assert_eq!(app.pomo_num, 1);
    update(&mut app, plain(Key::Char('x')));
    assert_eq!(app.pomo_num, 1);
    assert_eq!(app.state, AppState::StopPomo);
    update(&mut app, plain(Key::Char(' ')));
    assert_eq!(app.state, AppState::RunPomo);
    increase_timer(&mut app);
    assert_eq!(app.state, AppState::RunPomo);
    update(&mut app, plain(Key::Char(' ')));
    assert_eq!(app.state, AppState::StopPomo);
    assert!(!app.should_quit);
    update(&mut app, KeyPress { code: Key::Char('c'), modifiers: CONTROL });
    assert!(app.should_quit);
    let mut other = App::new();
    update(&mut other, plain(Key::Esc));
    assert!(other.should_quit);
}

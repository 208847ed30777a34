use pomodoro::input_handler::{command_from_char, process_key_event, Command, KeyCode, KeyPress};

fn press(code: KeyCode, control: bool) -> KeyPress {
    KeyPress { code, control, is_press: true }
}

#[test]
fn control_characters_become_commands() {
    assert_eq!(process_key_event(press(KeyCode::Char('p'), false)), Some(Command::Pause));
    assert_eq!(process_key_event(press(KeyCode::Char('r'), false)), Some(Command::Resume));
    assert_eq!(process_key_event(press(KeyCode::Char('q'), false)), Some(Command::Quit));
    assert_eq!(process_key_event(press(KeyCode::Char('s'), false)), Some(Command::Skip));
}

#[test]
fn ctrl_c_forces_exit_and_plain_c_is_a_character() {
    assert_eq!(process_key_event(press(KeyCode::Char('c'), true)), Some(Command::ForceExit));
    assert_eq!(process_key_event(press(KeyCode::Char('c'), false)), Some(Command::Char('c')));
}

#[test]
fn enter_confirms_and_other_keys_send_nothing() {
    assert_eq!(process_key_event(press(KeyCode::Enter, false)), Some(Command::Confirm));
    assert_eq!(process_key_event(press(KeyCode::Other, false)), None);
}

#[test]
fn key_releases_are_dropped() {
    let release = KeyPress { code: KeyCode::Char('p'), control: false, is_press: false };
    assert_eq!(process_key_event(release), None);
    let release = KeyPress { code: KeyCode::Char('c'), control: true, is_press: false };
    assert_eq!(process_key_event(release), None);
}

#[test]
fn printable_characters_pass_through() {
    assert_eq!(command_from_char('x'), Command::Char('x'));
    assert_eq!(command_from_char('P'), Command::Char('P'));
    assert_eq!(command_from_char('é'), Command::Char('é'));
}

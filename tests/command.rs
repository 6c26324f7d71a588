use linedit::command::{EditorCmd, Event, KeyCode, ALT, CONTROL, SHIFT};
use linedit::prompt::{prompt_step, PromptAction};

#[test]
fn plain_keys_map_to_commands() {
    assert_eq!(EditorCmd::from_key(KeyCode::Up, 0, 24), Some(EditorCmd::MoveCursor(-1)));
    assert_eq!(EditorCmd::from_key(KeyCode::Down, 0, 24), Some(EditorCmd::MoveCursor(1)));
    assert_eq!(EditorCmd::from_key(KeyCode::PageUp, 0, 25), Some(EditorCmd::Scroll(-12)));
    assert_eq!(EditorCmd::from_key(KeyCode::PageDown, 0, 25), Some(EditorCmd::Scroll(12)));
    assert_eq!(EditorCmd::from_key(KeyCode::Enter, 0, 24), Some(EditorCmd::Newline));
    assert_eq!(EditorCmd::from_key(KeyCode::Char('s'), 0, 24), None);
    assert_eq!(EditorCmd::from_key(KeyCode::Esc, 0, 24), None);
}

#[test]
fn control_keys_map_to_commands() {
    assert_eq!(EditorCmd::from_key(KeyCode::Char('s'), CONTROL, 24), Some(EditorCmd::Save));
    assert_eq!(EditorCmd::from_key(KeyCode::Char('q'), CONTROL, 24), Some(EditorCmd::Exit));
    assert_eq!(EditorCmd::from_key(KeyCode::Up, CONTROL, 24), Some(EditorCmd::Scroll(-1)));
    assert_eq!(EditorCmd::from_key(KeyCode::Down, CONTROL, 24), Some(EditorCmd::Scroll(1)));
    assert_eq!(EditorCmd::from_key(KeyCode::Home, CONTROL, 24), Some(EditorCmd::JumpToStart));
    assert_eq!(EditorCmd::from_key(KeyCode::End, CONTROL, 24), Some(EditorCmd::JumpToEnd));
    assert_eq!(EditorCmd::from_key(KeyCode::Char('x'), CONTROL, 24), None);
    assert_eq!(EditorCmd::from_key(KeyCode::Enter, CONTROL, 24), None);
}

#[test]
fn other_modifiers_map_to_nothing() {
    assert_eq!(EditorCmd::from_key(KeyCode::Up, SHIFT, 24), None);
    assert_eq!(EditorCmd::from_key(KeyCode::Char('s'), CONTROL | ALT, 24), None);
}

#[test]
fn events_map_to_commands() {
    let press = Event::Key { code: KeyCode::Up, modifiers: 0, press: true };
    let release = Event::Key { code: KeyCode::Up, modifiers: 0, press: false };
    assert_eq!(EditorCmd::from(press, 24), Some(EditorCmd::MoveCursor(-1)));
    assert_eq!(EditorCmd::from(release, 24), None);
    assert_eq!(EditorCmd::from(Event::Resize(80, 25), 24), Some(EditorCmd::Resize(80, 25)));
    assert_eq!(EditorCmd::from(Event::Other, 24), None);
}

#[test]
fn prompt_collects_a_name() {
    let mut name = String::new();
    assert_eq!(prompt_step(&mut name, KeyCode::Enter), PromptAction::Ignore);
    assert_eq!(prompt_step(&mut name, KeyCode::Char('a')), PromptAction::Print('a'));
    assert_eq!(prompt_step(&mut name, KeyCode::Char('b')), PromptAction::Print('b'));
    assert_eq!(prompt_step(&mut name, KeyCode::Backspace), PromptAction::EraseLeft);
    assert_eq!(prompt_step(&mut name, KeyCode::Up), PromptAction::Ignore);
    assert_eq!(name, "a");
    assert_eq!(prompt_step(&mut name, KeyCode::Enter), PromptAction::Accept);
    assert_eq!(name, "a");
}

#[test]
fn prompt_escape_clears_name() {
    let mut name = String::from("file.txt");
    assert_eq!(prompt_step(&mut name, KeyCode::Esc), PromptAction::Cancel);
    assert_eq!(name, "");
    assert_eq!(prompt_step(&mut name, KeyCode::Backspace), PromptAction::EraseLeft);
    assert_eq!(name, "");
}

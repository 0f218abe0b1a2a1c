use crossterm::event::KeyModifiers;
use line_editor::key::{interpret, KeyCode, KeyEvent, KeyPress, CONTROL};

fn press(code: KeyCode, modifiers: u8) -> KeyEvent {
    interpret(KeyPress { code, modifiers })
}

#[test]
fn named_keys_stand_for_their_events() {
    assert_eq!(press(KeyCode::Enter, 0), KeyEvent::Enter);
    assert_eq!(press(KeyCode::Backspace, 0), KeyEvent::Backspace);
    assert_eq!(press(KeyCode::Delete, 0), KeyEvent::Delete);
    assert_eq!(press(KeyCode::Left, 0), KeyEvent::ArrowLeft);
    assert_eq!(press(KeyCode::Right, 0), KeyEvent::ArrowRight);
    assert_eq!(press(KeyCode::Home, 0), KeyEvent::Home);
    assert_eq!(press(KeyCode::End, 0), KeyEvent::End);
    assert_eq!(press(KeyCode::Other, 0), KeyEvent::Other);
}

#[test]
fn named_keys_ignore_modifiers() {
    assert_eq!(press(KeyCode::Enter, CONTROL), KeyEvent::Enter);
    assert_eq!(press(KeyCode::Home, 0xff), KeyEvent::Home);
    assert_eq!(press(KeyCode::Other, CONTROL), KeyEvent::Other);
}

#[test]
fn characters_are_typed() {
    assert_eq!(press(KeyCode::Char('a'), 0), KeyEvent::Char('a'));
    assert_eq!(press(KeyCode::Char('c'), 0), KeyEvent::Char('c'));
    assert_eq!(press(KeyCode::Char('ß'), 0), KeyEvent::Char('ß'));
}

#[test]
fn control_c_interrupts() {
    assert_eq!(press(KeyCode::Char('c'), 0x02), KeyEvent::Interrupt);
    assert_eq!(press(KeyCode::Char('c'), 0x03), KeyEvent::Interrupt);
    assert_eq!(press(KeyCode::Char('c'), 0xff), KeyEvent::Interrupt);
}

#[test]
fn other_modifiers_with_c_type_it() {
    assert_eq!(press(KeyCode::Char('c'), 0x01), KeyEvent::Char('c'));
    assert_eq!(press(KeyCode::Char('c'), 0x04), KeyEvent::Char('c'));
    assert_eq!(press(KeyCode::Char('c'), 0xfd), KeyEvent::Char('c'));
}

#[test]
fn control_with_other_characters_types_them() {
    assert_eq!(press(KeyCode::Char('d'), 0x02), KeyEvent::Char('d'));
    assert_eq!(press(KeyCode::Char('C'), 0x02), KeyEvent::Char('C'));
}

#[test]
fn modifier_bits_are_those_of_the_terminal_library() {
    assert_eq!(CONTROL, KeyModifiers::CONTROL.bits());
    assert_eq!(press(KeyCode::Char('c'), KeyModifiers::CONTROL.bits()), KeyEvent::Interrupt);
    let both = KeyModifiers::CONTROL | KeyModifiers::SHIFT;
    assert_eq!(press(KeyCode::Char('c'), both.bits()), KeyEvent::Interrupt);
    assert_eq!(press(KeyCode::Char('c'), KeyModifiers::SHIFT.bits()), KeyEvent::Char('c'));
    assert_eq!(press(KeyCode::Char('c'), KeyModifiers::ALT.bits()), KeyEvent::Char('c'));
    assert_eq!(press(KeyCode::Char('c'), KeyModifiers::NONE.bits()), KeyEvent::Char('c'));
}

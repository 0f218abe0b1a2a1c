use line_editor::editor::{EditResult, EditorState};
use line_editor::key::KeyEvent;

fn feed(state: EditorState, keys: &[KeyEvent]) -> (EditorState, Option<EditResult>) {
    let mut state = state;
    for key in keys {
        let (next, outcome) = state.apply(*key);
        state = next;
        if outcome.is_some() {
            return (state, outcome);
        }
    }
    (state, None)
}

fn typed(text: &str) -> EditorState {
    let keys: Vec<KeyEvent> = text.chars().map(KeyEvent::Char).collect();
    feed(EditorState::new("> "), &keys).0
}

#[test]
fn fresh_state_is_empty() {
    let state = EditorState::new("name: ");
    assert_eq!(state.prompt(), "name: ");
    assert_eq!(state.buffer(), "");
    assert_eq!(state.cursor(), 0);
}

#[test]
fn typing_then_inserting_in_the_middle() {
    let keys = [KeyEvent::Char('a'), KeyEvent::Char('b'), KeyEvent::Char('c')];
    let (state, outcome) = feed(EditorState::new("> "), &keys);
    assert_eq!(outcome, None);
    assert_eq!(state.buffer(), "abc");
    assert_eq!(state.cursor(), 3);

    let keys = [KeyEvent::ArrowLeft, KeyEvent::ArrowLeft, KeyEvent::Char('X')];
    let (state, outcome) = feed(state, &keys);
    assert_eq!(outcome, None);
    assert_eq!(state.buffer(), "aXbc");
    assert_eq!(state.cursor(), 2);
}

#[test]
fn enter_submits_the_buffer() {
    let keys = [KeyEvent::Char('h'), KeyEvent::Char('i'), KeyEvent::Enter];
    let (state, outcome) = feed(EditorState::new("> "), &keys);
    assert_eq!(outcome, Some(EditResult::Submitted(String::from("hi"))));
    assert_eq!(state.buffer(), "hi");
    assert_eq!(state.cursor(), 2);
}

#[test]
fn enter_on_an_empty_buffer_submits_the_empty_line() {
    let (_, outcome) = EditorState::new("> ").apply(KeyEvent::Enter);
    assert_eq!(outcome, Some(EditResult::Submitted(String::new())));
}

#[test]
fn interrupt_cancels_and_hands_nothing_on() {
    let keys = [KeyEvent::Char('h'), KeyEvent::Interrupt];
    let (_, outcome) = feed(EditorState::new("> "), &keys);
    assert_eq!(outcome, Some(EditResult::Cancelled));
}

#[test]
fn keys_after_the_end_are_not_applied() {
    let keys = [KeyEvent::Char('a'), KeyEvent::Enter, KeyEvent::Char('b')];
    let (state, outcome) = feed(EditorState::new("> "), &keys);
    assert_eq!(outcome, Some(EditResult::Submitted(String::from("a"))));
    assert_eq!(state.buffer(), "a");
}

#[test]
fn home_twice_is_home_once() {
    let (once, first) = typed("hello").apply(KeyEvent::Home);
    let (twice, second) = once.clone().apply(KeyEvent::Home);
    assert_eq!(first, None);
    assert_eq!(second, None);
    assert_eq!(once.cursor(), 0);
    assert_eq!(twice, once);
}

#[test]
fn end_twice_is_end_once() {
    let (moved, _) = feed(typed("hello"), &[KeyEvent::ArrowLeft, KeyEvent::ArrowLeft]);
    assert_eq!(moved.cursor(), 3);
    let (once, first) = moved.apply(KeyEvent::End);
    let (twice, second) = once.clone().apply(KeyEvent::End);
    assert_eq!(first, None);
    assert_eq!(second, None);
    assert_eq!(once.cursor(), 5);
    assert_eq!(twice, once);
}

#[test]
fn backspace_at_the_start_changes_nothing() {
    let (state, _) = typed("abc").apply(KeyEvent::Home);
    let (after, outcome) = state.clone().apply(KeyEvent::Backspace);
    assert_eq!(outcome, None);
    assert_eq!(after, state);
    assert_eq!(after.buffer(), "abc");
    assert_eq!(after.cursor(), 0);

    let (empty, outcome) = EditorState::new("> ").apply(KeyEvent::Backspace);
    assert_eq!(outcome, None);
    assert_eq!(empty, EditorState::new("> "));
}

#[test]
fn delete_at_the_end_changes_nothing() {
    let state = typed("abc");
    let (after, outcome) = state.clone().apply(KeyEvent::Delete);
    assert_eq!(outcome, None);
    assert_eq!(after, state);
    assert_eq!(after.buffer(), "abc");
    assert_eq!(after.cursor(), 3);

    let (empty, outcome) = EditorState::new("> ").apply(KeyEvent::Delete);
    assert_eq!(outcome, None);
    assert_eq!(empty, EditorState::new("> "));
}

#[test]
fn backspace_removes_the_character_before_the_cursor() {
    let (state, _) = feed(typed("abcd"), &[KeyEvent::ArrowLeft, KeyEvent::Backspace]);
    assert_eq!(state.buffer(), "abd");
    assert_eq!(state.cursor(), 2);

    let (state, _) = typed("abcd").apply(KeyEvent::Backspace);
    assert_eq!(state.buffer(), "abc");
    assert_eq!(state.cursor(), 3);
}

#[test]
fn delete_removes_the_character_at_the_cursor() {
    let (state, _) = feed(typed("abcd"), &[KeyEvent::ArrowLeft, KeyEvent::ArrowLeft, KeyEvent::Delete]);
    assert_eq!(state.buffer(), "abd");
    assert_eq!(state.cursor(), 2);

    let (state, _) = feed(typed("abcd"), &[KeyEvent::Home, KeyEvent::Delete]);
    assert_eq!(state.buffer(), "bcd");
    assert_eq!(state.cursor(), 0);
}

#[test]
fn arrows_stop_at_both_ends() {
    let (state, _) = feed(typed("ab"), &[KeyEvent::ArrowRight]);
    assert_eq!(state.cursor(), 2);
    let (state, _) = feed(state, &[KeyEvent::ArrowLeft, KeyEvent::ArrowLeft, KeyEvent::ArrowLeft]);
    assert_eq!(state.cursor(), 0);
    let (state, _) = feed(state, &[KeyEvent::ArrowRight]);
    assert_eq!(state.cursor(), 1);
    assert_eq!(state.buffer(), "ab");
}

#[test]
fn other_keys_change_nothing() {
    let state = typed("abc");
    let (after, outcome) = state.clone().apply(KeyEvent::Other);
    assert_eq!(outcome, None);
    assert_eq!(after, state);
}

#[test]
fn cursor_stays_in_the_buffer_after_every_transition() {
    let keys = [
        KeyEvent::ArrowLeft,
        KeyEvent::Backspace,
        KeyEvent::Delete,
        KeyEvent::ArrowRight,
        KeyEvent::Char('a'),
        KeyEvent::ArrowRight,
        KeyEvent::Char('b'),
        KeyEvent::Home,
        KeyEvent::Backspace,
        KeyEvent::Delete,
        KeyEvent::Delete,
        KeyEvent::Delete,
        KeyEvent::End,
        KeyEvent::Char('c'),
        KeyEvent::ArrowLeft,
        KeyEvent::ArrowLeft,
        KeyEvent::Other,
        KeyEvent::Char('d'),
        KeyEvent::End,
        KeyEvent::Backspace,
        KeyEvent::Backspace,
        KeyEvent::Backspace,
    ];
    let mut state = EditorState::new("> ");
    for key in keys {
        let (next, outcome) = state.apply(key);
        assert_eq!(outcome, None);
        assert!(next.cursor() <= next.buffer().chars().count());
        state = next;
    }
    assert_eq!(state.buffer(), "");
    assert_eq!(state.cursor(), 0);
}

#[test]
fn characters_beyond_ascii_count_as_one() {
    let (state, _) = feed(typed("añb"), &[KeyEvent::ArrowLeft, KeyEvent::Backspace]);
    assert_eq!(state.buffer(), "ab");
    assert_eq!(state.cursor(), 1);
    let (state, _) = state.apply(KeyEvent::Char('é'));
    assert_eq!(state.buffer(), "aéb");
    assert_eq!(state.cursor(), 2);
}

#[test]
fn redraw_shows_prompt_and_buffer_with_the_cursor_behind_the_prompt() {
    let fresh = EditorState::new("Enter repository name: ").redraw();
    assert_eq!(fresh.text, "Enter repository name: ");
    assert_eq!(fresh.column, 23);

    let state = typed("abc");
    let shown = state.redraw();
    assert_eq!(shown.text, "> abc");
    assert_eq!(shown.column, 5);

    let (state, _) = feed(state, &[KeyEvent::ArrowLeft, KeyEvent::ArrowLeft]);
    let shown = state.redraw();
    assert_eq!(shown.text, "> abc");
    assert_eq!(shown.column, 3);

    let (state, _) = state.apply(KeyEvent::Home);
    assert_eq!(state.redraw().column, 2);
}

#[test]
fn redraw_counts_characters_of_the_prompt() {
    let (state, _) = EditorState::new("é: ").apply(KeyEvent::Char('x'));
    let shown = state.redraw();
    assert_eq!(shown.text, "é: x");
    assert_eq!(shown.column, 4);
}

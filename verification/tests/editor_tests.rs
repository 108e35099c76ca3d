use wordle::editor::{init_guess, render_line, EditAction, Key, LineEditor, BLANK};

#[test]
fn render_line_separates_slots_with_single_spaces() {
    assert_eq!(render_line(&vec!['c', 'r', 'a']), vec!['c', ' ', 'r', ' ', 'a']);
    assert_eq!(render_line(&vec!['x']), vec!['x']);
    assert_eq!(render_line(&vec![]), Vec::<char>::new());
    assert_eq!(
        render_line(&init_guess(3)),
        vec![BLANK, ' ', BLANK, ' ', BLANK]
    );
}

#[test]
fn init_guess_is_all_blanks() {
    let guess = init_guess(5);
    assert_eq!(guess.len(), 5);
    for c in guess {
        assert_eq!(c, BLANK);
    }
}

#[test]
fn init_guess_of_zero_is_empty() {
    let guess = init_guess(0);
    assert_eq!(guess.len(), 0);
}

#[test]
fn typing_fills_the_buffer_and_submit_completes() {
    let mut ed = LineEditor::new(5);
    for c in ['c', 'r', 'a', 'n', 'e'] {
        assert_eq!(ed.step(Key::Char(c)), EditAction::Redraw);
    }
    assert!(ed.full());
    assert_eq!(ed.step(Key::Submit), EditAction::Submitted);
    let buffer = ed.into_buffer();
    assert_eq!(buffer, vec!['c', 'r', 'a', 'n', 'e']);
}

#[test]
fn backspace_at_the_start_is_a_no_op() {
    let mut ed = LineEditor::new(5);
    assert_eq!(ed.step(Key::Backspace), EditAction::Ignored);
    assert_eq!(ed.buffer().len(), 5);
    for c in ed.buffer() {
        assert_eq!(*c, BLANK);
    }
}

#[test]
fn character_on_a_full_buffer_is_a_no_op() {
    let mut ed = LineEditor::new(2);
    ed.step(Key::Char('h'));
    ed.step(Key::Char('i'));
    assert_eq!(ed.step(Key::Char('x')), EditAction::Ignored);
    assert_eq!(ed.into_buffer(), vec!['h', 'i']);
}

#[test]
fn submit_on_a_partial_buffer_is_ignored() {
    let mut ed = LineEditor::new(3);
    ed.step(Key::Char('a'));
    assert_eq!(ed.step(Key::Submit), EditAction::Ignored);
    assert!(!ed.full());
}

#[test]
fn backspace_clears_the_last_written_slot() {
    let mut ed = LineEditor::new(3);
    ed.step(Key::Char('a'));
    ed.step(Key::Char('b'));
    assert_eq!(ed.step(Key::Backspace), EditAction::Redraw);
    assert_eq!(ed.buffer(), &vec!['a', BLANK, BLANK]);
}

#[test]
fn other_keys_change_nothing() {
    let mut ed = LineEditor::new(3);
    ed.step(Key::Char('a'));
    assert_eq!(ed.step(Key::Other), EditAction::Ignored);
    assert_eq!(ed.buffer(), &vec!['a', BLANK, BLANK]);
}

#[test]
fn buffer_length_never_changes() {
    let mut ed = LineEditor::new(4);
    let events = [
        Key::Backspace,
        Key::Char('a'),
        Key::Char('b'),
        Key::Backspace,
        Key::Char('c'),
        Key::Char('d'),
        Key::Char('e'),
        Key::Char('f'),
        Key::Backspace,
        Key::Other,
        Key::Submit,
    ];
    for k in events {
        ed.step(k);
        assert_eq!(ed.buffer().len(), 4);
    }
}

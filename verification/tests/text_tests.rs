use card_table::text_entry::FocusState;
use card_table::text_entry::KeyEvent;
use card_table::text_entry::KeyInput;
use card_table::text_entry::TextBuffer;
use card_table::text_entry::is_control_char;
use card_table::text_entry::text_widget;

fn contents(buffer: &TextBuffer) -> String {
    let mut s = String::new();
    for i in 0..buffer.len() {
        s.push(buffer.get(i));
    }
    s
}

fn type_str(buffer: &mut TextBuffer, text: &str) {
    let key = KeyInput::Character(text.chars().collect());
    assert!(buffer.apply_key(&key).is_none());
}

#[test]
fn printable_characters_are_appended_exactly() {
    let mut buffer = TextBuffer::new();
    type_str(&mut buffer, "ab");
    type_str(&mut buffer, "c");
    assert_eq!(contents(&buffer), "abc");
}

#[test]
fn control_characters_leave_the_buffer_unchanged() {
    let mut buffer = TextBuffer::new();
    type_str(&mut buffer, "hi");
    type_str(&mut buffer, "\u{7}");
    assert_eq!(contents(&buffer), "hi");
    // Input mixing printable and control characters is ignored entirely.
    type_str(&mut buffer, "a\u{1b}b");
    assert_eq!(contents(&buffer), "hi");
}

#[test]
fn backspace_removes_exactly_the_last_character() {
    let mut buffer = TextBuffer::new();
    type_str(&mut buffer, "abc");
    assert!(buffer.apply_key(&KeyInput::Backspace).is_none());
    assert_eq!(contents(&buffer), "ab");
}

#[test]
fn backspace_on_empty_buffer_is_a_no_op() {
    let mut buffer = TextBuffer::new();
    assert!(buffer.apply_key(&KeyInput::Backspace).is_none());
    assert_eq!(contents(&buffer), "");
}

#[test]
fn enter_submits_and_clears() {
    let mut buffer = TextBuffer::new();
    type_str(&mut buffer, "name");
    let submitted = buffer.apply_key(&KeyInput::Enter);
    assert_eq!(submitted, Some(vec!['n', 'a', 'm', 'e']));
    assert_eq!(contents(&buffer), "");
}

#[test]
fn other_keys_change_nothing() {
    let mut buffer = TextBuffer::new();
    type_str(&mut buffer, "x");
    assert!(buffer.apply_key(&KeyInput::Other).is_none());
    assert_eq!(contents(&buffer), "x");
}

#[test]
fn releases_are_skipped_and_presses_apply_in_order() {
    let mut buffer = TextBuffer::new();
    let events = vec![
        KeyEvent { pressed: true, key: KeyInput::Character(vec!['h', 'i']) },
        KeyEvent { pressed: false, key: KeyInput::Backspace },
        KeyEvent { pressed: true, key: KeyInput::Character(vec!['!']) },
        KeyEvent { pressed: true, key: KeyInput::Backspace },
        KeyEvent { pressed: true, key: KeyInput::Enter },
        KeyEvent { pressed: true, key: KeyInput::Character(vec!['z']) },
    ];
    let submitted = buffer.apply_events(&events);
    assert_eq!(submitted, vec![vec!['h', 'i']]);
    assert_eq!(contents(&buffer), "z");
}

#[test]
fn control_code_classification_matches_unicode() {
    assert!(is_control_char('\u{0}'));
    assert!(is_control_char('\u{1f}'));
    assert!(is_control_char('\u{7f}'));
    assert!(is_control_char('\u{9f}'));
    assert!(!is_control_char(' '));
    assert!(!is_control_char('a'));
    assert!(!is_control_char('\u{a0}'));
    for c in '\u{0}'..='\u{2ff}' {
        assert_eq!(is_control_char(c), c.is_control(), "disagrees at U+{:04X}", c as u32);
    }
}

#[test]
fn click_moves_the_focus() {
    let mut focus = FocusState::new();
    assert_eq!(focus.focused(), None);
    focus.click(4);
    assert_eq!(focus.focused(), Some(4));
    focus.click(9);
    assert_eq!(focus.focused(), Some(9));
}

#[test]
fn text_widget_has_the_standard_dimensions() {
    let w = text_widget();
    assert_eq!(w.font_size, 24);
    assert_eq!(w.height_px, 24);
    assert_eq!(w.min_width_px, 100);
    assert_eq!(w.border_px, 2);
    assert_eq!(w.padding_px, 20);
    assert_eq!(w.margin_px, 20);
}

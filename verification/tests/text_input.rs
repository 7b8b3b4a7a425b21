use vaultquad::selection::Selection;
use vaultquad::ui::widgets::text_input::{
    is_control, repeat_fires, CursorOverflow, EditKey, KeyFires, KeyFrame, KeyRepeatState, TextInput,
};
use vaultquad::ui::widgets::Action;

fn wait_ms(ms: u64) {
    let start = std::time::Instant::now();
    while start.elapsed() < std::time::Duration::from_millis(ms) {}
}

fn input_with(text: &str) -> TextInput {
    let mut t = TextInput::new(None);
    t.set_text(text.to_string());
    t
}

#[test]
fn new_input_is_empty_and_unfocused() {
    let t = TextInput::new(Some(8));
    assert_eq!(t.get_text(), "");
    assert_eq!(t.cursor_pos(), 0);
    assert_eq!(t.selection(), None);
    assert!(!t.is_selected());
    assert!(!t.is_submitted());
    assert!(!t.is_clicked());
    assert!(!t.is_hovered());
    assert!(t.is_cursor_visible());
    assert_eq!(t.max_length(), Some(8));
}

#[test]
fn builders_set_placeholder_and_password() {
    let t = TextInput::new(None).with_placeholder("name".to_string()).with_password(true);
    assert_eq!(t.placeholder(), Some("name".to_string()));
    assert!(t.is_password());
}

#[test]
fn with_max_length_cuts_text_and_clamps_cursor() {
    let mut t = input_with("héllo");
    t.end(false);
    assert_eq!(t.cursor_pos(), 5);
    let t = t.with_max_length(3);
    assert_eq!(t.get_text(), "hél");
    assert_eq!(t.cursor_pos(), 3);
    assert_eq!(t.max_length(), Some(3));
    let t = TextInput::new(None).with_max_length(0);
    assert_eq!(t.max_length(), Some(1));
}

#[test]
fn set_text_clamps_cursor_and_drops_selection() {
    let mut t = input_with("abcdef");
    t.select_all();
    t.set_text("ab".to_string());
    assert_eq!(t.cursor_pos(), 2);
    assert_eq!(t.selection(), None);
    t.clear();
    assert_eq!(t.get_text(), "");
    assert_eq!(t.cursor_pos(), 0);
}

#[test]
fn insert_at_cursor_moves_cursor_past_it() {
    let mut t = input_with("héllo");
    t.home(false);
    t.move_right(false, false);
    t.insert("XY");
    assert_eq!(t.get_text(), "hXYéllo");
    assert_eq!(t.cursor_pos(), 3);
    assert!(t.take_blink_restart());
    assert!(!t.take_blink_restart());
}

#[test]
fn insert_replaces_selection() {
    let mut t = input_with("hello world");
    t.click_at(2, true);
    assert_eq!(t.selection(), Some(Selection { start: 0, end: 6 }));
    t.insert("bye ");
    assert_eq!(t.get_text(), "bye world");
    assert_eq!(t.cursor_pos(), 4);
}

#[test]
fn empty_insert_only_deletes_selection() {
    let mut t = input_with("abc");
    t.select_all();
    t.insert("");
    assert_eq!(t.get_text(), "");
}

#[test]
fn commit_of_empty_text_changes_nothing() {
    let mut t = input_with("abc");
    t.select_all();
    t.commit_input("");
    assert_eq!(t.get_text(), "abc");
    t.commit_input("z");
    assert_eq!(t.get_text(), "z");
}

#[test]
fn typed_control_characters_are_dropped() {
    let mut t = input_with("ab");
    t.end(false);
    t.type_chars(&vec!['c', '\u{8}', '\n', 'd', '\u{7f}', '\u{9f}', 'é']);
    assert_eq!(t.get_text(), "abcdé");
    assert_eq!(t.cursor_pos(), 5);
    assert!(is_control('\u{0}'));
    assert!(is_control('\u{85}'));
    assert!(!is_control(' '));
    assert!(!is_control('\u{a0}'));
}

#[test]
fn backspace_and_delete() {
    let mut t = input_with("abcd");
    t.end(false);
    t.backspace();
    assert_eq!(t.get_text(), "abc");
    assert_eq!(t.cursor_pos(), 3);
    t.home(false);
    t.delete_forward();
    assert_eq!(t.get_text(), "bc");
    assert_eq!(t.cursor_pos(), 0);
    t.backspace();
    assert_eq!(t.get_text(), "bc");
    t.end(false);
    t.delete_forward();
    assert_eq!(t.get_text(), "bc");
}

#[test]
fn backspace_deletes_selection_and_the_character_before() {
    let mut t = input_with("abcdef");
    t.start_drag_at(1);
    t.drag_to(4);
    assert_eq!(t.selection(), Some(Selection { start: 1, end: 4 }));
    t.backspace();
    assert_eq!(t.get_text(), "ef");
    assert_eq!(t.cursor_pos(), 0);
}

#[test]
fn word_boundaries() {
    let t = input_with("foo, bar baz");
    assert_eq!(t.find_word_boundary(0, true), 5);
    assert_eq!(t.find_word_boundary(1, true), 5);
    assert_eq!(t.find_word_boundary(5, true), 9);
    assert_eq!(t.find_word_boundary(12, true), 12);
    assert_eq!(t.find_word_boundary(12, false), 9);
    assert_eq!(t.find_word_boundary(5, false), 0);
    assert_eq!(t.find_word_boundary(7, false), 5);
    assert_eq!(t.find_word_boundary(0, false), 0);
}

#[test]
fn ctrl_arrows_move_by_words() {
    let mut t = input_with("one two");
    t.end(false);
    t.move_left(true, false);
    assert_eq!(t.cursor_pos(), 4);
    t.move_left(true, true);
    assert_eq!(t.cursor_pos(), 0);
    assert_eq!(t.selection(), Some(Selection { start: 1, end: 0 }));
    t.move_right(true, false);
    assert_eq!(t.cursor_pos(), 4);
    assert_eq!(t.selection(), None);
}

#[test]
fn shift_arrows_extend_selection() {
    let mut t = input_with("abc");
    t.home(false);
    t.move_right(false, true);
    assert_eq!(t.selection(), Some(Selection { start: 0, end: 1 }));
    t.move_right(false, true);
    assert_eq!(t.selection(), Some(Selection { start: 0, end: 2 }));
    t.move_right(false, true);
    t.move_right(false, true);
    assert_eq!(t.cursor_pos(), 3);
    assert_eq!(t.selection(), Some(Selection { start: 0, end: 3 }));
    t.home(true);
    assert_eq!(t.selection(), Some(Selection { start: 0, end: 0 }));
    t.end(false);
    assert_eq!(t.selection(), None);
    t.move_left(false, true);
    assert_eq!(t.selection(), Some(Selection { start: 3, end: 2 }));
    t.home(false);
    t.move_left(false, false);
    assert_eq!(t.cursor_pos(), 0);
}

#[test]
fn home_with_shift_and_no_selection_keeps_none() {
    let mut t = input_with("abc");
    t.end(true);
    assert_eq!(t.selection(), None);
    assert_eq!(t.cursor_pos(), 3);
}

#[test]
fn cut_copy_paste() {
    let mut t = input_with("hello world");
    assert_eq!(t.copy_selection(), None);
    t.start_drag_at(0);
    t.drag_to(5);
    assert_eq!(t.copy_selection(), Some("hello".to_string()));
    assert_eq!(t.cut_selection(), Some("hello".to_string()));
    assert_eq!(t.get_text(), " world");
    assert_eq!(t.cursor_pos(), 0);
    t.end(false);
    t.paste("!");
    assert_eq!(t.get_text(), " world!");
    assert_eq!(t.cursor_pos(), 7);
    assert_eq!(t.cut_selection(), None);
}

#[test]
fn cut_then_paste_restores_text() {
    let mut t = input_with("abcdefg");
    t.start_drag_at(5);
    t.drag_to(2);
    let cut = t.cut_selection().unwrap();
    assert_eq!(cut, "cde");
    t.paste(&cut);
    assert_eq!(t.get_text(), "abcdefg");
    assert_eq!(t.cursor_pos(), 5);
}

#[test]
fn select_all_then_cut_empties() {
    let mut t = input_with("xyz");
    t.select_all();
    assert_eq!(t.cursor_pos(), 3);
    assert_eq!(t.cut_selection(), Some("xyz".to_string()));
    assert_eq!(t.get_text(), "");
}

#[test]
fn type_then_backspace_restores() {
    let mut t = input_with("ab");
    t.home(false);
    t.move_right(false, false);
    t.insert("Q");
    t.backspace();
    assert_eq!(t.get_text(), "ab");
    assert_eq!(t.cursor_pos(), 1);
}

#[test]
fn max_length_is_enforced() {
    let mut t = TextInput::new(Some(4));
    t.insert("abcdef");
    assert_eq!(t.get_text(), "abcdef");
    t.enforce_max_length();
    assert_eq!(t.get_text(), "abcd");
    assert_eq!(t.cursor_pos(), 4);
    t.enforce_max_length();
    assert_eq!(t.get_text(), "abcd");
}

#[test]
fn display_text_masks_passwords() {
    let mut t = input_with("sécret");
    assert_eq!(t.display_text(), "sécret");
    t = t.with_password(true);
    assert_eq!(t.display_text(), "******");
}

#[test]
fn mouse_focus_flow() {
    let mut t = input_with("abc");
    t.set_hover(true);
    t.press();
    assert!(t.is_clicked());
    assert!(t.is_hovered());
    assert!(t.is_selected());
    t.click_at(1, false);
    assert!(t.is_dragging());
    assert_eq!(t.selection(), Some(Selection::new(1)));
    t.end_drag();
    assert!(!t.is_dragging());
    t.begin_frame();
    assert!(!t.is_clicked());
    t.submit();
    assert!(t.is_submitted());
    t.escape();
    assert!(!t.is_selected());
    assert_eq!(t.selection(), None);
    t.press();
    t.blur();
    assert!(!t.is_selected());
    let v = t.is_cursor_visible();
    t.blink();
    assert_eq!(t.is_cursor_visible(), !v);
}

#[test]
fn selection_ends() {
    let s = Selection { start: 7, end: 2 };
    assert_eq!(s.min(), 2);
    assert_eq!(s.max(), 7);
    assert!(!s.is_empty());
    assert!(Selection::new(4).is_empty());
}

#[test]
fn key_acts_on_press_not_while_up() {
    let mut k = KeyRepeatState::new();
    assert!(!k.update(false));
    assert!(k.update(true));
    // held only briefly: no repeat yet
    assert!(!k.update(true));
    assert!(!k.update(false));
    assert!(k.update(true));
}

#[test]
fn key_repeats_after_initial_delay() {
    let mut k = KeyRepeatState::new();
    assert!(k.update(true));
    wait_ms(520);
    assert!(k.update(true));
    assert!(!k.update(true));
    wait_ms(60);
    assert!(k.update(true));
}

#[test]
fn repeat_decision() {
    assert!(!repeat_fires(500_000_000, None));
    assert!(repeat_fires(500_000_001, None));
    assert!(!repeat_fires(600_000_000, Some(50_000_000)));
    assert!(repeat_fires(600_000_000, Some(50_000_001)));
}

#[test]
fn edit_keys_are_tracked_separately() {
    let mut t = input_with("abc");
    assert!(t.update_key(EditKey::Left, true));
    assert!(t.update_key(EditKey::Right, true));
    assert!(!t.update_key(EditKey::Left, true));
    assert!(!t.update_key(EditKey::Backspace, false));
    assert!(t.update_key(EditKey::Delete, true));
    assert_eq!(t.get_text(), "abc");
}

fn no_keys() -> KeyFrame {
    KeyFrame {
        ctrl: false,
        shift: false,
        a_pressed: false,
        x_pressed: false,
        c_pressed: false,
        v_pressed: false,
        home_pressed: false,
        end_pressed: false,
        enter_pressed: false,
        left_down: false,
        right_down: false,
        backspace_down: false,
        delete_down: false,
        typed: Vec::new(),
    }
}

const NO_FIRES: KeyFires = KeyFires { left: false, right: false, backspace: false, delete: false };

#[test]
fn select_all_and_cut_in_one_frame() {
    let mut t = input_with("abc");
    let keys = KeyFrame { ctrl: true, a_pressed: true, x_pressed: true, ..no_keys() };
    assert_eq!(t.edit_keys(&keys, NO_FIRES, None), Ok(Some("abc".to_string())));
    assert_eq!(t.get_text(), "");
}

#[test]
fn paste_after_cut_in_one_frame_takes_the_cut_text() {
    let mut t = input_with("abc");
    let keys = KeyFrame { ctrl: true, a_pressed: true, x_pressed: true, v_pressed: true, ..no_keys() };
    assert_eq!(t.edit_keys(&keys, NO_FIRES, Some("zz".to_string())), Ok(Some("abc".to_string())));
    assert_eq!(t.get_text(), "abc");
}

#[test]
fn paste_takes_the_clipboard() {
    let mut t = input_with("ab");
    t.end(false);
    let keys = KeyFrame { ctrl: true, v_pressed: true, ..no_keys() };
    assert_eq!(t.edit_keys(&keys, NO_FIRES, Some("cd".to_string())), Ok(None));
    assert_eq!(t.get_text(), "abcd");
    assert_eq!(t.cursor_pos(), 4);
}

#[test]
fn keys_apply_in_order() {
    let mut t = input_with("日本");
    let keys = KeyFrame { end_pressed: true, enter_pressed: true, typed: vec!['x', '\u{8}'], ..no_keys() };
    let fires = KeyFires { backspace: true, ..NO_FIRES };
    assert_eq!(t.edit_keys(&keys, fires, None), Ok(None));
    assert_eq!(t.get_text(), "日x");
    assert!(t.is_submitted());
}

#[test]
fn shift_right_on_empty_text_overflows() {
    let mut t = input_with("");
    let keys = KeyFrame { shift: true, ..no_keys() };
    let fires = KeyFires { right: true, ..NO_FIRES };
    assert_eq!(t.edit_keys(&keys, fires, None), Err(CursorOverflow));
    assert_eq!(t.selection(), None);
}

#[test]
fn ime_commit_is_inserted_and_keys_are_not_read() {
    let mut t = input_with("ab");
    t.end(false);
    let keys = KeyFrame { typed: vec!['q'], ..no_keys() };
    assert_eq!(t.take_keys(&keys, None, Some("日本".to_string()), true), Ok(None));
    assert_eq!(t.get_text(), "ab日本");
}

#[test]
fn composing_input_method_holds_the_keys_back() {
    let mut t = input_with("ab");
    let keys = KeyFrame { typed: vec!['q'], backspace_down: true, ..no_keys() };
    assert_eq!(t.take_keys(&keys, None, None, false), Ok(None));
    assert_eq!(t.get_text(), "ab");
}

#[test]
fn keys_are_read_without_input_method_text() {
    let mut t = input_with("ab");
    t.end(false);
    let keys = KeyFrame { typed: vec!['c'], backspace_down: true, ..no_keys() };
    // Backspace goes down in this frame, so it acts once before the typing.
    assert_eq!(t.take_keys(&keys, None, None, true), Ok(None));
    assert_eq!(t.get_text(), "ac");
}

#[test]
fn key_step_at_given_times() {
    let mut k = KeyRepeatState::new();
    assert!(k.step_at(true, 1_000));
    // held 0.5 s exactly: not yet
    assert!(!k.step_at(true, 500_001_000));
    // held past the initial delay: the first repeat
    assert!(k.step_at(true, 500_001_001));
    // 50 ms after that repeat: not yet
    assert!(!k.step_at(true, 550_001_001));
    assert!(k.step_at(true, 550_001_002));
    // released, then pressed again: acts at once
    assert!(!k.step_at(false, 600_000_000));
    assert!(k.step_at(true, 600_000_001));
}

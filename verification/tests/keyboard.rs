use watch_core::ui::t9_keyboard::{Mode, T9Keyboard};

const KEY_0: (u16, u16) = (77, 211);
const KEY_ABC: (u16, u16) = (205, 211);
const KEY_JKL: (u16, u16) = (205, 291);
const KEY_SHIFT: (u16, u16) = (77, 451);
const KEY_SPACE: (u16, u16) = (205, 451);
const KEY_DELETE: (u16, u16) = (333, 451);

fn tap(keyboard: &mut T9Keyboard, key: (u16, u16)) -> bool {
    keyboard.handle_tap(key.0, key.1)
}

fn shown() -> T9Keyboard {
    let mut keyboard = T9Keyboard::new();
    keyboard.show();
    keyboard
}

#[test]
fn hidden_keyboard_ignores_taps() {
    let mut keyboard = T9Keyboard::new();
    assert!(!keyboard.is_active());
    assert!(!tap(&mut keyboard, KEY_ABC));
    assert_eq!(keyboard.get_text(), "");
}

#[test]
fn repeated_taps_cycle_through_a_key() {
    let mut keyboard = shown();
    let expected = ["a", "b", "c", "a", "a", "c", "2", "a"];
    for want in expected {
        assert!(tap(&mut keyboard, KEY_ABC));
        assert_eq!(keyboard.get_text(), want);
    }
}

#[test]
fn another_key_commits_the_sequence() {
    let mut keyboard = shown();
    tap(&mut keyboard, KEY_ABC);
    tap(&mut keyboard, KEY_ABC);
    tap(&mut keyboard, KEY_JKL);
    tap(&mut keyboard, KEY_JKL);
    tap(&mut keyboard, KEY_SPACE);
    assert_eq!(keyboard.get_text(), "bk ");
}

#[test]
fn sequence_commits_after_the_timeout() {
    let mut keyboard = shown();
    tap(&mut keyboard, KEY_ABC);
    assert_eq!(keyboard.pending_key(), Some(1));
    assert!(!keyboard.update(1_499));
    assert_eq!(keyboard.pending_key(), Some(1));
    assert!(keyboard.update(1));
    assert_eq!(keyboard.pending_key(), None);
    tap(&mut keyboard, KEY_ABC);
    assert_eq!(keyboard.get_text(), "aa");
    assert!(!keyboard.update(0));
}

#[test]
fn update_without_a_pending_sequence_changes_nothing() {
    let mut keyboard = shown();
    assert!(!keyboard.update(u32::MAX));
    assert_eq!(keyboard.pending_key(), None);
}

#[test]
fn gaps_between_keys_are_not_keys() {
    let mut keyboard = shown();
    assert!(!keyboard.handle_tap(141, 211));
    assert!(!keyboard.handle_tap(205, 251));
    assert!(!keyboard.handle_tap(10, 211));
    assert!(!keyboard.handle_tap(205, 100));
    assert!(!keyboard.handle_tap(205, 500));
    assert!(!keyboard.handle_tap(400, 211));
    assert_eq!(keyboard.get_text(), "");
    assert!(keyboard.handle_tap(17, 175));
    assert!(keyboard.handle_tap(136, 246));
}

#[test]
fn shift_cycles_through_modes() {
    let mut keyboard = shown();
    assert_eq!(keyboard.mode(), Mode::Lower);
    assert!(tap(&mut keyboard, KEY_SHIFT));
    assert_eq!(keyboard.mode(), Mode::Upper);
    tap(&mut keyboard, KEY_ABC);
    tap(&mut keyboard, KEY_ABC);
    assert_eq!(keyboard.get_text(), "B");
    tap(&mut keyboard, KEY_SHIFT);
    assert_eq!(keyboard.mode(), Mode::Numeric);
    tap(&mut keyboard, KEY_ABC);
    tap(&mut keyboard, KEY_ABC);
    tap(&mut keyboard, KEY_0);
    assert_eq!(keyboard.get_text(), "B221");
    tap(&mut keyboard, KEY_SHIFT);
    assert_eq!(keyboard.mode(), Mode::Lower);
}

#[test]
fn delete_removes_the_last_character() {
    let mut keyboard = shown();
    keyboard.set_text("net");
    assert!(tap(&mut keyboard, KEY_DELETE));
    assert_eq!(keyboard.get_text(), "ne");
    keyboard.clear_text();
    assert!(tap(&mut keyboard, KEY_DELETE));
    assert_eq!(keyboard.get_text(), "");
}

#[test]
fn text_stops_at_127_bytes() {
    let mut keyboard = shown();
    let long = "x".repeat(200);
    keyboard.set_text(&long);
    assert_eq!(keyboard.text_len(), 127);
    assert_eq!(keyboard.get_text(), &long[..127]);
    tap(&mut keyboard, KEY_ABC);
    assert_eq!(keyboard.text_len(), 127);
}

#[test]
fn a_cut_multibyte_character_reads_as_empty_text() {
    let mut keyboard = shown();
    keyboard.set_text(&"\u{e9}".repeat(64));
    assert_eq!(keyboard.text_len(), 127);
    assert_eq!(keyboard.get_text(), "");
    tap(&mut keyboard, KEY_DELETE);
    assert_eq!(keyboard.get_text(), "\u{e9}".repeat(63));
}

#[test]
fn hiding_commits_and_deactivates() {
    let mut keyboard = shown();
    tap(&mut keyboard, KEY_ABC);
    keyboard.hide_keyboard();
    assert!(!keyboard.is_active());
    assert_eq!(keyboard.pending_key(), None);
    assert_eq!(keyboard.get_text(), "a");
}

#[test]
fn key_labels_follow_the_mode() {
    let mut keyboard = shown();
    assert_eq!(keyboard.key_label(1), "2 abc");
    assert_eq!(keyboard.key_label(9), "abc");
    assert_eq!(keyboard.key_label(11), "delete");
    tap(&mut keyboard, KEY_SHIFT);
    assert_eq!(keyboard.key_label(6), "7 PQRS");
    assert_eq!(keyboard.key_label(10), "0 SPACE");
    tap(&mut keyboard, KEY_SHIFT);
    assert_eq!(keyboard.key_label(9), "123");
    assert_eq!(keyboard.key_label(11), "DELETE");
}

#[test]
fn sequence_is_timed_from_its_first_tap() {
    let mut keyboard = shown();
    assert!(tap(&mut keyboard, KEY_ABC));
    assert!(!keyboard.update(1_000));
    assert_eq!(keyboard.commit_elapsed_ms(), 1_000);
    assert!(tap(&mut keyboard, KEY_ABC));
    assert_eq!(keyboard.get_text(), "b");
    assert_eq!(keyboard.commit_elapsed_ms(), 1_000);
    assert!(keyboard.update(500));
    assert_eq!(keyboard.pending_key(), None);
    assert_eq!(keyboard.commit_elapsed_ms(), 0);
    assert!(tap(&mut keyboard, KEY_ABC));
    assert_eq!(keyboard.get_text(), "ba");
}

#[test]
fn commit_clock_is_zero_without_a_sequence() {
    let mut keyboard = shown();
    assert_eq!(keyboard.commit_elapsed_ms(), 0);
    tap(&mut keyboard, KEY_ABC);
    keyboard.update(1_499);
    assert_eq!(keyboard.commit_elapsed_ms(), 1_499);
    tap(&mut keyboard, KEY_JKL);
    assert_eq!(keyboard.commit_elapsed_ms(), 0);
    assert_eq!(keyboard.get_text(), "aj");
}

#[test]
fn mode_names_follow_the_mode() {
    let mut keyboard = shown();
    assert_eq!(keyboard.mode_name(), "LOWERCASE");
    tap(&mut keyboard, KEY_SHIFT);
    assert_eq!(keyboard.mode_name(), "CAPITALS");
    tap(&mut keyboard, KEY_SHIFT);
    assert_eq!(keyboard.mode_name(), "NUMBERS");
    tap(&mut keyboard, KEY_SHIFT);
    assert_eq!(keyboard.mode_name(), "LOWERCASE");
}

use wx_utils::shortcuts::capture::{
    ID_CLEAR_SHORTCUT, capture_key, captured_binding, detected_shortcut, is_reserved_key,
};
use wx_utils::shortcuts::{Binding, Chord, TabKind, conflict_question, find_conflict, format_list_item};

fn chord(ctrl: bool, alt: bool, shift: bool, key: &str) -> Chord {
    Chord::new(ctrl, alt, shift, key)
}

fn keymap() -> Vec<Vec<Binding<u32>>> {
    vec![
        vec![
            Binding { action: 1, chord: Some(chord(true, false, false, "O")) },
            Binding { action: 2, chord: None },
        ],
        vec![
            Binding { action: 3, chord: Some(chord(true, false, false, "K")) },
            Binding { action: 4, chord: Some(chord(true, false, false, "K")) },
        ],
    ]
}

#[test]
fn ctrl_and_raw_ctrl_on_one_key_conflict() {
    let cmd = Chord::new(true, false, false, "K");
    let control = Chord::new_raw_ctrl(true, false, false, "K");
    assert!(cmd.conflicts_with(&control));
    assert!(control.conflicts_with(&cmd));
}

#[test]
fn a_different_modifier_or_win_is_not_a_conflict() {
    let plain = Chord::new(true, false, false, "K");
    let shifted = Chord::new(true, false, true, "K");
    assert!(!plain.conflicts_with(&shifted));
    let mut with_win = plain.clone();
    with_win.win = true;
    assert!(!plain.conflicts_with(&with_win));
    assert!(with_win.conflicts_with(&with_win.clone()));
}

#[test]
fn key_names_are_normalized() {
    assert_eq!(Chord::new(false, false, false, "esc").key, "Escape");
    assert_eq!(Chord::new(false, false, false, "o").key, "O");
    assert!(Chord::new(true, false, false, "k").conflicts_with(&Chord::new(true, false, false, "K")));
}

#[test]
fn shortcut_strings_list_modifiers_in_order() {
    assert_eq!(Chord::new(true, true, true, "k").to_shortcut_string(), "Ctrl+Alt+Shift+K");
    assert_eq!(Chord::new_raw_ctrl(true, false, false, "Space").to_shortcut_string(), "RawCtrl+Space");
    let mut win = Chord::new(true, false, false, "Up");
    win.win = true;
    assert_eq!(win.to_shortcut_string(), "Ctrl+Win+Up");
    assert_eq!(Chord::new(false, false, false, "H").to_shortcut_string(), "H");
}

#[test]
fn a_shared_keymap_finds_conflicts_in_other_tabs() {
    let target = chord(true, false, false, "K");
    assert_eq!(find_conflict(TabKind::SharedKeymap, &keymap(), 0, 1, &target), Some((1, 3)));
}

#[test]
fn separate_keymaps_only_look_in_their_own_tab() {
    let target = chord(true, false, false, "K");
    assert_eq!(find_conflict(TabKind::SeparateKeymaps, &keymap(), 0, 1, &target), None);
    assert_eq!(find_conflict(TabKind::SeparateKeymaps, &keymap(), 1, 9, &target), Some((1, 3)));
}

#[test]
fn the_edited_action_is_never_its_own_conflict() {
    let target = chord(true, false, false, "K");
    assert_eq!(find_conflict(TabKind::SeparateKeymaps, &keymap(), 1, 3, &target), Some((1, 4)));
    let open = chord(true, false, false, "O");
    assert_eq!(find_conflict(TabKind::SharedKeymap, &keymap(), 0, 1, &open), None);
}

#[test]
fn a_tab_past_the_end_has_no_conflicts() {
    let target = chord(true, false, false, "K");
    assert_eq!(find_conflict(TabKind::SeparateKeymaps, &keymap(), 7, 1, &target), None);
}

#[test]
fn list_items_show_the_chord_or_none() {
    assert_eq!(format_list_item("Open", &Some(chord(true, false, false, "O"))), "Open: Ctrl+O");
    assert_eq!(format_list_item("Close", &None), "Close: None");
}

#[test]
fn the_conflict_question_names_chord_holder_and_action() {
    assert_eq!(
        conflict_question(&chord(true, false, false, "K"), "Find", "Kill"),
        "'Ctrl+K' is already assigned to 'Find'. Reassign it to 'Kill'?"
    );
}

#[test]
fn reserved_keys_pass_through_the_capture_field() {
    for code in [9, 27, 314, 315, 316, 317, 378, 380, 382, 383] {
        assert!(is_reserved_key(code));
        assert!(capture_key(code, true, false, false).is_none());
    }
    assert!(!is_reserved_key(75));
}

#[test]
fn a_key_press_is_captured_with_its_modifiers() {
    let captured = capture_key(75, true, true, false).unwrap();
    assert_eq!(captured.to_shortcut_string(), "Ctrl+Alt+K");
    assert!(capture_key(306, false, false, true).is_none());
}

#[test]
fn the_detected_chord_follows_the_key_field() {
    assert_eq!(detected_shortcut(true, false, true, "  k "), Some("Ctrl+Shift+K".to_string()));
    assert_eq!(detected_shortcut(true, false, false, "   "), None);
}

#[test]
fn the_capture_dialog_answers() {
    let ok = 5100;
    assert!(matches!(captured_binding(ID_CLEAR_SHORTCUT, ok, "K", true, false, false, false), Some(None)));
    assert!(captured_binding(5101, ok, "K", true, false, false, false).is_none());
    assert!(matches!(captured_binding(ok, ok, "  ", true, false, false, false), Some(None)));
    let plain = captured_binding(ok, ok, " k ", true, false, false, false).unwrap().unwrap();
    assert_eq!(plain.to_shortcut_string(), "Ctrl+K");
    let raw = captured_binding(ok, ok, "space", true, false, false, true).unwrap().unwrap();
    assert_eq!(raw.to_shortcut_string(), "RawCtrl+Space");
    let unticked = captured_binding(ok, ok, "space", false, false, false, true).unwrap().unwrap();
    assert_eq!(unticked.to_shortcut_string(), "Space");
}

use wx_utils::shortcuts::capture::{CaptureEvent, modifiers_at_start, raw_ctrl_after, raw_ctrl_at_start};
use wx_utils::shortcuts::{asks_to_reassign, fill_conflict_question, reset_all_asks_whole_keymap, set_shortcut_edits};

fn edit_summary(edits: &[wx_utils::shortcuts::ChordEdit<u32>]) -> Vec<(usize, u32, Option<String>)> {
    edits.iter().map(|e| (e.tab, e.action, e.chord.as_ref().map(|c| c.to_shortcut_string()))).collect()
}

#[test]
fn a_cancelled_answer_changes_nothing() {
    let edits = set_shortcut_edits(0, 1u32, None, Some((1, 3)), true);
    assert!(edits.is_empty());
}

#[test]
fn a_cleared_answer_unbinds_the_action() {
    let edits = set_shortcut_edits(0, 1u32, Some(None), None, false);
    assert_eq!(edit_summary(&edits), vec![(0, 1, None)]);
}

#[test]
fn a_free_chord_is_bound_directly() {
    let edits = set_shortcut_edits(0, 1u32, Some(Some(chord(true, false, false, "J"))), None, false);
    assert_eq!(edit_summary(&edits), vec![(0, 1, Some("Ctrl+J".to_string()))]);
}

#[test]
fn a_taken_chord_moves_only_when_the_user_agrees() {
    let agreed = set_shortcut_edits(0, 1u32, Some(Some(chord(true, false, false, "K"))), Some((1, 3)), true);
    assert_eq!(edit_summary(&agreed), vec![(1, 3, None), (0, 1, Some("Ctrl+K".to_string()))]);
    let declined = set_shortcut_edits(0, 1u32, Some(Some(chord(true, false, false, "K"))), Some((1, 3)), false);
    assert!(declined.is_empty());
}

#[test]
fn the_user_is_asked_only_about_a_taken_new_chord() {
    assert!(asks_to_reassign(&Some(Some(chord(true, false, false, "K"))), &Some((1usize, 3u32))));
    assert!(!asks_to_reassign(&Some(Some(chord(true, false, false, "K"))), &None::<(usize, u32)>));
    assert!(!asks_to_reassign(&Some(None), &Some((1usize, 3u32))));
    assert!(!asks_to_reassign(&None, &Some((1usize, 3u32))));
}

#[test]
fn reset_all_covers_the_keymap_the_tabs_share() {
    assert!(reset_all_asks_whole_keymap(TabKind::SharedKeymap));
    assert!(!reset_all_asks_whole_keymap(TabKind::SeparateKeymaps));
}

#[test]
fn a_localized_conflict_question_is_filled_in_order() {
    assert_eq!(
        fill_conflict_question("{} gehört zu {}. {} übernehmen?", &chord(true, false, false, "K"), "Find", "Kill"),
        "Ctrl+K gehört zu Find. Kill übernehmen?"
    );
    assert_eq!(fill_conflict_question("no placeholders", &chord(true, false, false, "K"), "a", "b"), "no placeholders");
}

#[test]
fn raw_control_lasts_until_ctrl_or_a_key_is_touched() {
    let raw = Some(Chord::new_raw_ctrl(true, false, false, "Space"));
    assert!(raw_ctrl_at_start(&raw));
    assert!(!raw_ctrl_at_start(&Some(chord(true, false, false, "K"))));
    assert!(!raw_ctrl_at_start(&None));
    assert!(raw_ctrl_after(true, CaptureEvent::OtherModifierToggled));
    assert!(!raw_ctrl_after(true, CaptureEvent::CtrlToggled));
    assert!(!raw_ctrl_after(true, CaptureEvent::KeyCaptured));
    assert!(!raw_ctrl_after(false, CaptureEvent::OtherModifierToggled));
}

#[test]
fn one_ctrl_box_stands_for_both_controls() {
    let raw = Some(Chord::new_raw_ctrl(true, true, false, "Space"));
    assert_eq!(modifiers_at_start(&raw), Some((true, true, false)));
    assert_eq!(modifiers_at_start(&Some(chord(false, false, true, "K"))), Some((false, false, true)));
    assert_eq!(modifiers_at_start(&None), None);
}

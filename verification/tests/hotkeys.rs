use openwire::hotkeys::{parse_key_label, HotkeyAction, HotkeyError, HotkeyService, KeyCode, KEY_COUNT};
use openwire::soundboard::Soundboard;

#[test]
fn labels_parse() {
    assert!(matches!(parse_key_label("1"), Some(KeyCode::Num1)));
    assert!(matches!(parse_key_label("q"), Some(KeyCode::KeyQ)));
    assert!(matches!(parse_key_label("F5"), Some(KeyCode::F5)));
    assert!(matches!(parse_key_label("kp7"), Some(KeyCode::Kp7)));
    assert!(parse_key_label("meta-left").is_none());
}

#[test]
fn rebind_moves_binding() {
    let mut svc = HotkeyService::new();
    svc.rebind_label(2, 4, "G").unwrap();
    let map = svc.mapping();
    assert_eq!(
        map.iter().find(|(k, _)| *k == KeyCode::KeyG).map(|(_, v)| v),
        Some(&(2, 4))
    );

    assert!(!map.iter().map(|(_, v)| v).filter(|v| **v == (2, 4)).count() > 1);
}

#[test]
fn labels_are_trimmed_and_upper_cased() {
    assert_eq!(parse_key_label("  space \t"), Some(KeyCode::Space));
    assert_eq!(parse_key_label("numpad3"), Some(KeyCode::Kp3));
    assert_eq!(parse_key_label("Page Down"), Some(KeyCode::PageDown));
    assert_eq!(parse_key_label("pgup"), Some(KeyCode::PageUp));
    assert_eq!(parse_key_label("return"), Some(KeyCode::Return));
    assert_eq!(parse_key_label("Enter"), Some(KeyCode::Return));
    assert_eq!(parse_key_label("del"), Some(KeyCode::Delete));
    assert_eq!(parse_key_label("ArrowLeft"), Some(KeyCode::LeftArrow));
    assert_eq!(parse_key_label("prtscr"), Some(KeyCode::PrintScreen));
    assert_eq!(parse_key_label("f12"), Some(KeyCode::F12));
    assert_eq!(parse_key_label("f13"), None);
    assert_eq!(parse_key_label(""), None);
    assert_eq!(parse_key_label("escape"), None);
}

#[test]
fn key_slots_are_a_bijection() {
    for i in 0..KEY_COUNT {
        assert_eq!(KeyCode::at_slot(i).slot(), i);
    }
}

#[test]
fn default_mapping_binds_first_bank() {
    let svc = HotkeyService::new();
    assert_eq!(svc.binding(KeyCode::Num1), Some((0, 0)));
    assert_eq!(svc.binding(KeyCode::Num0), Some((0, 9)));
    assert_eq!(svc.binding(KeyCode::KeyT), Some((0, 14)));
    assert_eq!(svc.binding(KeyCode::KeyY), None);
    assert_eq!(svc.mapping().len(), 15);
}

#[test]
fn rebind_replaces_previous_key_of_pad() {
    let mut svc = HotkeyService::new();
    svc.rebind(0, 0, KeyCode::F1);
    assert_eq!(svc.binding(KeyCode::F1), Some((0, 0)));
    assert_eq!(svc.binding(KeyCode::Num1), None);
    svc.rebind(3, 7, KeyCode::F1);
    assert_eq!(svc.binding(KeyCode::F1), Some((3, 7)));
    assert_eq!(svc.binding(KeyCode::Num2), Some((0, 1)));
}

#[test]
fn clear_binding_unbinds_pad() {
    let mut svc = HotkeyService::new();
    svc.rebind(0, 3, KeyCode::KeyZ);
    svc.clear_binding(0, 3);
    assert!(svc.mapping().iter().all(|(_, v)| *v != (0, 3)));
    assert_eq!(svc.binding(KeyCode::Num5), Some((0, 4)));
}

#[test]
fn unsupported_label_changes_nothing() {
    let mut svc = HotkeyService::new();
    let before = svc.mapping();
    match svc.rebind_label(1, 1, "hyper") {
        Err(HotkeyError::UnsupportedLabel(l)) => assert_eq!(l, "hyper"),
        Ok(()) => panic!("label must be refused"),
    }
    assert_eq!(svc.mapping(), before);
}

#[test]
fn key_presses_map_to_actions() {
    let mut svc = HotkeyService::new();
    svc.rebind(2, 5, KeyCode::Escape);
    assert_eq!(svc.on_key_press(KeyCode::Escape), HotkeyAction::StopAll);
    assert_eq!(svc.on_key_press(KeyCode::KeyQ), HotkeyAction::Play { bank: 0, slot: 10 });
    assert_eq!(svc.on_key_press(KeyCode::KeyX), HotkeyAction::Ignore);
}

#[test]
fn sync_follows_board_hotkeys() {
    let mut board = Soundboard::default();
    board.banks[1].pads[2].hotkey = Some("x".to_string());
    board.banks[2].pads[0].hotkey = Some("1".to_string());
    board.banks[2].pads[1].hotkey = Some("not a key".to_string());
    board.banks[0].pads[5].hotkey = None;
    let mut svc = HotkeyService::new();
    svc.rebind(9, 9, KeyCode::F9);
    svc.sync_from_board(&board);
    assert_eq!(svc.binding(KeyCode::KeyX), Some((1, 2)));
    // The last pad naming a key wins: bank 2 after banks 0 and 1.
    assert_eq!(svc.binding(KeyCode::Num1), Some((2, 0)));
    assert_eq!(svc.binding(KeyCode::F9), None);
    // Bank 1 and 2 pads also name 2..T, so the last bank holds them.
    assert_eq!(svc.binding(KeyCode::Num3), Some((2, 2)));
}

#[test]
fn pad_hotkey_edit() {
    let mut svc = HotkeyService::new();
    assert!(svc.apply_pad_hotkey(0, 0, Some(" f2 ")).is_ok());
    assert_eq!(svc.binding(KeyCode::F2), Some((0, 0)));
    assert_eq!(svc.binding(KeyCode::Num1), None);
    assert!(svc.apply_pad_hotkey(0, 0, Some("   ")).is_ok());
    assert_eq!(svc.binding(KeyCode::F2), None);
    svc.rebind(0, 1, KeyCode::F3);
    assert!(matches!(svc.apply_pad_hotkey(0, 1, Some("nope")), Err(HotkeyError::UnsupportedLabel(_))));
    assert_eq!(svc.binding(KeyCode::F3), None);
    assert!(svc.apply_pad_hotkey(0, 2, None).is_ok());
    assert_eq!(svc.binding(KeyCode::Num3), None);
}

#[test]
fn default_mapping_lists_fifteen_keys_in_slot_order() {
    let m = HotkeyService::new().mapping();
    assert_eq!(m.len(), 15);
    assert_eq!(m[0], (KeyCode::Num0, (0, 9)));
    assert_eq!(m[1], (KeyCode::Num1, (0, 0)));
    assert_eq!(m[10], (KeyCode::KeyE, (0, 12)));
    assert_eq!(m[14], (KeyCode::KeyW, (0, 11)));
}

#[test]
fn spacing_around_labels_is_ignored() {
    assert_eq!(parse_key_label(" f5 "), parse_key_label("f5"));
    assert_eq!(parse_key_label("\u{a0}\tkp7\u{3000}"), parse_key_label("kp7"));
    assert_eq!(parse_key_label("\u{2003}F5\n"), Some(KeyCode::F5));
}

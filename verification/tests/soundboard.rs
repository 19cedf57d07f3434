use openwire::soundboard::{
    is_toggle, PadPress, ToggleLatch, default_hotkey, pad_id, plan_playback, BoardError, Pad, PlaybackPlan, Soundboard, PADS_PER_BANK,
};

fn bits(v: f32) -> u32 {
    v.to_bits()
}

#[test]
fn pad_ids_are_strided_and_saturate() {
    assert_eq!(pad_id(0, 0), 0);
    assert_eq!(pad_id(2, 7), 2_000_007);
    assert_eq!(pad_id(usize::MAX, 3), usize::MAX);
    assert_eq!(pad_id(usize::MAX / 1_000_000, usize::MAX), usize::MAX);
}

#[test]
fn default_board_layout() {
    let board = Soundboard::default();
    let names: Vec<&str> = board.banks.iter().map(|b| b.name.as_str()).collect();
    assert_eq!(names, vec!["Мемы", "Катка", "Стрим"]);
    for (i, bank) in board.banks.iter().enumerate() {
        assert_eq!(bank.pads.len(), PADS_PER_BANK);
        for (j, pad) in bank.pads.iter().enumerate() {
            assert_eq!(pad.bank, i);
            assert_eq!(pad.id, j);
            assert_eq!(pad.play_mode, "oneshot");
            assert_eq!(pad.monitor_volume, bits(1.0));
            assert!(pad.path.is_none());
        }
    }
    assert_eq!(board.banks[0].pads[9].hotkey.as_deref(), Some("0"));
    assert_eq!(board.banks[0].pads[14].hotkey.as_deref(), Some("T"));
}

#[test]
fn default_hotkeys_table() {
    assert_eq!(default_hotkey(0).as_deref(), Some("1"));
    assert_eq!(default_hotkey(10).as_deref(), Some("Q"));
    assert_eq!(default_hotkey(15), None);
}

#[test]
fn fixing_renumbers_and_tops_up() {
    let mut board = Soundboard::default();
    board.banks[0].pads.truncate(3);
    board.banks[0].pads[2].id = 40;
    board.banks[0].pads[2].bank = 7;
    board.banks[0].pads[2].name = "kept".to_string();
    let mut extra = board.banks[1].clone();
    extra.pads.push(Pad::default());
    board.banks[1] = extra;
    let fixed = board.with_fixed_indices();
    assert_eq!(fixed.banks[0].pads.len(), PADS_PER_BANK);
    assert_eq!(fixed.banks[0].pads[2].id, 2);
    assert_eq!(fixed.banks[0].pads[2].bank, 0);
    assert_eq!(fixed.banks[0].pads[2].name, "kept");
    assert_eq!(fixed.banks[0].pads[3].hotkey.as_deref(), Some("4"));
    assert_eq!(fixed.banks[1].pads.len(), PADS_PER_BANK + 1);
    assert_eq!(fixed.banks[1].pads[15].id, 15);
    assert_eq!(fixed.banks[1].pads[15].bank, 1);
}

#[test]
fn load_or_default_falls_back() {
    let board = Soundboard::load_or_default(None);
    assert_eq!(board.banks.len(), 3);
    let stored = Soundboard { banks: vec![] };
    assert_eq!(Soundboard::load_or_default(Some(stored)).banks.len(), 0);
}

#[test]
fn update_pad_checks_bank_and_slot() {
    let mut board = Soundboard::default();
    let mut pad = board.pad(1, 4).unwrap();
    pad.name = "airhorn".to_string();
    pad.trim_end_ms = 900;
    assert_eq!(board.update_pad(1, pad.clone()), Ok(()));
    assert_eq!(board.pad(1, 4).unwrap().name, "airhorn");
    assert_eq!(board.update_pad(9, pad.clone()), Err(BoardError::NoBank(9)));
    pad.id = 99;
    assert_eq!(board.update_pad(1, pad), Err(BoardError::NoPad(99)));
    assert_eq!(board.pad(1, 99).unwrap_err(), BoardError::NoSuchPad(1, 99));
}

#[test]
fn add_pad_appends_fresh_pad() {
    let mut board = Soundboard::default();
    let pad = board.add_pad(2).unwrap();
    assert_eq!(pad.id, PADS_PER_BANK);
    assert_eq!(pad.bank, 2);
    assert!(pad.hotkey.is_none());
    assert_eq!(board.banks[2].pads.len(), PADS_PER_BANK + 1);
    assert_eq!(board.add_pad(3).unwrap_err(), BoardError::NoBank(3));
}

#[test]
fn clear_and_import_pad() {
    let mut board = Soundboard::default();
    let pad = board
        .import(0, 2, "horn".to_string(), std::path::PathBuf::from("/sounds/horn.wav"), 1500)
        .unwrap();
    assert_eq!(pad.path.as_deref(), Some(std::path::Path::new("/sounds/horn.wav")));
    assert_eq!(pad.duration_ms, 1500);
    assert_eq!(pad.hotkey.as_deref(), Some("3"));
    assert!(board.play(0, 2).unwrap().is_some());
    let mut trimmed = board.pad(0, 2).unwrap();
    trimmed.trim_start_ms = 10;
    board.update_pad(0, trimmed).unwrap();
    board.clear_pad(0, 2).unwrap();
    let cleared = board.pad(0, 2).unwrap();
    assert!(cleared.path.is_none());
    assert_eq!(cleared.name, "");
    assert_eq!(cleared.duration_ms, 0);
    assert_eq!(cleared.trim_start_ms, 0);
    assert_eq!(cleared.hotkey.as_deref(), Some("3"));
    assert!(board.play(0, 2).unwrap().is_none());
    assert_eq!(board.clear_pad(0, 20), Err(BoardError::NoPad(20)));
    assert_eq!(
        board.import(5, 0, "x".to_string(), std::path::PathBuf::from("y"), 1).unwrap_err(),
        BoardError::NoBank(5)
    );
    assert_eq!(board.play(4, 0).unwrap_err(), BoardError::NoSuchPad(4, 0));
}

#[test]
fn playback_plan_trims_and_loops() {
    let mut pad = Pad::default();
    pad.bank = 1;
    pad.id = 3;
    let whole = plan_playback(&pad, 48_000);
    assert_eq!(
        whole,
        PlaybackPlan { pad_id: 1_000_003, start: 0, end: 48_000, whole: true, looping: false, bass_boost: false }
    );
    pad.trim_start_ms = 250;
    pad.trim_end_ms = 500;
    pad.play_mode = "loop".to_string();
    let p = plan_playback(&pad, 48_000);
    assert_eq!((p.start, p.end, p.whole, p.looping), (12_000, 24_000, false, true));
    pad.trim_start_ms = 2_000;
    pad.trim_end_ms = 100;
    pad.play_mode = "toggle".to_string();
    let p = plan_playback(&pad, 48_000);
    assert_eq!((p.start, p.end, p.looping), (48_000, 48_000, true));
    pad.trim_start_ms = 100;
    pad.trim_end_ms = 50;
    let p = plan_playback(&pad, 48_000);
    assert_eq!((p.start, p.end), (4_800, 4_800));
    pad.trim_end_ms = u32::MAX;
    pad.play_mode = "oneshot".to_string();
    let p = plan_playback(&pad, 48_000);
    assert_eq!((p.start, p.end, p.looping), (4_800, 48_000, false));
}

#[test]
fn toggle_pad_stops_on_second_press() {
    let mut latch = ToggleLatch::new();
    assert_eq!(latch.press(7, true), PadPress::Start);
    assert!(latch.contains(7));
    assert_eq!(latch.press(7, true), PadPress::Stop);
    assert!(!latch.contains(7));
    assert_eq!(latch.press(7, true), PadPress::Start);
}

#[test]
fn other_modes_restart_on_every_press() {
    let mut latch = ToggleLatch::new();
    assert_eq!(latch.press(3, false), PadPress::Start);
    assert_eq!(latch.press(3, false), PadPress::Start);
    assert!(!latch.contains(3));
    assert_eq!(latch.press(3, true), PadPress::Start);
    assert_eq!(latch.press(3, false), PadPress::Start);
    assert!(!latch.contains(3));
}

#[test]
fn stopping_forgets_toggle_pads() {
    let mut latch = ToggleLatch::new();
    latch.press(1, true);
    latch.press(2, true);
    latch.release(1);
    assert!(!latch.contains(1));
    assert!(latch.contains(2));
    assert_eq!(latch.press(1, true), PadPress::Start);
    latch.clear();
    assert!(!latch.contains(1));
    assert!(!latch.contains(2));
    assert_eq!(latch.press(2, true), PadPress::Start);
}

#[test]
fn toggle_mode_is_recognised() {
    assert!(is_toggle(&"toggle".to_string()));
    assert!(!is_toggle(&"loop".to_string()));
    assert!(!is_toggle(&"oneshot".to_string()));
}

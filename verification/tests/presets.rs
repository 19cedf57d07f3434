use openwire::presets::{
    builtin_preset, default_version, preset_names, text_less, is_builtin_preset, next_preset_index, preset_file_name, Meta, PresetError,
    PresetStore,
};
use std::path::PathBuf;

#[test]
fn name_resolution_is_sanitised() {
    let store = PresetStore::with_dir(PathBuf::from("/tmp").join("openwire_test_presets"));
    let path = store.resolve_name("../evil/path").expect("sanitised");
    assert_eq!(path.file_name().unwrap(), ".._evil_path.toml");
    assert!(path.starts_with(store.dir()));
    assert!(store.resolve_name("").is_err());
    assert!(store.resolve_name("..").is_err());
}

#[test]
fn preset_file_names() {
    assert_eq!(preset_file_name("Cyberpunk Radio"), Ok("Cyberpunk Radio.toml".to_string()));
    assert_eq!(preset_file_name("robot.toml"), Ok("robot.toml".to_string()));
    assert_eq!(preset_file_name("a\\b\0c"), Ok("a_b_c.toml".to_string()));
    assert_eq!(preset_file_name(".toml"), Ok(".toml".to_string()));
    assert_eq!(preset_file_name("/"), Ok("_.toml".to_string()));
    assert_eq!(preset_file_name("   "), Err(PresetError::InvalidName));
    assert_eq!(preset_file_name("."), Err(PresetError::InvalidName));
    assert_eq!(preset_file_name("Голос"), Ok("Голос.toml".to_string()));
}

#[test]
fn store_lives_in_voices_dir() {
    let store = PresetStore::new(&PathBuf::from("/home/u/Documents/OpenWire"));
    assert_eq!(store.dir(), &PathBuf::from("/home/u/Documents/OpenWire/Voices"));
}

#[test]
fn next_preset_cycles() {
    let names: Vec<String> = vec!["a".into(), "b".into(), "c".into()];
    assert_eq!(next_preset_index(&names, &None), Some(0));
    assert_eq!(next_preset_index(&names, &Some("a".into())), Some(1));
    assert_eq!(next_preset_index(&names, &Some("c".into())), Some(0));
    assert_eq!(next_preset_index(&names, &Some("zzz".into())), Some(0));
    assert_eq!(next_preset_index(&Vec::new(), &Some("a".into())), None);
}

#[test]
fn builtin_preset_is_recognised() {
    assert!(is_builtin_preset(&builtin_preset()));
    assert!(!is_builtin_preset(&"Cyberpunk Radio".to_string()));
}

#[test]
fn meta_defaults() {
    let m = Meta::default();
    assert_eq!(m.name, "Untitled Voice");
    assert_eq!(m.author, "OpenWire");
    assert_eq!(m.description, "");
    assert_eq!(m.version, 1);
    assert_eq!(default_version(), 1);
}

#[test]
fn blank_names_are_refused() {
    assert_eq!(preset_file_name(""), Err(PresetError::InvalidName));
    assert_eq!(preset_file_name("\t \u{a0}\u{3000}\n"), Err(PresetError::InvalidName));
    assert_eq!(preset_file_name(" a "), Ok(" a .toml".to_string()));
}

#[test]
fn preset_names_use_header_or_stem_in_order() {
    let found = vec![
        (Some("Robot".to_string()), "robot".to_string()),
        (None, "cave".to_string()),
        (Some("Cyberpunk Radio".to_string()), "x".to_string()),
        (None, "".to_string()),
        (Some("Голос".to_string()), "g".to_string()),
        (None, "cave".to_string()),
    ];
    let names = preset_names(&found);
    let mut expected: Vec<String> = vec!["Robot", "cave", "Cyberpunk Radio", "", "Голос", "cave"]
        .into_iter()
        .map(String::from)
        .collect();
    expected.sort();
    assert_eq!(names, expected);
    assert_eq!(names[0], "");
    assert_eq!(names[1], "Cyberpunk Radio");
    assert_eq!(preset_names(&Vec::new()), Vec::<String>::new());
}

#[test]
fn text_order_matches_string_order() {
    let words = ["", "a", "ab", "b", "B", "Z", "é", "Голос", "zz", "a\u{10000}", "a\u{ffff}"];
    for x in words {
        for y in words {
            assert_eq!(text_less(&x.to_string(), &y.to_string()), x < y, "{x:?} < {y:?}");
        }
    }
}

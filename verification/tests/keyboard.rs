use evdev::KeyCode;
use soomfon::keyboard::{key_code_for, key_for, keymap_codes, parse_combo, tap_batches, KeyboardError};

#[test]
fn parse_combo_resolves_a_modifier_chord() {
    let combo = vec!["ctrl".into(), "shift".into(), "m".into()];
    assert_eq!(
        parse_combo(&combo).unwrap(),
        vec![
            KeyCode::KEY_LEFTCTRL,
            KeyCode::KEY_LEFTSHIFT,
            KeyCode::KEY_M
        ]
    );
}

#[test]
fn key_names_are_case_insensitive_and_trimmed() {
    assert_eq!(key_for(" Ctrl ").unwrap(), KeyCode::KEY_LEFTCTRL);
    assert_eq!(key_for("ENTER").unwrap(), KeyCode::KEY_ENTER);
}

#[test]
fn aliases_map_to_the_same_code() {
    assert_eq!(key_for("super").unwrap(), key_for("win").unwrap());
    assert_eq!(key_for("esc").unwrap(), key_for("escape").unwrap());
    assert_eq!(key_for("del").unwrap(), key_for("delete").unwrap());
}

#[test]
fn an_unknown_name_is_reported() {
    assert!(matches!(
        key_for("nope"),
        Err(KeyboardError::UnknownKey(name)) if name == "nope"
    ));
}

#[test]
fn parse_combo_stops_at_the_first_unknown_name() {
    let combo = vec!["ctrl".into(), " Bogus".into(), "zz".into()];
    assert!(matches!(
        parse_combo(&combo),
        Err(KeyboardError::UnknownKey(name)) if name == " Bogus"
    ));
    assert!(parse_combo(&[]).unwrap().is_empty());
}

#[test]
fn unicode_padding_is_trimmed_but_inner_space_is_not() {
    assert_eq!(key_for("\u{3000}\tTab\n").unwrap(), KeyCode::KEY_TAB);
    assert!(key_for("page up").is_err());
    assert_eq!(key_for("PageUp").unwrap(), KeyCode::KEY_PAGEUP);
}

const TABLE: &[(&str, KeyCode)] = &[
    ("ctrl", KeyCode::KEY_LEFTCTRL),
    ("control", KeyCode::KEY_LEFTCTRL),
    ("shift", KeyCode::KEY_LEFTSHIFT),
    ("alt", KeyCode::KEY_LEFTALT),
    ("super", KeyCode::KEY_LEFTMETA),
    ("meta", KeyCode::KEY_LEFTMETA),
    ("win", KeyCode::KEY_LEFTMETA),
    ("a", KeyCode::KEY_A),
    ("b", KeyCode::KEY_B),
    ("c", KeyCode::KEY_C),
    ("d", KeyCode::KEY_D),
    ("e", KeyCode::KEY_E),
    ("f", KeyCode::KEY_F),
    ("g", KeyCode::KEY_G),
    ("h", KeyCode::KEY_H),
    ("i", KeyCode::KEY_I),
    ("j", KeyCode::KEY_J),
    ("k", KeyCode::KEY_K),
    ("l", KeyCode::KEY_L),
    ("m", KeyCode::KEY_M),
    ("n", KeyCode::KEY_N),
    ("o", KeyCode::KEY_O),
    ("p", KeyCode::KEY_P),
    ("q", KeyCode::KEY_Q),
    ("r", KeyCode::KEY_R),
    ("s", KeyCode::KEY_S),
    ("t", KeyCode::KEY_T),
    ("u", KeyCode::KEY_U),
    ("v", KeyCode::KEY_V),
    ("w", KeyCode::KEY_W),
    ("x", KeyCode::KEY_X),
    ("y", KeyCode::KEY_Y),
    ("z", KeyCode::KEY_Z),
    ("0", KeyCode::KEY_0),
    ("1", KeyCode::KEY_1),
    ("2", KeyCode::KEY_2),
    ("3", KeyCode::KEY_3),
    ("4", KeyCode::KEY_4),
    ("5", KeyCode::KEY_5),
    ("6", KeyCode::KEY_6),
    ("7", KeyCode::KEY_7),
    ("8", KeyCode::KEY_8),
    ("9", KeyCode::KEY_9),
    ("f1", KeyCode::KEY_F1),
    ("f2", KeyCode::KEY_F2),
    ("f3", KeyCode::KEY_F3),
    ("f4", KeyCode::KEY_F4),
    ("f5", KeyCode::KEY_F5),
    ("f6", KeyCode::KEY_F6),
    ("f7", KeyCode::KEY_F7),
    ("f8", KeyCode::KEY_F8),
    ("f9", KeyCode::KEY_F9),
    ("f10", KeyCode::KEY_F10),
    ("f11", KeyCode::KEY_F11),
    ("f12", KeyCode::KEY_F12),
    ("enter", KeyCode::KEY_ENTER),
    ("return", KeyCode::KEY_ENTER),
    ("space", KeyCode::KEY_SPACE),
    ("tab", KeyCode::KEY_TAB),
    ("esc", KeyCode::KEY_ESC),
    ("escape", KeyCode::KEY_ESC),
    ("backspace", KeyCode::KEY_BACKSPACE),
    ("delete", KeyCode::KEY_DELETE),
    ("del", KeyCode::KEY_DELETE),
    ("insert", KeyCode::KEY_INSERT),
    ("up", KeyCode::KEY_UP),
    ("down", KeyCode::KEY_DOWN),
    ("left", KeyCode::KEY_LEFT),
    ("right", KeyCode::KEY_RIGHT),
    ("home", KeyCode::KEY_HOME),
    ("end", KeyCode::KEY_END),
    ("pageup", KeyCode::KEY_PAGEUP),
    ("pagedown", KeyCode::KEY_PAGEDOWN),
];

#[test]
fn every_table_name_matches_the_evdev_constant() {
    for (name, code) in TABLE {
        assert_eq!(key_for(name).unwrap(), *code, "{name}");
        assert_eq!(key_code_for(name).unwrap(), code.code(), "{name}");
        assert_eq!(key_for(&name.to_uppercase()).unwrap(), *code, "{name}");
    }
}

#[test]
fn advertised_codes_cover_the_table_in_order() {
    let codes = keymap_codes();
    assert_eq!(codes.len(), TABLE.len());
    for (i, (_, code)) in TABLE.iter().enumerate() {
        assert_eq!(codes[i], code.code());
    }
}

#[test]
fn a_tap_presses_in_order_and_releases_in_reverse() {
    let combo = [KeyCode::KEY_LEFTCTRL, KeyCode::KEY_LEFTSHIFT, KeyCode::KEY_M];
    let (down, up) = tap_batches(&combo);
    assert_eq!(
        down,
        vec![(KeyCode::KEY_LEFTCTRL, 1), (KeyCode::KEY_LEFTSHIFT, 1), (KeyCode::KEY_M, 1)]
    );
    assert_eq!(
        up,
        vec![(KeyCode::KEY_M, 0), (KeyCode::KEY_LEFTSHIFT, 0), (KeyCode::KEY_LEFTCTRL, 0)]
    );
    let (down, up) = tap_batches(&[]);
    assert!(down.is_empty() && up.is_empty());
}

#[test]
fn only_unicode_white_space_is_trimmed() {
    assert_eq!(key_for("\u{85}Ctrl\u{2029}\u{A0}").unwrap(), KeyCode::KEY_LEFTCTRL);
    assert_eq!(key_for("\u{205F}m\u{202F}").unwrap(), KeyCode::KEY_M);
    // U+180E and U+200B are not White_Space.
    assert!(key_for("\u{180E}ctrl").is_err());
    assert!(key_for("ctrl\u{200B}").is_err());
}

#[test]
fn distinct_names_resolve_to_distinct_keys() {
    assert_ne!(key_for("ctrl").unwrap(), key_for("shift").unwrap());
    assert_ne!(key_for("f1").unwrap(), key_for("1").unwrap());
}

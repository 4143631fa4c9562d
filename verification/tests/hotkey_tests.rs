use voicetype::hotkey::{Key, ParsedHotkey};

#[test]
fn test_parse_simple_hotkey() {
    let hotkey = ParsedHotkey::parse("F4").unwrap();
    assert_eq!(hotkey.get_display_name(), "F4");
}

#[test]
fn test_parse_modifier_hotkey() {
    let hotkey = ParsedHotkey::parse("Ctrl + F4").unwrap();
    assert_eq!(hotkey.get_display_name(), "Ctrl + F4");
}

#[test]
fn test_parse_complex_hotkey() {
    let hotkey = ParsedHotkey::parse("Ctrl + Shift + Alt + F4").unwrap();
    assert_eq!(hotkey.get_display_name(), "Ctrl + Shift + Alt + F4");
}

#[test]
fn test_parse_case_insensitive() {
    let hotkey1 = ParsedHotkey::parse("ctrl + f4").unwrap();
    let hotkey2 = ParsedHotkey::parse("CTRL + F4").unwrap();
    assert_eq!(hotkey1.get_display_name(), hotkey2.get_display_name());
}

#[test]
fn test_parse_invalid_hotkey() {
    assert!(ParsedHotkey::parse("").is_err());
    assert!(ParsedHotkey::parse("Ctrl").is_err());
}

#[test]
fn parse_errors_carry_messages() {
    assert_eq!(ParsedHotkey::parse("   ").err(), Some("Hotkey string is empty".to_string()));
    assert_eq!(
        ParsedHotkey::parse("Ctrl + Shift").err(),
        Some("Hotkey must contain at least one main key (modifier-only shortcuts not supported)".to_string())
    );
    assert_eq!(ParsedHotkey::parse("Ctrl + Foo").err(), Some("Invalid F-key format: foo".to_string()));
    assert_eq!(ParsedHotkey::parse("F25").err(), Some("F-key number out of range: 25".to_string()));
    assert_eq!(ParsedHotkey::parse("F0").err(), Some("F-key number out of range: 0".to_string()));
    assert_eq!(ParsedHotkey::parse("Ctrl + @").err(), Some("Unsupported key: @".to_string()));
    assert_eq!(ParsedHotkey::parse("Ctrl++F4").err(), Some("Unsupported key: ".to_string()));
}

#[test]
fn parsed_keys_and_matching() {
    let h = ParsedHotkey::parse("Shift + Ctrl + Space").unwrap();
    assert_eq!(h.key_combination, vec![Key::ShiftLeft, Key::ControlLeft, Key::Space]);
    assert_eq!(h.main_key, Some(Key::Space));
    assert_eq!(h.modifiers, vec![Key::ShiftLeft, Key::ControlLeft]);
    assert_eq!(h.get_display_name(), "Ctrl + Shift + Space");
    assert!(h.matches(&[Key::Space, Key::ControlLeft, Key::ShiftLeft, Key::KeyA]));
    assert!(!h.matches(&[Key::Space, Key::ControlLeft]));
    let f13 = ParsedHotkey::parse("f13").unwrap();
    assert_eq!(f13.main_key, Some(Key::Unknown(0)));
    assert_eq!(f13.get_display_name(), "Unknown");
    let win = ParsedHotkey::parse(" Win + a ").unwrap();
    assert_eq!(win.get_display_name(), "Meta + A");
    let page = ParsedHotkey::parse("page down").unwrap();
    assert_eq!(page.main_key, Some(Key::PageDown));
    let digit = ParsedHotkey::parse("Alt+7").unwrap();
    assert_eq!(digit.get_display_name(), "Alt + 7");
    assert!(!ParsedHotkey::parse_would_panic("Ctrl + F4"));
    assert!(ParsedHotkey::parse_would_panic("\u{FB00}"));
}

#[test]
fn display_name_parses_back() {
    let names = ["meta + shift + pagedown", "alt+ctrl+win+shift+9", "Ctrl + F12", "esc", "Shift + Up"];
    for s in names.iter() {
        let h = ParsedHotkey::parse(s).unwrap();
        let shown = h.get_display_name();
        let again = ParsedHotkey::parse(&shown).unwrap();
        assert_eq!(again.main_key, h.main_key);
        let mut m1 = h.modifiers.clone();
        let mut m2 = again.modifiers.clone();
        m1.sort_by_key(|k| format!("{:?}", k));
        m2.sort_by_key(|k| format!("{:?}", k));
        assert_eq!(m1, m2);
        assert_eq!(again.get_display_name(), shown);
    }
    let h = ParsedHotkey::parse("meta + shift + pagedown").unwrap();
    assert_eq!(h.get_display_name(), "Shift + Meta + PageDown");
    let again = ParsedHotkey::parse("Shift + Meta + PageDown").unwrap();
    assert_eq!(again.modifiers, vec![Key::ShiftLeft, Key::MetaLeft]);
    let f13 = ParsedHotkey::parse("F13").unwrap();
    assert!(ParsedHotkey::parse(&f13.get_display_name()).is_err());
}

#[test]
fn spacing_around_plus_does_not_matter() {
    let a = ParsedHotkey::parse("  ctrl+shift +  f4 ").unwrap();
    let b = ParsedHotkey::parse("Ctrl + Shift + F4").unwrap();
    assert_eq!(a.modifiers, b.modifiers);
    assert_eq!(a.main_key, b.main_key);
    assert_eq!(a.key_combination, b.key_combination);
    assert_eq!(ParsedHotkey::parse(" \t ").err(), ParsedHotkey::parse("").err());
}

#[test]
fn main_key_is_last_non_modifier() {
    let h = ParsedHotkey::parse("F4 + Ctrl + A + Shift + ctrl").unwrap();
    assert_eq!(h.main_key, Some(Key::KeyA));
    assert_eq!(h.modifiers, vec![Key::ControlLeft, Key::ShiftLeft]);
    assert_eq!(
        h.key_combination,
        vec![Key::F4, Key::ControlLeft, Key::KeyA, Key::ShiftLeft, Key::ControlLeft]
    );
}

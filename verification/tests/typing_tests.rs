use voicetype::text::{parse_i32, split_words, trim_start_matches_exec};
use voicetype::typing::{is_terminal_title, parse_cursor_location, keystroke_script, paste_key_events, KeyStroke, VK_CONTROL, VK_SHIFT, VK_V};

#[test]
fn terminal_windows_are_recognised_by_title() {
    assert!(is_terminal_title("Windows PowerShell"));
    assert!(is_terminal_title("C:\\WINDOWS\\system32\\CMD.exe"));
    assert!(is_terminal_title("Ubuntu 22.04 LTS"));
    assert!(is_terminal_title("Developer Console"));
    assert!(!is_terminal_title("Untitled - Notepad"));
    assert!(!is_terminal_title(""));
}

#[test]
fn paste_uses_shift_only_in_terminals() {
    let k = |code: u16, up: bool| KeyStroke { code, up };
    assert_eq!(
        paste_key_events(true),
        vec![k(VK_CONTROL, false), k(VK_SHIFT, false), k(VK_V, false), k(VK_V, true), k(VK_SHIFT, true), k(VK_CONTROL, true)]
    );
    assert_eq!(paste_key_events(false), vec![k(VK_CONTROL, false), k(VK_V, false), k(VK_V, true), k(VK_CONTROL, true)]);
    assert_eq!((VK_CONTROL, VK_SHIFT, VK_V), (0x11, 0x10, 0x56));
}

#[test]
fn applescript_text_is_escaped() {
    assert_eq!(
        keystroke_script("say \"hi\"\nbye"),
        "tell application \"System Events\" to keystroke \"say \\\"hi\\\"\\nbye\""
    );
    assert_eq!(keystroke_script(""), "tell application \"System Events\" to keystroke \"\"");
}

fn chars(s: &str) -> Vec<char> {
    s.chars().collect()
}

#[test]
fn cursor_location_from_xdotool_output() {
    assert_eq!(parse_cursor_location("x:1203 y:455 screen:0 window:6291463\n"), Some((1203, 455)));
    assert_eq!(parse_cursor_location("x:-5 y:+7"), Some((-5, 7)));
    assert_eq!(parse_cursor_location("x:1 y:two"), None);
    assert_eq!(parse_cursor_location("x:1"), Some((800, 600)));
    assert_eq!(parse_cursor_location(""), Some((800, 600)));
}

#[test]
fn words_signed_numbers_and_prefixes() {
    assert_eq!(split_words(&chars("  a\tbb  c ")), vec![chars("a"), chars("bb"), chars("c")]);
    assert!(split_words(&chars(" \n ")).is_empty());
    assert_eq!(parse_i32(&chars("-2147483648")), Some(i32::MIN));
    assert_eq!(parse_i32(&chars("2147483647")), Some(i32::MAX));
    assert_eq!(parse_i32(&chars("2147483648")), None);
    assert_eq!(parse_i32(&chars("-")), None);
    assert_eq!(parse_i32(&chars("+12")), Some(12));
    assert_eq!(parse_i32(&chars("1 2")), None);
    assert_eq!(trim_start_matches_exec(&chars("x:x:5"), &chars("x:")), chars("5"));
    assert_eq!(trim_start_matches_exec(&chars("y:5"), &chars("x:")), chars("y:5"));
}

use vstd::prelude::*;
use crate::hotkey::{lowercase, lowercase_chars};
use crate::text::{
    chars_of, contains_exec, contains_seq, i32_value, parse_i32, push_all, push_str, replace_all, replace_all_exec,
    split_words, string_of, trim_start_matches, trim_start_matches_exec, views, ws_words,
};

verus! {

/// The Windows virtual-key code of the Control key.
pub const VK_CONTROL: u16 = 0x11;

/// The Windows virtual-key code of the Shift key.
pub const VK_SHIFT: u16 = 0x10;

/// The Windows virtual-key code of the V key.
pub const VK_V: u16 = 0x56;

/// One simulated key event: a virtual key going down or up.
#[derive(Clone, Copy, Debug, PartialEq, Eq, Structural)]
pub struct KeyStroke {
    pub code: u16,
    pub up: bool,
}

/// Whether a lower-cased window title names a terminal.
pub open spec fn terminal_title(t: Seq<char>) -> bool {
    ||| contains_seq(t, "windows terminal"@)
    ||| contains_seq(t, "powershell"@)
    ||| contains_seq(t, "command prompt"@)
    ||| contains_seq(t, "cmd"@)
    ||| contains_seq(t, "ubuntu"@)
    ||| contains_seq(t, "wsl"@)
    ||| contains_seq(t, "terminal"@)
    ||| contains_seq(t, "console"@)
}

fn title_has(t: &[char], word: &str) -> (b: bool)
    ensures
        b == contains_seq(t@, word@),
{
    let w = chars_of(word);
    contains_exec(t, w.as_slice())
}

/// Whether the foreground window, by its title, is a terminal: the lower-cased title
/// mentions a terminal, PowerShell, the command prompt, Ubuntu, WSL or a console.
pub fn is_terminal_title(title: &str) -> (b: bool)
    ensures
        b == terminal_title(lowercase(title@)),
{
    let c = chars_of(title);
    let t = lowercase_chars(c.as_slice());
    let ts = t.as_slice();
    title_has(ts, "windows terminal") || title_has(ts, "powershell") || title_has(ts, "command prompt")
        || title_has(ts, "cmd") || title_has(ts, "ubuntu") || title_has(ts, "wsl") || title_has(ts, "terminal")
        || title_has(ts, "console")
}

/// A window whose lower-cased title mentions any of "windows terminal", "powershell",
/// "command prompt", "cmd", "ubuntu", "wsl", "terminal" or "console" is a terminal, and
/// only such a window is.
pub proof fn lemma_terminal_words(title: Seq<char>)
    ensures
        contains_seq(lowercase(title), "windows terminal"@) ==> terminal_title(lowercase(title)),
        contains_seq(lowercase(title), "powershell"@) ==> terminal_title(lowercase(title)),
        contains_seq(lowercase(title), "command prompt"@) ==> terminal_title(lowercase(title)),
        contains_seq(lowercase(title), "cmd"@) ==> terminal_title(lowercase(title)),
        contains_seq(lowercase(title), "ubuntu"@) ==> terminal_title(lowercase(title)),
        contains_seq(lowercase(title), "wsl"@) ==> terminal_title(lowercase(title)),
        contains_seq(lowercase(title), "terminal"@) ==> terminal_title(lowercase(title)),
        contains_seq(lowercase(title), "console"@) ==> terminal_title(lowercase(title)),
        terminal_title(lowercase(title)) ==> contains_seq(lowercase(title), "windows terminal"@)
            || contains_seq(lowercase(title), "powershell"@) || contains_seq(
            lowercase(title),
            "command prompt"@,
        ) || contains_seq(lowercase(title), "cmd"@) || contains_seq(lowercase(title), "ubuntu"@)
            || contains_seq(lowercase(title), "wsl"@) || contains_seq(lowercase(title), "terminal"@)
            || contains_seq(lowercase(title), "console"@),
{
}

/// A paste into a terminal window sends Ctrl+Shift+V and into any other window Ctrl+V:
/// Shift is pressed exactly for terminals.
pub proof fn lemma_terminal_paste_has_shift(terminal: bool)
    ensures
        paste_strokes(terminal).contains(KeyStroke { code: VK_SHIFT, up: false }) == terminal,
        paste_strokes(terminal).contains(KeyStroke { code: VK_CONTROL, up: false }),
        paste_strokes(terminal).contains(KeyStroke { code: VK_V, up: false }),
{
    let s = paste_strokes(terminal);
    assert(s[0] == KeyStroke { code: VK_CONTROL, up: false });
    if terminal {
        assert(s[1] == KeyStroke { code: VK_SHIFT, up: false });
        assert(s[2] == KeyStroke { code: VK_V, up: false });
    } else {
        assert(s[1] == KeyStroke { code: VK_V, up: false });
        assert forall|i: int| 0 <= i < s.len() implies s[i] != KeyStroke { code: VK_SHIFT, up: false } by {}
    }
}

/// The key events of a paste: Ctrl+Shift+V into a terminal, Ctrl+V elsewhere, each key
/// released in the reverse order it was pressed.
pub open spec fn paste_strokes(terminal: bool) -> Seq<KeyStroke> {
    if terminal {
        seq![
            KeyStroke { code: VK_CONTROL, up: false },
            KeyStroke { code: VK_SHIFT, up: false },
            KeyStroke { code: VK_V, up: false },
            KeyStroke { code: VK_V, up: true },
            KeyStroke { code: VK_SHIFT, up: true },
            KeyStroke { code: VK_CONTROL, up: true },
        ]
    } else {
        seq![
            KeyStroke { code: VK_CONTROL, up: false },
            KeyStroke { code: VK_V, up: false },
            KeyStroke { code: VK_V, up: true },
            KeyStroke { code: VK_CONTROL, up: true },
        ]
    }
}

/// The key events that paste the clipboard into a window.
pub fn paste_key_events(terminal: bool) -> (r: Vec<KeyStroke>)
    ensures
        r@ == paste_strokes(terminal),
{
    let mut r: Vec<KeyStroke> = Vec::new();
    r.push(KeyStroke { code: VK_CONTROL, up: false });
    if terminal {
        r.push(KeyStroke { code: VK_SHIFT, up: false });
    }
    r.push(KeyStroke { code: VK_V, up: false });
    r.push(KeyStroke { code: VK_V, up: true });
    if terminal {
        r.push(KeyStroke { code: VK_SHIFT, up: true });
    }
    r.push(KeyStroke { code: VK_CONTROL, up: true });
    assert(r@ =~= paste_strokes(terminal));
    r
}

/// The text as an AppleScript string body: each double quote escaped with a backslash,
/// then each line break written as `\n`.
pub open spec fn applescript_escaped(text: Seq<char>) -> Seq<char> {
    replace_all(replace_all(text, "\""@, "\\\""@), "\n"@, "\\n"@)
}

/// The AppleScript that has System Events type the text.
pub fn keystroke_script(text: &str) -> (r: String)
    ensures
        r@ == "tell application \"System Events\" to keystroke \""@ + applescript_escaped(text@) + "\""@,
{
    let t = chars_of(text);
    let q = chars_of("\"");
    let eq = chars_of("\\\"");
    let nl = chars_of("\n");
    let enl = chars_of("\\n");
    proof {
        reveal_strlit("\"");
        reveal_strlit("\n");
    }
    let once = replace_all_exec(t.as_slice(), q.as_slice(), eq.as_slice());
    let twice = replace_all_exec(once.as_slice(), nl.as_slice(), enl.as_slice());
    let mut out: Vec<char> = Vec::new();
    push_str(&mut out, "tell application \"System Events\" to keystroke \"");
    push_all(&mut out, twice.as_slice());
    push_str(&mut out, "\"");
    string_of(out.as_slice())
}

/// Where the output of `xdotool getmouselocation` puts the cursor: the first two words,
/// without their leading `x:` and `y:`, read as integers; the screen's middle at
/// (800, 600) when there are fewer than two words; nothing when a coordinate is not an
/// integer.
pub open spec fn cursor_location(output: Seq<char>) -> Option<(int, int)> {
    let w = ws_words(output);
    if w.len() >= 2 {
        match (i32_value(trim_start_matches(w[0], "x:"@)), i32_value(trim_start_matches(w[1], "y:"@))) {
            (Some(x), Some(y)) => Some((x, y)),
            _ => None,
        }
    } else {
        Some((800, 600))
    }
}

/// Reads the cursor position from the output of `xdotool getmouselocation`.
pub fn parse_cursor_location(output: &str) -> (r: Option<(i32, i32)>)
    ensures
        match cursor_location(output@) {
            Some((x, y)) => r == Some((x as i32, y as i32)),
            None => r is None,
        },
{
    let c = chars_of(output);
    let words = split_words(c.as_slice());
    proof {
        assert(views(words@).len() == words@.len());
    }
    if words.len() < 2 {
        return Some((800, 600));
    }
    assert(views(words@)[0] == words@[0]@);
    assert(views(words@)[1] == words@[1]@);
    let xp = chars_of("x:");
    let yp = chars_of("y:");
    let xs = trim_start_matches_exec(words[0].as_slice(), xp.as_slice());
    let ys = trim_start_matches_exec(words[1].as_slice(), yp.as_slice());
    match (parse_i32(xs.as_slice()), parse_i32(ys.as_slice())) {
        (Some(x), Some(y)) => Some((x, y)),
        _ => None,
    }
}

} // verus!

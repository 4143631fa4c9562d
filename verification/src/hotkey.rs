use vstd::prelude::*;
use crate::text::{
    chars_of, decimal, digits_value, is_digit, join, join_exec, parse_u32, parses_u32, push_all, push_decimal,
    push_str, split, split_chars, string_of, trim, trim_chars, unsigned_body, views,
};

verus! {

/// A keyboard key, as the hotkey logic sees it.
///
/// The named variants are the keys that hotkey strings can name; `Unknown` is a key
/// the keyboard layer could not identify (and the placeholder for F13 to F24), and
/// `Other` carries a distinct code for every remaining physical key.
#[derive(Clone, Copy, Debug, PartialEq, Eq, Structural, Hash)]
pub enum Key {
    ControlLeft,
    ControlRight,
    Alt,
    AltGr,
    ShiftLeft,
    ShiftRight,
    MetaLeft,
    MetaRight,
    Space,
    Return,
    Escape,
    Tab,
    Backspace,
    Delete,
    UpArrow,
    DownArrow,
    LeftArrow,
    RightArrow,
    Home,
    End,
    PageUp,
    PageDown,
    F1,
    F2,
    F3,
    F4,
    F5,
    F6,
    F7,
    F8,
    F9,
    F10,
    F11,
    F12,
    KeyA,
    KeyB,
    KeyC,
    KeyD,
    KeyE,
    KeyF,
    KeyG,
    KeyH,
    KeyI,
    KeyJ,
    KeyK,
    KeyL,
    KeyM,
    KeyN,
    KeyO,
    KeyP,
    KeyQ,
    KeyR,
    KeyS,
    KeyT,
    KeyU,
    KeyV,
    KeyW,
    KeyX,
    KeyY,
    KeyZ,
    Num0,
    Num1,
    Num2,
    Num3,
    Num4,
    Num5,
    Num6,
    Num7,
    Num8,
    Num9,
    Unknown(u32),
    Other(u32),
}

/// What one `'+'`-separated part of a hotkey string stands for.
pub enum PartMeaning {
    /// A modifier key.
    Modifier(Key),
    /// A main (non-modifier) key.
    Main(Key),
    /// The part is refused with this message.
    Refused(Seq<char>),
    /// The part cannot be read at all: the text after its first character does not
    /// start on a character boundary (a ligature such as `"ﬀ"` that upper-cases to "FF").
    Unreadable,
}

/// The lower-case ASCII character that `c` lower-cases to, if any.
///
/// `str::to_lowercase` turns an ASCII letter into its lower-case form, leaves other ASCII
/// characters alone and maps the Kelvin sign to `'k'`. Every other character lower-cases to
/// text that holds a character outside ASCII (`'İ'`, for one, to `'i'` and a combining
/// dot), so a word holding it never lower-cases to ASCII only.
pub open spec fn ascii_lower(c: char) -> Option<char> {
    if 'A' <= c && c <= 'Z' {
        Some(((c as u32) + 32) as char)
    } else if (c as u32) < 128 {
        Some(c)
    } else if c == '\u{212A}' {
        Some('k')
    } else {
        None
    }
}

/// The lower-cased part, when it lower-cases to ASCII only.
pub open spec fn ascii_lower_word(s: Seq<char>) -> Option<Seq<char>> {
    if forall|i: int| 0 <= i < s.len() ==> (#[trigger] ascii_lower(s[i])) is Some {
        Some(Seq::new(s.len(), |i: int| ascii_lower(s[i])->0))
    } else {
        None
    }
}

/// The keyword meaning of a lower-cased ASCII word.
pub open spec fn keyword(w: Seq<char>) -> Option<PartMeaning> {
    if w == seq!['c', 't', 'r', 'l'] || w == seq!['c', 'o', 'n', 't', 'r', 'o', 'l'] {
        Some(PartMeaning::Modifier(Key::ControlLeft))
    } else if w == seq!['a', 'l', 't'] {
        Some(PartMeaning::Modifier(Key::Alt))
    } else if w == seq!['s', 'h', 'i', 'f', 't'] {
        Some(PartMeaning::Modifier(Key::ShiftLeft))
    } else if w == seq!['m', 'e', 't', 'a'] || w == seq!['c', 'm', 'd'] || w == seq![
        'c',
        'o',
        'm',
        'm',
        'a',
        'n',
        'd',
    ] || w == seq!['w', 'i', 'n'] || w == seq!['w', 'i', 'n', 'd', 'o', 'w', 's'] {
        Some(PartMeaning::Modifier(Key::MetaLeft))
    } else if w == seq!['s', 'p', 'a', 'c', 'e'] {
        Some(PartMeaning::Main(Key::Space))
    } else if w == seq!['e', 'n', 't', 'e', 'r'] || w == seq!['r', 'e', 't', 'u', 'r', 'n'] {
        Some(PartMeaning::Main(Key::Return))
    } else if w == seq!['e', 's', 'c', 'a', 'p', 'e'] || w == seq!['e', 's', 'c'] {
        Some(PartMeaning::Main(Key::Escape))
    } else if w == seq!['t', 'a', 'b'] {
        Some(PartMeaning::Main(Key::Tab))
    } else if w == seq!['b', 'a', 'c', 'k', 's', 'p', 'a', 'c', 'e'] {
        Some(PartMeaning::Main(Key::Backspace))
    } else if w == seq!['d', 'e', 'l', 'e', 't', 'e'] {
        Some(PartMeaning::Main(Key::Delete))
    } else if w == seq!['u', 'p'] {
        Some(PartMeaning::Main(Key::UpArrow))
    } else if w == seq!['d', 'o', 'w', 'n'] {
        Some(PartMeaning::Main(Key::DownArrow))
    } else if w == seq!['l', 'e', 'f', 't'] {
        Some(PartMeaning::Main(Key::LeftArrow))
    } else if w == seq!['r', 'i', 'g', 'h', 't'] {
        Some(PartMeaning::Main(Key::RightArrow))
    } else if w == seq!['h', 'o', 'm', 'e'] {
        Some(PartMeaning::Main(Key::Home))
    } else if w == seq!['e', 'n', 'd'] {
        Some(PartMeaning::Main(Key::End))
    } else if w == seq!['p', 'a', 'g', 'e', 'u', 'p'] || w == seq!['p', 'a', 'g', 'e', ' ', 'u', 'p'] {
        Some(PartMeaning::Main(Key::PageUp))
    } else if w == seq!['p', 'a', 'g', 'e', 'd', 'o', 'w', 'n'] || w == seq![
        'p',
        'a',
        'g',
        'e',
        ' ',
        'd',
        'o',
        'w',
        'n',
    ] {
        Some(PartMeaning::Main(Key::PageDown))
    } else {
        None
    }
}

/// The letter key for a lower-case ASCII letter.
pub open spec fn letter_key(c: char) -> Key {
    if c == 'a' { Key::KeyA } else if c == 'b' { Key::KeyB } else if c == 'c' { Key::KeyC }
    else if c == 'd' { Key::KeyD } else if c == 'e' { Key::KeyE } else if c == 'f' { Key::KeyF }
    else if c == 'g' { Key::KeyG } else if c == 'h' { Key::KeyH } else if c == 'i' { Key::KeyI }
    else if c == 'j' { Key::KeyJ } else if c == 'k' { Key::KeyK } else if c == 'l' { Key::KeyL }
    else if c == 'm' { Key::KeyM } else if c == 'n' { Key::KeyN } else if c == 'o' { Key::KeyO }
    else if c == 'p' { Key::KeyP } else if c == 'q' { Key::KeyQ } else if c == 'r' { Key::KeyR }
    else if c == 's' { Key::KeyS } else if c == 't' { Key::KeyT } else if c == 'u' { Key::KeyU }
    else if c == 'v' { Key::KeyV } else if c == 'w' { Key::KeyW } else if c == 'x' { Key::KeyX }
    else if c == 'y' { Key::KeyY } else { Key::KeyZ }
}

/// The number-row key for an ASCII digit.
pub open spec fn digit_key(c: char) -> Key {
    if c == '0' { Key::Num0 } else if c == '1' { Key::Num1 } else if c == '2' { Key::Num2 }
    else if c == '3' { Key::Num3 } else if c == '4' { Key::Num4 } else if c == '5' { Key::Num5 }
    else if c == '6' { Key::Num6 } else if c == '7' { Key::Num7 } else if c == '8' { Key::Num8 }
    else { Key::Num9 }
}

/// The function key `F<n>` for `1 <= n <= 24`; F13 to F24 have no key of their own.
pub open spec fn function_key(n: nat) -> Key {
    if n == 1 { Key::F1 } else if n == 2 { Key::F2 } else if n == 3 { Key::F3 }
    else if n == 4 { Key::F4 } else if n == 5 { Key::F5 } else if n == 6 { Key::F6 }
    else if n == 7 { Key::F7 } else if n == 8 { Key::F8 } else if n == 9 { Key::F9 }
    else if n == 10 { Key::F10 } else if n == 11 { Key::F11 } else if n == 12 { Key::F12 }
    else { Key::Unknown(0) }
}

/// A character whose upper-case form starts with `'F'` but which is longer than one byte.
pub open spec fn is_f_ligature(c: char) -> bool {
    '\u{FB00}' <= c && c <= '\u{FB04}'
}

/// The full lower-case form of a string (`str::to_lowercase`).
pub uninterp spec fn lowercase(s: Seq<char>) -> Seq<char>;

/// `str::to_lowercase` on a sequence of characters.
#[verifier::external_body]
pub(crate) fn lowercase_chars(s: &[char]) -> (r: Vec<char>)
    ensures
        r@ == lowercase(s@),
{
    s.iter().collect::<String>().to_lowercase().chars().collect()
}

/// The meaning of one trimmed part of a hotkey string.
pub open spec fn part_meaning(part: Seq<char>) -> PartMeaning {
    let lw = ascii_lower_word(part);
    if lw is Some && keyword(lw->0) is Some {
        keyword(lw->0)->0
    } else if lw is Some && part.len() == 1 && 'a' <= lw->0[0] && lw->0[0] <= 'z' {
        PartMeaning::Main(letter_key(lw->0[0]))
    } else if lw is Some && part.len() == 1 && is_digit(lw->0[0]) {
        PartMeaning::Main(digit_key(lw->0[0]))
    } else if part.len() >= 2 && (part[0] == 'f' || part[0] == 'F') {
        let rest = part.drop_first();
        if parses_u32(rest) {
            let n = digits_value(unsigned_body(rest));
            if 1 <= n && n <= 24 {
                PartMeaning::Main(function_key(n))
            } else {
                PartMeaning::Refused("F-key number out of range: "@ + decimal(n))
            }
        } else {
            PartMeaning::Refused("Invalid F-key format: "@ + lowercase(part))
        }
    } else if part.len() >= 1 && is_f_ligature(part[0]) {
        PartMeaning::Unreadable
    } else {
        PartMeaning::Refused("Unsupported key: "@ + part)
    }
}


/// The exec counterpart of a part's meaning.
pub enum PartResult {
    Modifier(Key),
    Main(Key),
    Refused(Vec<char>),
    Unreadable,
}

/// The exec result stands for the spec meaning.
pub open spec fn part_result_is(r: PartResult, m: PartMeaning) -> bool {
    match r {
        PartResult::Modifier(k) => m == PartMeaning::Modifier(k),
        PartResult::Main(k) => m == PartMeaning::Main(k),
        PartResult::Refused(msg) => m == PartMeaning::Refused(msg@),
        PartResult::Unreadable => m is Unreadable,
    }
}

fn ascii_lower_exec(c: char) -> (r: Option<char>)
    ensures
        r == ascii_lower(c),
{
    if 'A' <= c && c <= 'Z' {
        let b: u8 = ((c as u32) + 32) as u8;
        Some(b as char)
    } else if (c as u32) < 128 {
        Some(c)
    } else if c == '\u{212A}' {
        Some('k')
    } else {
        None
    }
}

fn ascii_lower_word_exec(s: &[char]) -> (r: Option<Vec<char>>)
    ensures
        r matches Some(v) ==> ascii_lower_word(s@) == Some(v@),
        r is None ==> ascii_lower_word(s@) is None,
{
    let mut out: Vec<char> = Vec::new();
    let mut i: usize = 0;
    while i < s.len()
        invariant
            i <= s@.len(),
            out@.len() == i,
            forall|k: int| 0 <= k < i ==> (#[trigger] ascii_lower(s@[k])) is Some,
            forall|k: int| 0 <= k < i ==> out@[k] == ascii_lower(s@[k])->0,
        decreases s@.len() - i,
    {
        match ascii_lower_exec(s[i]) {
            Some(c) => {
                out.push(c);
            },
            None => {
                return None;
            },
        }
        i = i + 1;
    }
    assert(out@ =~= Seq::new(s@.len(), |k: int| ascii_lower(s@[k])->0));
    Some(out)
}

fn same_chars(a: &[char], b: &[char]) -> (r: bool)
    ensures
        r == (a@ == b@),
{
    if a.len() != b.len() {
        return false;
    }
    let mut i: usize = 0;
    while i < a.len()
        invariant
            i <= a@.len(),
            a@.len() == b@.len(),
            forall|k: int| 0 <= k < i ==> a@[k] == b@[k],
        decreases a@.len() - i,
    {
        if a[i] != b[i] {
            return false;
        }
        i = i + 1;
    }
    assert(a@ =~= b@);
    true
}

fn keyword_exec(w: &[char]) -> (r: Option<PartResult>)
    ensures
        r is None <==> keyword(w@) is None,
        r matches Some(x) ==> part_result_is(x, keyword(w@)->0),
{
    let w1 = ['c', 't', 'r', 'l'];
    assert(w1@ == seq!['c', 't', 'r', 'l']);
    if same_chars(w, &w1) {
        return Some(PartResult::Modifier(Key::ControlLeft));
    }
    let w2 = ['c', 'o', 'n', 't', 'r', 'o', 'l'];
    assert(w2@ == seq!['c', 'o', 'n', 't', 'r', 'o', 'l']);
    if same_chars(w, &w2) {
        return Some(PartResult::Modifier(Key::ControlLeft));
    }
    let w3 = ['a', 'l', 't'];
    assert(w3@ == seq!['a', 'l', 't']);
    if same_chars(w, &w3) {
        return Some(PartResult::Modifier(Key::Alt));
    }
    let w4 = ['s', 'h', 'i', 'f', 't'];
    assert(w4@ == seq!['s', 'h', 'i', 'f', 't']);
    if same_chars(w, &w4) {
        return Some(PartResult::Modifier(Key::ShiftLeft));
    }
    let w5 = ['m', 'e', 't', 'a'];
    assert(w5@ == seq!['m', 'e', 't', 'a']);
    if same_chars(w, &w5) {
        return Some(PartResult::Modifier(Key::MetaLeft));
    }
    let w6 = ['c', 'm', 'd'];
    assert(w6@ == seq!['c', 'm', 'd']);
    if same_chars(w, &w6) {
        return Some(PartResult::Modifier(Key::MetaLeft));
    }
    let w7 = ['c', 'o', 'm', 'm', 'a', 'n', 'd'];
    assert(w7@ == seq!['c', 'o', 'm', 'm', 'a', 'n', 'd']);
    if same_chars(w, &w7) {
        return Some(PartResult::Modifier(Key::MetaLeft));
    }
    let w8 = ['w', 'i', 'n'];
    assert(w8@ == seq!['w', 'i', 'n']);
    if same_chars(w, &w8) {
        return Some(PartResult::Modifier(Key::MetaLeft));
    }
    let w9 = ['w', 'i', 'n', 'd', 'o', 'w', 's'];
    assert(w9@ == seq!['w', 'i', 'n', 'd', 'o', 'w', 's']);
    if same_chars(w, &w9) {
        return Some(PartResult::Modifier(Key::MetaLeft));
    }
    let w10 = ['s', 'p', 'a', 'c', 'e'];
    assert(w10@ == seq!['s', 'p', 'a', 'c', 'e']);
    if same_chars(w, &w10) {
        return Some(PartResult::Main(Key::Space));
    }
    let w11 = ['e', 'n', 't', 'e', 'r'];
    assert(w11@ == seq!['e', 'n', 't', 'e', 'r']);
    if same_chars(w, &w11) {
        return Some(PartResult::Main(Key::Return));
    }
    let w12 = ['r', 'e', 't', 'u', 'r', 'n'];
    assert(w12@ == seq!['r', 'e', 't', 'u', 'r', 'n']);
    if same_chars(w, &w12) {
        return Some(PartResult::Main(Key::Return));
    }
    let w13 = ['e', 's', 'c', 'a', 'p', 'e'];
    assert(w13@ == seq!['e', 's', 'c', 'a', 'p', 'e']);
    if same_chars(w, &w13) {
        return Some(PartResult::Main(Key::Escape));
    }
    let w14 = ['e', 's', 'c'];
    assert(w14@ == seq!['e', 's', 'c']);
    if same_chars(w, &w14) {
        return Some(PartResult::Main(Key::Escape));
    }
    let w15 = ['t', 'a', 'b'];
    assert(w15@ == seq!['t', 'a', 'b']);
    if same_chars(w, &w15) {
        return Some(PartResult::Main(Key::Tab));
    }
    let w16 = ['b', 'a', 'c', 'k', 's', 'p', 'a', 'c', 'e'];
    assert(w16@ == seq!['b', 'a', 'c', 'k', 's', 'p', 'a', 'c', 'e']);
    if same_chars(w, &w16) {
        return Some(PartResult::Main(Key::Backspace));
    }
    let w17 = ['d', 'e', 'l', 'e', 't', 'e'];
    assert(w17@ == seq!['d', 'e', 'l', 'e', 't', 'e']);
    if same_chars(w, &w17) {
        return Some(PartResult::Main(Key::Delete));
    }
    let w18 = ['u', 'p'];
    assert(w18@ == seq!['u', 'p']);
    if same_chars(w, &w18) {
        return Some(PartResult::Main(Key::UpArrow));
    }
    let w19 = ['d', 'o', 'w', 'n'];
    assert(w19@ == seq!['d', 'o', 'w', 'n']);
    if same_chars(w, &w19) {
        return Some(PartResult::Main(Key::DownArrow));
    }
    let w20 = ['l', 'e', 'f', 't'];
    assert(w20@ == seq!['l', 'e', 'f', 't']);
    if same_chars(w, &w20) {
        return Some(PartResult::Main(Key::LeftArrow));
    }
    let w21 = ['r', 'i', 'g', 'h', 't'];
    assert(w21@ == seq!['r', 'i', 'g', 'h', 't']);
    if same_chars(w, &w21) {
        return Some(PartResult::Main(Key::RightArrow));
    }
    let w22 = ['h', 'o', 'm', 'e'];
    assert(w22@ == seq!['h', 'o', 'm', 'e']);
    if same_chars(w, &w22) {
        return Some(PartResult::Main(Key::Home));
    }
    let w23 = ['e', 'n', 'd'];
    assert(w23@ == seq!['e', 'n', 'd']);
    if same_chars(w, &w23) {
        return Some(PartResult::Main(Key::End));
    }
    let w24 = ['p', 'a', 'g', 'e', 'u', 'p'];
    assert(w24@ == seq!['p', 'a', 'g', 'e', 'u', 'p']);
    if same_chars(w, &w24) {
        return Some(PartResult::Main(Key::PageUp));
    }
    let w25 = ['p', 'a', 'g', 'e', ' ', 'u', 'p'];
    assert(w25@ == seq!['p', 'a', 'g', 'e', ' ', 'u', 'p']);
    if same_chars(w, &w25) {
        return Some(PartResult::Main(Key::PageUp));
    }
    let w26 = ['p', 'a', 'g', 'e', 'd', 'o', 'w', 'n'];
    assert(w26@ == seq!['p', 'a', 'g', 'e', 'd', 'o', 'w', 'n']);
    if same_chars(w, &w26) {
        return Some(PartResult::Main(Key::PageDown));
    }
    let w27 = ['p', 'a', 'g', 'e', ' ', 'd', 'o', 'w', 'n'];
    assert(w27@ == seq!['p', 'a', 'g', 'e', ' ', 'd', 'o', 'w', 'n']);
    if same_chars(w, &w27) {
        return Some(PartResult::Main(Key::PageDown));
    }
    None
}


fn letter_key_exec(c: char) -> (k: Key)
    requires
        'a' <= c <= 'z',
    ensures
        k == letter_key(c),
{
    match c {
        'a' => Key::KeyA,
        'b' => Key::KeyB,
        'c' => Key::KeyC,
        'd' => Key::KeyD,
        'e' => Key::KeyE,
        'f' => Key::KeyF,
        'g' => Key::KeyG,
        'h' => Key::KeyH,
        'i' => Key::KeyI,
        'j' => Key::KeyJ,
        'k' => Key::KeyK,
        'l' => Key::KeyL,
        'm' => Key::KeyM,
        'n' => Key::KeyN,
        'o' => Key::KeyO,
        'p' => Key::KeyP,
        'q' => Key::KeyQ,
        'r' => Key::KeyR,
        's' => Key::KeyS,
        't' => Key::KeyT,
        'u' => Key::KeyU,
        'v' => Key::KeyV,
        'w' => Key::KeyW,
        'x' => Key::KeyX,
        'y' => Key::KeyY,
        _ => Key::KeyZ,
    }
}

fn digit_key_exec(c: char) -> (k: Key)
    requires
        is_digit(c),
    ensures
        k == digit_key(c),
{
    match c {
        '0' => Key::Num0,
        '1' => Key::Num1,
        '2' => Key::Num2,
        '3' => Key::Num3,
        '4' => Key::Num4,
        '5' => Key::Num5,
        '6' => Key::Num6,
        '7' => Key::Num7,
        '8' => Key::Num8,
        _ => Key::Num9,
    }
}

fn function_key_exec(n: u32) -> (k: Key)
    requires
        1 <= n <= 24,
    ensures
        k == function_key(n as nat),
{
    match n {
        1 => Key::F1,
        2 => Key::F2,
        3 => Key::F3,
        4 => Key::F4,
        5 => Key::F5,
        6 => Key::F6,
        7 => Key::F7,
        8 => Key::F8,
        9 => Key::F9,
        10 => Key::F10,
        11 => Key::F11,
        12 => Key::F12,
        _ => Key::Unknown(0),
    }
}

/// Classifies one trimmed part of a hotkey string.
fn classify_part(part: &[char]) -> (r: PartResult)
    ensures
        part_result_is(r, part_meaning(part@)),
{
    if part.len() >= 1 && '\u{FB00}' <= part[0] && part[0] <= '\u{FB04}' {
        assert(ascii_lower(part@[0]) is None);
        return PartResult::Unreadable;
    }
    let lw = ascii_lower_word_exec(part);
    if let Some(w) = lw {
        let kw = keyword_exec(w.as_slice());
        if let Some(x) = kw {
            return x;
        }
        if part.len() == 1 {
            let c = w[0];
            if 'a' <= c && c <= 'z' {
                return PartResult::Main(letter_key_exec(c));
            }
            if '0' <= c && c <= '9' {
                return PartResult::Main(digit_key_exec(c));
            }
        }
    }
    if part.len() >= 2 && (part[0] == 'f' || part[0] == 'F') {
        let rest = vstd::slice::slice_subrange(part, 1, part.len());
        assert(rest@ =~= part@.drop_first());
        match parse_u32(rest) {
            Some(n) => {
                if 1 <= n && n <= 24 {
                    return PartResult::Main(function_key_exec(n));
                } else {
                    let mut msg: Vec<char> = Vec::new();
                    push_str(&mut msg, "F-key number out of range: ");
                    push_decimal(&mut msg, n as u64);
                    return PartResult::Refused(msg);
                }
            },
            None => {
                let mut msg: Vec<char> = Vec::new();
                push_str(&mut msg, "Invalid F-key format: ");
                let low = lowercase_chars(part);
                push_all(&mut msg, low.as_slice());
                return PartResult::Refused(msg);
            },
        }
    }
    let mut msg: Vec<char> = Vec::new();
    push_str(&mut msg, "Unsupported key: ");
    push_all(&mut msg, part);
    PartResult::Refused(msg)
}


/// Adds a modifier to a set of modifiers kept in first-insertion order.
pub open spec fn add_modifier(mods: Seq<Key>, k: Key) -> Seq<Key> {
    if mods.contains(k) {
        mods
    } else {
        mods.push(k)
    }
}

/// What parsing a hotkey string comes to.
pub enum HotkeyOutcome {
    /// The modifiers (each once), the main key, and every key in the order written.
    Parsed(Seq<Key>, Key, Seq<Key>),
    /// The string is refused with this message.
    Failed(Seq<char>),
    /// The string holds a part that cannot be read (see `PartMeaning::Unreadable`).
    Panics,
}

/// Folds the parts from index `i` on into the keys gathered so far.
pub open spec fn parse_parts(
    parts: Seq<Seq<char>>,
    i: int,
    mods: Seq<Key>,
    main: Option<Key>,
    combo: Seq<Key>,
) -> HotkeyOutcome
    decreases parts.len() - i,
{
    if i >= parts.len() {
        match main {
            Some(k) => HotkeyOutcome::Parsed(mods, k, combo),
            None => HotkeyOutcome::Failed(
                "Hotkey must contain at least one main key (modifier-only shortcuts not supported)"@,
            ),
        }
    } else {
        match part_meaning(trim(parts[i])) {
            PartMeaning::Modifier(k) => parse_parts(
                parts,
                i + 1,
                add_modifier(mods, k),
                main,
                combo.push(k),
            ),
            PartMeaning::Main(k) => parse_parts(parts, i + 1, mods, Some(k), combo.push(k)),
            PartMeaning::Refused(m) => HotkeyOutcome::Failed(m),
            PartMeaning::Unreadable => HotkeyOutcome::Panics,
        }
    }
}

/// The outcome of parsing a hotkey string such as `"Ctrl + F4"`: the string is cut at
/// every `'+'`, each part is trimmed and read case-insensitively, the last main key
/// wins, and at least one main key is needed.
pub open spec fn hotkey_outcome(s: Seq<char>) -> HotkeyOutcome {
    if trim(s).len() == 0 {
        HotkeyOutcome::Failed("Hotkey string is empty"@)
    } else {
        parse_parts(split(s, '+'), 0, Seq::<Key>::empty(), None, Seq::<Key>::empty())
    }
}

/// A parsed hotkey.
pub struct ParsedHotkey {
    /// The modifier keys, each once.
    pub modifiers: Vec<Key>,
    /// The main key.
    pub main_key: Option<Key>,
    /// Every key of the hotkey, in the order written.
    pub key_combination: Vec<Key>,
}

/// The hotkey holds exactly what a successful parse produced.
pub open spec fn hotkey_is(h: ParsedHotkey, o: HotkeyOutcome) -> bool {
    match o {
        HotkeyOutcome::Parsed(m, k, c) => h.modifiers@ == m && h.main_key == Some(k)
            && h.key_combination@ == c,
        _ => false,
    }
}

enum ParseRun {
    Parsed(ParsedHotkey),
    Failed(Vec<char>),
    Panics,
}

spec fn run_is(r: ParseRun, o: HotkeyOutcome) -> bool {
    match r {
        ParseRun::Parsed(h) => hotkey_is(h, o),
        ParseRun::Failed(m) => o == HotkeyOutcome::Failed(m@),
        ParseRun::Panics => o is Panics,
    }
}

pub(crate) fn key_in(v: &[Key], k: Key) -> (b: bool)
    ensures
        b == v@.contains(k),
{
    let mut i: usize = 0;
    while i < v.len()
        invariant
            i <= v@.len(),
            forall|j: int| 0 <= j < i ==> v@[j] != k,
        decreases v@.len() - i,
    {
        if v[i] == k {
            assert(v@[i as int] == k);
            return true;
        }
        i = i + 1;
    }
    false
}

fn add_modifier_exec(mods: &mut Vec<Key>, k: Key)
    ensures
        final(mods)@ == add_modifier(old(mods)@, k),
{
    if !key_in(mods.as_slice(), k) {
        mods.push(k);
    }
}

fn run_parse(hotkey_str: &str) -> (r: ParseRun)
    ensures
        run_is(r, hotkey_outcome(hotkey_str@)),
{
    let s = chars_of(hotkey_str);
    let t = trim_chars(s.as_slice());
    if t.len() == 0 {
        let mut msg: Vec<char> = Vec::new();
        push_str(&mut msg, "Hotkey string is empty");
        return ParseRun::Failed(msg);
    }
    let parts = split_chars(s.as_slice(), '+');
    let ghost ps = split(s@, '+');
    let mut mods: Vec<Key> = Vec::new();
    let mut main: Option<Key> = None;
    let mut combo: Vec<Key> = Vec::new();
    let mut i: usize = 0;
    while i < parts.len()
        invariant
            i <= parts@.len(),
            trim(hotkey_str@).len() > 0,
            ps == split(hotkey_str@, '+'),
            parts@.len() == ps.len(),
            forall|k: int| 0 <= k < parts@.len() ==> (#[trigger] parts@[k])@ == ps[k],
            parse_parts(ps, 0, Seq::<Key>::empty(), None, Seq::<Key>::empty()) == parse_parts(
                ps,
                i as int,
                mods@,
                main,
                combo@,
            ),
        decreases parts@.len() - i,
    {
        let part = trim_chars(parts[i].as_slice());
        assert(part@ == trim(ps[i as int]));
        match classify_part(part.as_slice()) {
            PartResult::Modifier(k) => {
                add_modifier_exec(&mut mods, k);
                combo.push(k);
            },
            PartResult::Main(k) => {
                main = Some(k);
                combo.push(k);
            },
            PartResult::Refused(m) => {
                return ParseRun::Failed(m);
            },
            PartResult::Unreadable => {
                return ParseRun::Panics;
            },
        }
        i = i + 1;
    }
    match main {
        Some(k) => ParseRun::Parsed(ParsedHotkey { modifiers: mods, main_key: Some(k), key_combination: combo }),
        None => {
            let mut msg: Vec<char> = Vec::new();
            push_str(
                &mut msg,
                "Hotkey must contain at least one main key (modifier-only shortcuts not supported)",
            );
            ParseRun::Failed(msg)
        },
    }
}


/// The name shown for a main key.
pub open spec fn key_name(k: Key) -> Seq<char> {
    match k {
        Key::Space => "Space"@,
        Key::Return => "Enter"@,
        Key::Escape => "Esc"@,
        Key::Tab => "Tab"@,
        Key::Backspace => "Backspace"@,
        Key::Delete => "Delete"@,
        Key::UpArrow => "Up"@,
        Key::DownArrow => "Down"@,
        Key::LeftArrow => "Left"@,
        Key::RightArrow => "Right"@,
        Key::Home => "Home"@,
        Key::End => "End"@,
        Key::PageUp => "PageUp"@,
        Key::PageDown => "PageDown"@,
        Key::F1 => "F1"@,
        Key::F2 => "F2"@,
        Key::F3 => "F3"@,
        Key::F4 => "F4"@,
        Key::F5 => "F5"@,
        Key::F6 => "F6"@,
        Key::F7 => "F7"@,
        Key::F8 => "F8"@,
        Key::F9 => "F9"@,
        Key::F10 => "F10"@,
        Key::F11 => "F11"@,
        Key::F12 => "F12"@,
        Key::KeyA => "A"@,
        Key::KeyB => "B"@,
        Key::KeyC => "C"@,
        Key::KeyD => "D"@,
        Key::KeyE => "E"@,
        Key::KeyF => "F"@,
        Key::KeyG => "G"@,
        Key::KeyH => "H"@,
        Key::KeyI => "I"@,
        Key::KeyJ => "J"@,
        Key::KeyK => "K"@,
        Key::KeyL => "L"@,
        Key::KeyM => "M"@,
        Key::KeyN => "N"@,
        Key::KeyO => "O"@,
        Key::KeyP => "P"@,
        Key::KeyQ => "Q"@,
        Key::KeyR => "R"@,
        Key::KeyS => "S"@,
        Key::KeyT => "T"@,
        Key::KeyU => "U"@,
        Key::KeyV => "V"@,
        Key::KeyW => "W"@,
        Key::KeyX => "X"@,
        Key::KeyY => "Y"@,
        Key::KeyZ => "Z"@,
        Key::Num0 => "0"@,
        Key::Num1 => "1"@,
        Key::Num2 => "2"@,
        Key::Num3 => "3"@,
        Key::Num4 => "4"@,
        Key::Num5 => "5"@,
        Key::Num6 => "6"@,
        Key::Num7 => "7"@,
        Key::Num8 => "8"@,
        Key::Num9 => "9"@,
        _ => "Unknown"@,
    }
}

fn key_name_exec(k: Key) -> (r: &'static str)
    ensures
        r@ == key_name(k),
{
    match k {
        Key::Space => "Space",
        Key::Return => "Enter",
        Key::Escape => "Esc",
        Key::Tab => "Tab",
        Key::Backspace => "Backspace",
        Key::Delete => "Delete",
        Key::UpArrow => "Up",
        Key::DownArrow => "Down",
        Key::LeftArrow => "Left",
        Key::RightArrow => "Right",
        Key::Home => "Home",
        Key::End => "End",
        Key::PageUp => "PageUp",
        Key::PageDown => "PageDown",
        Key::F1 => "F1",
        Key::F2 => "F2",
        Key::F3 => "F3",
        Key::F4 => "F4",
        Key::F5 => "F5",
        Key::F6 => "F6",
        Key::F7 => "F7",
        Key::F8 => "F8",
        Key::F9 => "F9",
        Key::F10 => "F10",
        Key::F11 => "F11",
        Key::F12 => "F12",
        Key::KeyA => "A",
        Key::KeyB => "B",
        Key::KeyC => "C",
        Key::KeyD => "D",
        Key::KeyE => "E",
        Key::KeyF => "F",
        Key::KeyG => "G",
        Key::KeyH => "H",
        Key::KeyI => "I",
        Key::KeyJ => "J",
        Key::KeyK => "K",
        Key::KeyL => "L",
        Key::KeyM => "M",
        Key::KeyN => "N",
        Key::KeyO => "O",
        Key::KeyP => "P",
        Key::KeyQ => "Q",
        Key::KeyR => "R",
        Key::KeyS => "S",
        Key::KeyT => "T",
        Key::KeyU => "U",
        Key::KeyV => "V",
        Key::KeyW => "W",
        Key::KeyX => "X",
        Key::KeyY => "Y",
        Key::KeyZ => "Z",
        Key::Num0 => "0",
        Key::Num1 => "1",
        Key::Num2 => "2",
        Key::Num3 => "3",
        Key::Num4 => "4",
        Key::Num5 => "5",
        Key::Num6 => "6",
        Key::Num7 => "7",
        Key::Num8 => "8",
        Key::Num9 => "9",
        _ => "Unknown",
    }
}

/// The pieces of a hotkey's display name: `Ctrl`, `Shift`, `Alt` and `Meta` for the
/// modifiers present, in that order, then the main key's name.
pub open spec fn display_parts(mods: Seq<Key>, main: Option<Key>) -> Seq<Seq<char>> {
    let p1: Seq<Seq<char>> = if mods.contains(Key::ControlLeft) {
        seq!["Ctrl"@]
    } else {
        seq![]
    };
    let p2 = if mods.contains(Key::ShiftLeft) || mods.contains(Key::ShiftRight) {
        p1.push("Shift"@)
    } else {
        p1
    };
    let p3 = if mods.contains(Key::Alt) {
        p2.push("Alt"@)
    } else {
        p2
    };
    let p4 = if mods.contains(Key::MetaLeft) {
        p3.push("Meta"@)
    } else {
        p3
    };
    match main {
        Some(k) => p4.push(key_name(k)),
        None => p4,
    }
}

/// The display name of a hotkey: its pieces joined with `" + "`.
pub open spec fn display_name(mods: Seq<Key>, main: Option<Key>) -> Seq<char> {
    join(display_parts(mods, main), " + "@)
}

/// Every key of `combo` is among the pressed keys.
pub open spec fn all_pressed(combo: Seq<Key>, pressed: Seq<Key>) -> bool {
    forall|i: int| 0 <= i < combo.len() ==> pressed.contains(#[trigger] combo[i])
}

fn push_piece(pieces: &mut Vec<Vec<char>>, s: &str)
    ensures
        views(final(pieces)@) == views(old(pieces)@).push(s@),
{
    let mut v: Vec<char> = Vec::new();
    push_str(&mut v, s);
    let ghost before = pieces@;
    pieces.push(v);
    assert(views(pieces@) =~= views(before).push(s@));
}

impl ParsedHotkey {
    /// Parses a hotkey string such as `"Ctrl + F4"` or `"Shift + Alt + T"`.
    ///
    /// Fails with a message when the string is blank, when a part names no key, or when
    /// no main key is given.
    pub fn parse(hotkey_str: &str) -> (r: Result<ParsedHotkey, String>)
        requires
            !(hotkey_outcome(hotkey_str@) is Panics),
        ensures
            match r {
                Ok(h) => hotkey_is(h, hotkey_outcome(hotkey_str@)),
                Err(e) => hotkey_outcome(hotkey_str@) == HotkeyOutcome::Failed(e@),
            },
    {
        match run_parse(hotkey_str) {
            ParseRun::Parsed(h) => Ok(h),
            ParseRun::Failed(m) => Err(string_of(m.as_slice())),
            ParseRun::Panics => {
                assert(false);
                Err(String::new())
            },
        }
    }

    /// Whether parsing this string would stop on a part it cannot read.
    pub fn parse_would_panic(hotkey_str: &str) -> (b: bool)
        ensures
            b == (hotkey_outcome(hotkey_str@) is Panics),
    {
        match run_parse(hotkey_str) {
            ParseRun::Panics => true,
            _ => false,
        }
    }

    /// Whether every key of the hotkey is among the pressed keys.
    pub fn matches(&self, pressed_keys: &[Key]) -> (b: bool)
        ensures
            b == all_pressed(self.key_combination@, pressed_keys@),
    {
        let mut i: usize = 0;
        while i < self.key_combination.len()
            invariant
                i <= self.key_combination@.len(),
                forall|j: int|
                    0 <= j < i ==> pressed_keys@.contains(#[trigger] self.key_combination@[j]),
            decreases self.key_combination@.len() - i,
        {
            if !key_in(pressed_keys, self.key_combination[i]) {
                return false;
            }
            i = i + 1;
        }
        true
    }

    /// The display name, such as `"Ctrl + Shift + F4"`.
    pub fn get_display_name(&self) -> (r: String)
        ensures
            r@ == display_name(self.modifiers@, self.main_key),
    {
        let mut pieces: Vec<Vec<char>> = Vec::new();
        let ghost p0 = views(pieces@);
        assert(p0 =~= Seq::<Seq<char>>::empty());
        let mods = self.modifiers.as_slice();
        if key_in(mods, Key::ControlLeft) {
            push_piece(&mut pieces, "Ctrl");
        }
        if key_in(mods, Key::ShiftLeft) || key_in(mods, Key::ShiftRight) {
            push_piece(&mut pieces, "Shift");
        }
        if key_in(mods, Key::Alt) {
            push_piece(&mut pieces, "Alt");
        }
        if key_in(mods, Key::MetaLeft) {
            push_piece(&mut pieces, "Meta");
        }
        if let Some(k) = self.main_key {
            push_piece(&mut pieces, key_name_exec(k));
        }
        assert(views(pieces@) =~= display_parts(self.modifiers@, self.main_key));
        let mut sep: Vec<char> = Vec::new();
        push_str(&mut sep, " + ");
        let joined = join_exec(&pieces, sep.as_slice());
        string_of(joined.as_slice())
    }
}

} // verus!

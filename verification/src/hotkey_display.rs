use vstd::prelude::*;
use crate::hotkey::{
    add_modifier, ascii_lower, ascii_lower_word, digit_key, display_name, display_parts,
    function_key, hotkey_outcome, key_name, keyword, letter_key, parse_parts, part_meaning,
    HotkeyOutcome, Key, PartMeaning,
};
use crate::hotkey_laws::{
    ascii_fold, distinct_keys, lemma_fold_part, lemma_parts_same, lemma_split_after_first, lemma_trim_has,
};
use crate::text::{
    digits_value, is_digit, is_ws, join, lemma_split_nonempty, split, trim, trim_end, trim_start,
};

verus! {

/// A non-empty piece with no `'+'` and no whitespace in it.
pub open spec fn plain_piece(p: Seq<char>) -> bool {
    &&& p.len() > 0
    &&& forall|i: int| 0 <= i < p.len() ==> #[trigger] p[i] != '+' && !is_ws(p[i])
}

/// A main key named by a word (Space, Enter, the arrows and the like).
pub open spec fn named_keyword_key(k: Key) -> bool {
    k is Space
        || k is Return
        || k is Escape
        || k is Tab
        || k is Backspace
        || k is Delete
        || k is UpArrow
        || k is DownArrow
        || k is LeftArrow
        || k is RightArrow
        || k is Home
        || k is End
        || k is PageUp
        || k is PageDown
}

/// A letter or number-row key.
pub open spec fn named_letter_key(k: Key) -> bool {
    k is KeyA
        || k is KeyB
        || k is KeyC
        || k is KeyD
        || k is KeyE
        || k is KeyF
        || k is KeyG
        || k is KeyH
        || k is KeyI
        || k is KeyJ
        || k is KeyK
        || k is KeyL
        || k is KeyM
        || k is KeyN
        || k is KeyO
        || k is KeyP
        || k is KeyQ
        || k is KeyR
        || k is KeyS
        || k is KeyT
        || k is KeyU
        || k is KeyV
        || k is KeyW
        || k is KeyX
        || k is KeyY
        || k is KeyZ
        || k is Num0
        || k is Num1
        || k is Num2
        || k is Num3
        || k is Num4
        || k is Num5
        || k is Num6
        || k is Num7
        || k is Num8
        || k is Num9
}

/// A function key F1 to F12.
pub open spec fn named_function_key(k: Key) -> bool {
    k is F1
        || k is F2
        || k is F3
        || k is F4
        || k is F5
        || k is F6
        || k is F7
        || k is F8
        || k is F9
        || k is F10
        || k is F11
        || k is F12
}

/// A main key with a display name of its own.
pub open spec fn named_main_key(k: Key) -> bool {
    named_keyword_key(k) || named_letter_key(k) || named_function_key(k)
}

proof fn lemma_word(s: Seq<char>, c: Seq<char>, lower: Seq<char>)
    requires
        s =~= c,
        c.len() == lower.len(),
        c.len() > 0,
        forall|i: int|
            0 <= i < c.len() ==> ascii_lower(#[trigger] c[i]) == Some(lower[i]) && c[i] != '+'
                && !is_ws(c[i]),
    ensures
        plain_piece(s),
        ascii_lower_word(s) == Some(lower),
{
    assert forall|i: int| 0 <= i < s.len() implies (#[trigger] ascii_lower(s[i])) is Some by {
        assert(s[i] == c[i]);
    }
    assert(ascii_lower_word(s)->0 =~= lower);
    assert forall|i: int| 0 <= i < s.len() implies #[trigger] s[i] != '+' && !is_ws(s[i]) by {
        assert(s[i] == c[i]);
    }
}

proof fn lemma_keyword_long(w: Seq<char>)
    ensures
        keyword(w) is Some ==> w.len() >= 2,
{
}

proof fn lemma_keyword_piece(s: Seq<char>, c: Seq<char>, lower: Seq<char>, k: Key)
    requires
        s =~= c,
        c.len() == lower.len(),
        c.len() > 0,
        forall|i: int|
            0 <= i < c.len() ==> ascii_lower(#[trigger] c[i]) == Some(lower[i]) && c[i] != '+'
                && !is_ws(c[i]),
        keyword(lower) == Some(PartMeaning::Main(k)),
    ensures
        plain_piece(s),
        part_meaning(s) == PartMeaning::Main(k),
{
    lemma_word(s, c, lower);
}

proof fn lemma_letter_piece(s: Seq<char>, up: char, low: char)
    requires
        s =~= seq![up],
        ascii_lower(up) == Some(low),
        'a' <= low <= 'z',
    ensures
        plain_piece(s),
        part_meaning(s) == PartMeaning::Main(letter_key(low)),
{
    lemma_word(s, seq![up], seq![low]);
    lemma_keyword_long(seq![low]);
}

proof fn lemma_digit_piece(s: Seq<char>, d: char)
    requires
        s =~= seq![d],
        is_digit(d),
    ensures
        plain_piece(s),
        part_meaning(s) == PartMeaning::Main(digit_key(d)),
{
    lemma_word(s, seq![d], seq![d]);
    lemma_keyword_long(seq![d]);
}

proof fn lemma_function_piece(s: Seq<char>, c: Seq<char>, lower: Seq<char>, digits: Seq<char>, n: nat)
    requires
        s =~= c,
        2 <= c.len() <= 3,
        c.len() == lower.len(),
        c[0] == 'F',
        lower[0] == 'f',
        forall|i: int|
            0 <= i < c.len() ==> ascii_lower(#[trigger] c[i]) == Some(lower[i]) && c[i] != '+'
                && !is_ws(c[i]),
        c.drop_first() =~= digits,
        forall|i: int| 0 <= i < digits.len() ==> is_digit(#[trigger] digits[i]),
        digits_value(digits) == n,
        1 <= n <= 12,
    ensures
        plain_piece(s),
        part_meaning(s) == PartMeaning::Main(function_key(n)),
{
    lemma_word(s, c, lower);
    assert(keyword(lower) is None);
    assert(digits[0] != '+');
}

proof fn lemma_one_digit_key(s: Seq<char>, d: char, n: nat)
    requires
        s =~= seq!['F', d],
        is_digit(d),
        n == (d as nat) - 48,
        1 <= n,
    ensures
        plain_piece(s),
        part_meaning(s) == PartMeaning::Main(function_key(n)),
{
    let digits = seq![d];
    assert(digits.drop_last() =~= Seq::<char>::empty());
    assert(digits.last() == d);
    assert(digits_value(digits.drop_last()) == 0);
    assert(digits_value(digits) == n);
    lemma_function_piece(s, seq!['F', d], seq!['f', d], digits, n);
}

proof fn lemma_two_digit_key(s: Seq<char>, d: char, n: nat)
    requires
        s =~= seq!['F', '1', d],
        '0' <= d <= '2',
        n == (d as nat) - 38,
    ensures
        plain_piece(s),
        part_meaning(s) == PartMeaning::Main(function_key(n)),
{
    let digits = seq!['1', d];
    let one = seq!['1'];
    assert(digits.drop_last() =~= one);
    assert(digits.last() == d);
    assert(one.drop_last() =~= Seq::<char>::empty());
    assert(one.last() == '1');
    assert(digits_value(one.drop_last()) == 0);
    assert(digits_value(one) == 1);
    assert(digits_value(digits) == n);
    lemma_function_piece(s, seq!['F', '1', d], seq!['f', '1', d], digits, n);
}

proof fn lemma_space_piece()
    ensures
        plain_piece(key_name(Key::Space)),
        part_meaning(key_name(Key::Space)) == PartMeaning::Main(Key::Space),
{
    reveal_strlit("Space");
    lemma_keyword_piece(key_name(Key::Space), seq!['S', 'p', 'a', 'c', 'e'], seq!['s', 'p', 'a', 'c', 'e'], Key::Space);
}

proof fn lemma_return_piece()
    ensures
        plain_piece(key_name(Key::Return)),
        part_meaning(key_name(Key::Return)) == PartMeaning::Main(Key::Return),
{
    reveal_strlit("Enter");
    lemma_keyword_piece(key_name(Key::Return), seq!['E', 'n', 't', 'e', 'r'], seq!['e', 'n', 't', 'e', 'r'], Key::Return);
}

proof fn lemma_escape_piece()
    ensures
        plain_piece(key_name(Key::Escape)),
        part_meaning(key_name(Key::Escape)) == PartMeaning::Main(Key::Escape),
{
    reveal_strlit("Esc");
    lemma_keyword_piece(key_name(Key::Escape), seq!['E', 's', 'c'], seq!['e', 's', 'c'], Key::Escape);
}

proof fn lemma_tab_piece()
    ensures
        plain_piece(key_name(Key::Tab)),
        part_meaning(key_name(Key::Tab)) == PartMeaning::Main(Key::Tab),
{
    reveal_strlit("Tab");
    lemma_keyword_piece(key_name(Key::Tab), seq!['T', 'a', 'b'], seq!['t', 'a', 'b'], Key::Tab);
}

proof fn lemma_backspace_piece()
    ensures
        plain_piece(key_name(Key::Backspace)),
        part_meaning(key_name(Key::Backspace)) == PartMeaning::Main(Key::Backspace),
{
    reveal_strlit("Backspace");
    lemma_keyword_piece(key_name(Key::Backspace), seq!['B', 'a', 'c', 'k', 's', 'p', 'a', 'c', 'e'], seq!['b', 'a', 'c', 'k', 's', 'p', 'a', 'c', 'e'], Key::Backspace);
}

proof fn lemma_delete_piece()
    ensures
        plain_piece(key_name(Key::Delete)),
        part_meaning(key_name(Key::Delete)) == PartMeaning::Main(Key::Delete),
{
    reveal_strlit("Delete");
    lemma_keyword_piece(key_name(Key::Delete), seq!['D', 'e', 'l', 'e', 't', 'e'], seq!['d', 'e', 'l', 'e', 't', 'e'], Key::Delete);
}

proof fn lemma_up_arrow_piece()
    ensures
        plain_piece(key_name(Key::UpArrow)),
        part_meaning(key_name(Key::UpArrow)) == PartMeaning::Main(Key::UpArrow),
{
    reveal_strlit("Up");
    lemma_keyword_piece(key_name(Key::UpArrow), seq!['U', 'p'], seq!['u', 'p'], Key::UpArrow);
}

proof fn lemma_down_arrow_piece()
    ensures
        plain_piece(key_name(Key::DownArrow)),
        part_meaning(key_name(Key::DownArrow)) == PartMeaning::Main(Key::DownArrow),
{
    reveal_strlit("Down");
    lemma_keyword_piece(key_name(Key::DownArrow), seq!['D', 'o', 'w', 'n'], seq!['d', 'o', 'w', 'n'], Key::DownArrow);
}

proof fn lemma_left_arrow_piece()
    ensures
        plain_piece(key_name(Key::LeftArrow)),
        part_meaning(key_name(Key::LeftArrow)) == PartMeaning::Main(Key::LeftArrow),
{
    reveal_strlit("Left");
    lemma_keyword_piece(key_name(Key::LeftArrow), seq!['L', 'e', 'f', 't'], seq!['l', 'e', 'f', 't'], Key::LeftArrow);
}

proof fn lemma_right_arrow_piece()
    ensures
        plain_piece(key_name(Key::RightArrow)),
        part_meaning(key_name(Key::RightArrow)) == PartMeaning::Main(Key::RightArrow),
{
    reveal_strlit("Right");
    lemma_keyword_piece(key_name(Key::RightArrow), seq!['R', 'i', 'g', 'h', 't'], seq!['r', 'i', 'g', 'h', 't'], Key::RightArrow);
}

proof fn lemma_home_piece()
    ensures
        plain_piece(key_name(Key::Home)),
        part_meaning(key_name(Key::Home)) == PartMeaning::Main(Key::Home),
{
    reveal_strlit("Home");
    lemma_keyword_piece(key_name(Key::Home), seq!['H', 'o', 'm', 'e'], seq!['h', 'o', 'm', 'e'], Key::Home);
}

proof fn lemma_end_piece()
    ensures
        plain_piece(key_name(Key::End)),
        part_meaning(key_name(Key::End)) == PartMeaning::Main(Key::End),
{
    reveal_strlit("End");
    lemma_keyword_piece(key_name(Key::End), seq!['E', 'n', 'd'], seq!['e', 'n', 'd'], Key::End);
}

proof fn lemma_page_up_piece()
    ensures
        plain_piece(key_name(Key::PageUp)),
        part_meaning(key_name(Key::PageUp)) == PartMeaning::Main(Key::PageUp),
{
    reveal_strlit("PageUp");
    lemma_keyword_piece(key_name(Key::PageUp), seq!['P', 'a', 'g', 'e', 'U', 'p'], seq!['p', 'a', 'g', 'e', 'u', 'p'], Key::PageUp);
}

proof fn lemma_page_down_piece()
    ensures
        plain_piece(key_name(Key::PageDown)),
        part_meaning(key_name(Key::PageDown)) == PartMeaning::Main(Key::PageDown),
{
    reveal_strlit("PageDown");
    lemma_keyword_piece(key_name(Key::PageDown), seq!['P', 'a', 'g', 'e', 'D', 'o', 'w', 'n'], seq!['p', 'a', 'g', 'e', 'd', 'o', 'w', 'n'], Key::PageDown);
}

proof fn lemma_named_keyword_key(k: Key)
    requires
        named_keyword_key(k),
    ensures
        plain_piece(key_name(k)),
        part_meaning(key_name(k)) == PartMeaning::Main(k),
{
    match k {
        Key::Space => lemma_space_piece(),
        Key::Return => lemma_return_piece(),
        Key::Escape => lemma_escape_piece(),
        Key::Tab => lemma_tab_piece(),
        Key::Backspace => lemma_backspace_piece(),
        Key::Delete => lemma_delete_piece(),
        Key::UpArrow => lemma_up_arrow_piece(),
        Key::DownArrow => lemma_down_arrow_piece(),
        Key::LeftArrow => lemma_left_arrow_piece(),
        Key::RightArrow => lemma_right_arrow_piece(),
        Key::Home => lemma_home_piece(),
        Key::End => lemma_end_piece(),
        Key::PageUp => lemma_page_up_piece(),
        Key::PageDown => lemma_page_down_piece(),
        _ => {},
    }
}

proof fn lemma_named_letter_key(k: Key)
    requires
        named_letter_key(k),
    ensures
        plain_piece(key_name(k)),
        part_meaning(key_name(k)) == PartMeaning::Main(k),
{
    match k {
        Key::KeyA => {
            reveal_strlit("A");
            lemma_letter_piece(key_name(k), 'A', 'a');
        },
        Key::KeyB => {
            reveal_strlit("B");
            lemma_letter_piece(key_name(k), 'B', 'b');
        },
        Key::KeyC => {
            reveal_strlit("C");
            lemma_letter_piece(key_name(k), 'C', 'c');
        },
        Key::KeyD => {
            reveal_strlit("D");
            lemma_letter_piece(key_name(k), 'D', 'd');
        },
        Key::KeyE => {
            reveal_strlit("E");
            lemma_letter_piece(key_name(k), 'E', 'e');
        },
        Key::KeyF => {
            reveal_strlit("F");
            lemma_letter_piece(key_name(k), 'F', 'f');
        },
        Key::KeyG => {
            reveal_strlit("G");
            lemma_letter_piece(key_name(k), 'G', 'g');
        },
        Key::KeyH => {
            reveal_strlit("H");
            lemma_letter_piece(key_name(k), 'H', 'h');
        },
        Key::KeyI => {
            reveal_strlit("I");
            lemma_letter_piece(key_name(k), 'I', 'i');
        },
        Key::KeyJ => {
            reveal_strlit("J");
            lemma_letter_piece(key_name(k), 'J', 'j');
        },
        Key::KeyK => {
            reveal_strlit("K");
            lemma_letter_piece(key_name(k), 'K', 'k');
        },
        Key::KeyL => {
            reveal_strlit("L");
            lemma_letter_piece(key_name(k), 'L', 'l');
        },
        Key::KeyM => {
            reveal_strlit("M");
            lemma_letter_piece(key_name(k), 'M', 'm');
        },
        Key::KeyN => {
            reveal_strlit("N");
            lemma_letter_piece(key_name(k), 'N', 'n');
        },
        Key::KeyO => {
            reveal_strlit("O");
            lemma_letter_piece(key_name(k), 'O', 'o');
        },
        Key::KeyP => {
            reveal_strlit("P");
            lemma_letter_piece(key_name(k), 'P', 'p');
        },
        Key::KeyQ => {
            reveal_strlit("Q");
            lemma_letter_piece(key_name(k), 'Q', 'q');
        },
        Key::KeyR => {
            reveal_strlit("R");
            lemma_letter_piece(key_name(k), 'R', 'r');
        },
        Key::KeyS => {
            reveal_strlit("S");
            lemma_letter_piece(key_name(k), 'S', 's');
        },
        Key::KeyT => {
            reveal_strlit("T");
            lemma_letter_piece(key_name(k), 'T', 't');
        },
        Key::KeyU => {
            reveal_strlit("U");
            lemma_letter_piece(key_name(k), 'U', 'u');
        },
        Key::KeyV => {
            reveal_strlit("V");
            lemma_letter_piece(key_name(k), 'V', 'v');
        },
        Key::KeyW => {
            reveal_strlit("W");
            lemma_letter_piece(key_name(k), 'W', 'w');
        },
        Key::KeyX => {
            reveal_strlit("X");
            lemma_letter_piece(key_name(k), 'X', 'x');
        },
        Key::KeyY => {
            reveal_strlit("Y");
            lemma_letter_piece(key_name(k), 'Y', 'y');
        },
        Key::KeyZ => {
            reveal_strlit("Z");
            lemma_letter_piece(key_name(k), 'Z', 'z');
        },
        Key::Num0 => {
            reveal_strlit("0");
            lemma_digit_piece(key_name(k), '0');
        },
        Key::Num1 => {
            reveal_strlit("1");
            lemma_digit_piece(key_name(k), '1');
        },
        Key::Num2 => {
            reveal_strlit("2");
            lemma_digit_piece(key_name(k), '2');
        },
        Key::Num3 => {
            reveal_strlit("3");
            lemma_digit_piece(key_name(k), '3');
        },
        Key::Num4 => {
            reveal_strlit("4");
            lemma_digit_piece(key_name(k), '4');
        },
        Key::Num5 => {
            reveal_strlit("5");
            lemma_digit_piece(key_name(k), '5');
        },
        Key::Num6 => {
            reveal_strlit("6");
            lemma_digit_piece(key_name(k), '6');
        },
        Key::Num7 => {
            reveal_strlit("7");
            lemma_digit_piece(key_name(k), '7');
        },
        Key::Num8 => {
            reveal_strlit("8");
            lemma_digit_piece(key_name(k), '8');
        },
        Key::Num9 => {
            reveal_strlit("9");
            lemma_digit_piece(key_name(k), '9');
        },
        _ => {},
    }
}

proof fn lemma_named_function_key(k: Key)
    requires
        named_function_key(k),
    ensures
        plain_piece(key_name(k)),
        part_meaning(key_name(k)) == PartMeaning::Main(k),
{
    match k {
        Key::F1 => {
            reveal_strlit("F1");
            lemma_one_digit_key(key_name(k), '1', 1);
        },
        Key::F2 => {
            reveal_strlit("F2");
            lemma_one_digit_key(key_name(k), '2', 2);
        },
        Key::F3 => {
            reveal_strlit("F3");
            lemma_one_digit_key(key_name(k), '3', 3);
        },
        Key::F4 => {
            reveal_strlit("F4");
            lemma_one_digit_key(key_name(k), '4', 4);
        },
        Key::F5 => {
            reveal_strlit("F5");
            lemma_one_digit_key(key_name(k), '5', 5);
        },
        Key::F6 => {
            reveal_strlit("F6");
            lemma_one_digit_key(key_name(k), '6', 6);
        },
        Key::F7 => {
            reveal_strlit("F7");
            lemma_one_digit_key(key_name(k), '7', 7);
        },
        Key::F8 => {
            reveal_strlit("F8");
            lemma_one_digit_key(key_name(k), '8', 8);
        },
        Key::F9 => {
            reveal_strlit("F9");
            lemma_one_digit_key(key_name(k), '9', 9);
        },
        Key::F10 => {
            reveal_strlit("F10");
            lemma_two_digit_key(key_name(k), '0', 10);
        },
        Key::F11 => {
            reveal_strlit("F11");
            lemma_two_digit_key(key_name(k), '1', 11);
        },
        Key::F12 => {
            reveal_strlit("F12");
            lemma_two_digit_key(key_name(k), '2', 12);
        },
        _ => {},
    }
}

proof fn lemma_trim_plain_start(q: Seq<char>)
    requires
        q.len() > 0,
        !is_ws(q[0]),
    ensures
        trim_start(q) == q,
{
}

proof fn lemma_trim_plain_end(q: Seq<char>)
    requires
        q.len() > 0,
        !is_ws(q.last()),
    ensures
        trim_end(q) == q,
{
}

proof fn lemma_trim_space_before(q: Seq<char>)
    ensures
        trim_start(seq![' '] + q) == trim_start(q),
{
    let s = seq![' '] + q;
    assert(s[0] == ' ');
    assert(s.drop_first() =~= q);
}

proof fn lemma_trim_space_after(q: Seq<char>)
    ensures
        trim_end(q + seq![' ']) == trim_end(q),
{
    let s = q + seq![' '];
    assert(s.last() == ' ');
    assert(s.drop_last() =~= q);
}

/// A plain piece with one space after it, or one space on each side, trims to itself.
proof fn lemma_trim_padded(p: Seq<char>)
    requires
        plain_piece(p),
    ensures
        trim(p) == p,
        trim(p + seq![' ']) == p,
        trim(seq![' '] + p) == p,
        trim(seq![' '] + p + seq![' ']) == p,
{
    assert(!is_ws(p[0]) && !is_ws(p[p.len() - 1]));
    let pa = p + seq![' '];
    assert(pa[0] == p[0]);
    lemma_trim_plain_start(p);
    lemma_trim_plain_end(p);
    lemma_trim_plain_start(pa);
    lemma_trim_space_after(p);
    lemma_trim_space_before(p);
    lemma_trim_space_before(pa);
    assert(seq![' '] + p + seq![' '] =~= seq![' '] + pa);
}

/// Splitting after a separator adds an empty piece.
proof fn lemma_split_push_sep(x: Seq<char>, sep: char)
    ensures
        split(x.push(sep), sep) == split(x, sep).push(Seq::<char>::empty()),
{
    assert(x.push(sep).drop_last() =~= x);
}

/// Text without the separator extends the last piece.
proof fn lemma_split_append(x: Seq<char>, y: Seq<char>, sep: char)
    requires
        forall|i: int| 0 <= i < y.len() ==> #[trigger] y[i] != sep,
    ensures
        split(x + y, sep) == split(x, sep).update(
            split(x, sep).len() - 1,
            split(x, sep).last() + y,
        ),
    decreases y.len(),
{
    lemma_split_nonempty(x, sep);
    if y.len() == 0 {
        assert(x + y =~= x);
        assert(split(x, sep).last() + y =~= split(x, sep).last());
        assert(split(x, sep).update(split(x, sep).len() - 1, split(x, sep).last()) =~= split(x, sep));
    } else {
        let yd = y.drop_last();
        lemma_split_append(x, yd, sep);
        assert((x + y).drop_last() =~= x + yd);
        assert((x + y).last() == y.last());
        let r = split(x, sep);
        assert((r.last() + yd).push(y.last()) =~= r.last() + y);
        assert(r.update(r.len() - 1, r.last() + yd).update(r.len() - 1, r.last() + y) =~= r.update(
            r.len() - 1,
            r.last() + y,
        ));
    }
}

/// Cutting plain pieces joined with `" + "` at every `'+'` gives back, after trimming,
/// the pieces themselves.
proof fn lemma_split_joined(ps: Seq<Seq<char>>)
    requires
        ps.len() >= 1,
        forall|j: int| 0 <= j < ps.len() ==> plain_piece(#[trigger] ps[j]),
    ensures
        split(join(ps, " + "@), '+').len() == ps.len(),
        forall|j: int|
            0 <= j < ps.len() ==> trim(#[trigger] split(join(ps, " + "@), '+')[j]) == ps[j],
        split(join(ps, " + "@), '+').last() == (if ps.len() == 1 {
            ps[0]
        } else {
            seq![' '] + ps.last()
        }),
    decreases ps.len(),
{
    reveal_strlit(" + ");
    let r = split(join(ps, " + "@), '+');
    if ps.len() == 1 {
        assert(plain_piece(ps[0]));
        lemma_split_append(Seq::<char>::empty(), ps[0], '+');
        assert(Seq::<char>::empty() + ps[0] =~= ps[0]);
        lemma_trim_padded(ps[0]);
    } else {
        let pd = ps.drop_last();
        assert forall|j: int| 0 <= j < pd.len() implies plain_piece(#[trigger] pd[j]) by {
            assert(pd[j] == ps[j]);
        }
        lemma_split_joined(pd);
        let jd = join(pd, " + "@);
        let rd = split(jd, '+');
        let last = ps.last();
        assert(plain_piece(ps[ps.len() - 1]));
        let tail = seq![' '] + last;
        assert forall|i: int| 0 <= i < tail.len() implies #[trigger] tail[i] != '+' by {
            if i > 0 {
                assert(tail[i] == last[i - 1]);
            }
        }
        assert(seq![' '].len() == 1 && seq![' '][0] != '+');
        lemma_split_append(jd, seq![' '], '+');
        let a = jd + seq![' '];
        lemma_split_push_sep(a, '+');
        lemma_split_append(a.push('+'), tail, '+');
        assert(join(ps, " + "@) =~= a.push('+') + tail);
        let ra = rd.update(rd.len() - 1, rd.last() + seq![' ']);
        assert(split(a.push('+'), '+') == ra.push(Seq::<char>::empty()));
        assert(Seq::<char>::empty() + tail =~= tail);
        assert(r =~= ra.push(tail));
        lemma_trim_padded(last);
        assert(plain_piece(pd[pd.len() - 1]));
        lemma_trim_padded(pd[pd.len() - 1]);
        if pd.len() == 1 {
            assert(rd.last() == pd[0]);
        } else {
            assert(rd.last() == seq![' '] + pd.last());
        }
        assert(trim(ra[rd.len() - 1]) == pd[pd.len() - 1]);
        assert forall|j: int| 0 <= j < ps.len() implies trim(#[trigger] r[j]) == ps[j] by {
            if j < pd.len() - 1 {
                assert(r[j] == rd[j]);
                assert(pd[j] == ps[j]);
            } else if j == pd.len() - 1 {
                assert(r[j] == ra[j]);
            } else {
                assert(r[j] == tail);
            }
        }
    }
}

proof fn lemma_modifier_piece(s: Seq<char>, c: Seq<char>, lower: Seq<char>, k: Key)
    requires
        s =~= c,
        c.len() == lower.len(),
        c.len() > 0,
        forall|i: int|
            0 <= i < c.len() ==> ascii_lower(#[trigger] c[i]) == Some(lower[i]) && c[i] != '+'
                && !is_ws(c[i]),
        keyword(lower) == Some(PartMeaning::Modifier(k)),
    ensures
        plain_piece(s),
        part_meaning(s) == PartMeaning::Modifier(k),
{
    lemma_word(s, c, lower);
}

/// The modifier keys that a parse produces.
pub open spec fn parse_modifier(k: Key) -> bool {
    k == Key::ControlLeft || k == Key::ShiftLeft || k == Key::Alt || k == Key::MetaLeft
}

/// The name a display name gives a modifier.
pub open spec fn modifier_name(k: Key) -> Seq<char> {
    if k == Key::ControlLeft {
        "Ctrl"@
    } else if k == Key::ShiftLeft {
        "Shift"@
    } else if k == Key::Alt {
        "Alt"@
    } else {
        "Meta"@
    }
}

proof fn lemma_modifier_name(k: Key)
    requires
        parse_modifier(k),
    ensures
        plain_piece(modifier_name(k)),
        part_meaning(modifier_name(k)) == PartMeaning::Modifier(k),
{
    if k == Key::ControlLeft {
        reveal_strlit("Ctrl");
        lemma_modifier_piece("Ctrl"@, seq!['C', 't', 'r', 'l'], seq!['c', 't', 'r', 'l'], k);
    } else if k == Key::ShiftLeft {
        reveal_strlit("Shift");
        lemma_modifier_piece("Shift"@, seq!['S', 'h', 'i', 'f', 't'], seq!['s', 'h', 'i', 'f', 't'], k);
    } else if k == Key::Alt {
        reveal_strlit("Alt");
        lemma_modifier_piece("Alt"@, seq!['A', 'l', 't'], seq!['a', 'l', 't'], k);
    } else {
        reveal_strlit("Meta");
        lemma_modifier_piece("Meta"@, seq!['M', 'e', 't', 'a'], seq!['m', 'e', 't', 'a'], k);
    }
}

/// The modifiers a display name shows, in the order it shows them: Ctrl, Shift, Alt, Meta.
pub open spec fn shown_modifiers(mods: Seq<Key>) -> Seq<Key> {
    let q1: Seq<Key> = if mods.contains(Key::ControlLeft) {
        seq![Key::ControlLeft]
    } else {
        seq![]
    };
    let q2 = if mods.contains(Key::ShiftLeft) || mods.contains(Key::ShiftRight) {
        q1.push(Key::ShiftLeft)
    } else {
        q1
    };
    let q3 = if mods.contains(Key::Alt) {
        q2.push(Key::Alt)
    } else {
        q2
    };
    if mods.contains(Key::MetaLeft) {
        q3.push(Key::MetaLeft)
    } else {
        q3
    }
}

proof fn lemma_display_parts_shape(mods: Seq<Key>, k: Key)
    ensures
        display_parts(mods, Some(k)) =~= shown_modifiers(mods).map_values(
            |x: Key| modifier_name(x),
        ).push(key_name(k)),
        forall|j: int|
            0 <= j < shown_modifiers(mods).len() ==> parse_modifier(
                #[trigger] shown_modifiers(mods)[j],
            ),
        distinct_keys(shown_modifiers(mods)),
{
}

/// Reading parts that name the modifiers `ks` (each once) and then the main key `k`.
proof fn lemma_parse_modifiers_then_main(
    parts: Seq<Seq<char>>,
    ks: Seq<Key>,
    k: Key,
    i: int,
)
    requires
        0 <= i <= ks.len(),
        parts.len() == ks.len() + 1,
        distinct_keys(ks),
        forall|j: int|
            0 <= j < ks.len() ==> part_meaning(trim(#[trigger] parts[j])) == PartMeaning::Modifier(
                ks[j],
            ),
        part_meaning(trim(parts[ks.len() as int])) == PartMeaning::Main(k),
    ensures
        parse_parts(parts, i, ks.take(i), None, ks.take(i)) == HotkeyOutcome::Parsed(
            ks,
            k,
            ks.push(k),
        ),
    decreases ks.len() - i,
{
    if i < ks.len() {
        assert(part_meaning(trim(parts[i])) == PartMeaning::Modifier(ks[i]));
        assert(!ks.take(i).contains(ks[i])) by {
            if ks.take(i).contains(ks[i]) {
                let j = choose|j: int| 0 <= j < i && ks.take(i)[j] == ks[i];
                assert(ks[j] == ks[i]);
            }
        }
        assert(add_modifier(ks.take(i), ks[i]) =~= ks.take(i + 1));
        assert(ks.take(i).push(ks[i]) =~= ks.take(i + 1));
        lemma_parse_modifiers_then_main(parts, ks, k, i + 1);
    } else {
        assert(ks.take(i) =~= ks);
        let n = ks.len() as int;
        assert(parse_parts(parts, n + 1, ks, Some(k), ks.push(k)) == HotkeyOutcome::Parsed(
            ks,
            k,
            ks.push(k),
        ));
    }
}

proof fn lemma_trim_keeps_last(s: Seq<char>)
    requires
        s.len() > 0,
        !is_ws(s.last()),
    ensures
        trim(s).len() > 0,
{
    lemma_trim_start_keeps_last(s);
    lemma_trim_plain_end(trim_start(s));
}

proof fn lemma_trim_start_keeps_last(s: Seq<char>)
    requires
        s.len() > 0,
        !is_ws(s.last()),
    ensures
        trim_start(s).len() > 0,
        trim_start(s).last() == s.last(),
    decreases s.len(),
{
    if is_ws(s[0]) {
        assert(s.len() > 1);
        assert(s.drop_first().last() == s.last());
        lemma_trim_start_keeps_last(s.drop_first());
    }
}

proof fn lemma_join_last(ps: Seq<Seq<char>>, sep: Seq<char>)
    requires
        ps.len() >= 1,
        ps.last().len() > 0,
    ensures
        join(ps, sep).len() > 0,
        join(ps, sep).last() == ps.last().last(),
{
}

/// Reading a hotkey's display name back gives the modifiers it shows, in the order
/// shown, then its main key, for every main key with a name of its own.
pub proof fn lemma_display_name_parses(mods: Seq<Key>, k: Key)
    requires
        named_main_key(k),
    ensures
        hotkey_outcome(display_name(mods, Some(k))) == HotkeyOutcome::Parsed(
            shown_modifiers(mods),
            k,
            shown_modifiers(mods).push(k),
        ),
{
    let sm = shown_modifiers(mods);
    let ds = display_parts(mods, Some(k));
    lemma_display_parts_shape(mods, k);
    if named_keyword_key(k) {
        lemma_named_keyword_key(k);
    } else if named_letter_key(k) {
        lemma_named_letter_key(k);
    } else {
        lemma_named_function_key(k);
    }
    assert forall|j: int| 0 <= j < ds.len() implies plain_piece(#[trigger] ds[j]) && (j
        < sm.len() ==> part_meaning(ds[j]) == PartMeaning::Modifier(sm[j])) by {
        if j < sm.len() {
            assert(ds[j] == modifier_name(sm[j]));
            lemma_modifier_name(sm[j]);
        } else {
            assert(ds[j] == key_name(k));
        }
    }
    lemma_split_joined(ds);
    let s = display_name(mods, Some(k));
    let parts = split(s, '+');
    assert(plain_piece(ds[ds.len() - 1]));
    lemma_join_last(ds, " + "@);
    lemma_trim_keeps_last(s);
    assert forall|j: int|
        0 <= j < sm.len() implies part_meaning(trim(#[trigger] parts[j]))
        == PartMeaning::Modifier(sm[j]) by {
        assert(trim(parts[j]) == ds[j]);
    }
    assert(trim(parts[sm.len() as int]) == ds[sm.len() as int]);
    lemma_parse_modifiers_then_main(parts, sm, k, 0);
    assert(sm.take(0) =~= Seq::<Key>::empty());
}

/// The modifiers a display name shows are those of the hotkey, when the hotkey's
/// modifiers are among the ones a parse produces.
pub proof fn lemma_shown_modifiers_same(mods: Seq<Key>)
    requires
        forall|x: Key| mods.contains(x) ==> parse_modifier(x),
    ensures
        shown_modifiers(mods).to_set() == mods.to_set(),
{
    let sm = shown_modifiers(mods);
    assert(!mods.contains(Key::ShiftRight)) by {
        if mods.contains(Key::ShiftRight) {
            assert(parse_modifier(Key::ShiftRight));
        }
    }
    broadcast use vstd::seq_lib::lemma_seq_contains_after_push;
    assert(seq![Key::ControlLeft].contains(Key::ControlLeft)) by {
        assert(seq![Key::ControlLeft][0] == Key::ControlLeft);
    }
    assert forall|x: Key| sm.contains(x) <==> mods.contains(x) by {
        if mods.contains(x) {
            assert(parse_modifier(x));
        }
        if seq![Key::ControlLeft].contains(x) {
            assert(x == Key::ControlLeft);
        }
    }
    assert(sm.to_set() =~= mods.to_set());
}

/// Reading the display name of a hotkey with these modifiers and this main key back gives
/// the same main key and the same modifiers.
pub open spec fn parses_back(m: Seq<Key>, k: Key) -> bool {
    hotkey_outcome(display_name(m, Some(k))) matches HotkeyOutcome::Parsed(m2, k2, c2) && k2 == k
        && m2.to_set() == m.to_set()
}

proof fn lemma_part_meaning_kinds(p: Seq<char>)
    ensures
        part_meaning(p) matches PartMeaning::Modifier(k) ==> parse_modifier(k),
        part_meaning(p) matches PartMeaning::Main(k) ==> named_main_key(k) || k == Key::Unknown(0),
{
}

proof fn lemma_parts_kinds(
    parts: Seq<Seq<char>>,
    i: int,
    mods: Seq<Key>,
    main: Option<Key>,
    combo: Seq<Key>,
)
    requires
        0 <= i <= parts.len(),
        forall|x: Key| mods.contains(x) ==> parse_modifier(x),
        main matches Some(k) ==> named_main_key(k) || k == Key::Unknown(0),
    ensures
        parse_parts(parts, i, mods, main, combo) matches HotkeyOutcome::Parsed(m, k, c) ==> (
        forall|x: Key| m.contains(x) ==> parse_modifier(x)) && (named_main_key(k) || k
            == Key::Unknown(0)),
    decreases parts.len() - i,
{
    if i < parts.len() {
        lemma_part_meaning_kinds(trim(parts[i]));
        match part_meaning(trim(parts[i])) {
            PartMeaning::Modifier(k) => {
                let nm = add_modifier(mods, k);
                assert forall|x: Key| nm.contains(x) implies parse_modifier(x) by {
                    if x != k {
                        if !mods.contains(x) {
                            let j = choose|j: int| 0 <= j < nm.len() && nm[j] == x;
                            assert(nm[j] == mods[j]);
                        }
                    }
                }
                lemma_parts_kinds(parts, i + 1, nm, main, combo.push(k));
            },
            PartMeaning::Main(k) => {
                lemma_parts_kinds(parts, i + 1, mods, Some(k), combo.push(k));
            },
            _ => {},
        }
    }
}

/// Showing a parsed hotkey and reading the shown name back gives the same main key and
/// the same modifiers. The one exception is a main key among F13 to F24: it has no key
/// of its own and is shown as "Unknown".
pub proof fn lemma_display_round_trip(s: Seq<char>)
    ensures
        hotkey_outcome(s) matches HotkeyOutcome::Parsed(m, k, c) ==> k is Unknown || parses_back(
            m,
            k,
        ),
{
    if trim(s).len() > 0 {
        lemma_parts_kinds(split(s, '+'), 0, Seq::<Key>::empty(), None, Seq::<Key>::empty());
    }
    if let HotkeyOutcome::Parsed(m, k, c) = hotkey_outcome(s) {
        if !(k is Unknown) {
            lemma_display_name_parses(m, k);
            lemma_shown_modifiers_same(m);
        }
    }
}

/// The main key is the last key of the combination that is not a modifier, and the
/// modifiers are exactly the modifier keys of the combination.
pub open spec fn exact_shape(m: Seq<Key>, k: Key, c: Seq<Key>) -> bool {
    &&& exists|j: int|
        0 <= j < c.len() && c[j] == k && !parse_modifier(k) && (forall|l: int|
            j < l < c.len() ==> parse_modifier(#[trigger] c[l]))
    &&& forall|x: Key|
        #![trigger m.contains(x)]
        #![trigger c.contains(x)]
        m.contains(x) <==> (c.contains(x) && parse_modifier(x))
}

proof fn lemma_parts_exact(
    parts: Seq<Seq<char>>,
    i: int,
    mods: Seq<Key>,
    main: Option<Key>,
    combo: Seq<Key>,
)
    requires
        0 <= i <= parts.len(),
        forall|x: Key|
            #![trigger mods.contains(x)]
            #![trigger combo.contains(x)]
            mods.contains(x) <==> (combo.contains(x) && parse_modifier(x)),
        main is None ==> forall|l: int| 0 <= l < combo.len() ==> parse_modifier(#[trigger] combo[l]),
        main matches Some(k) ==> exists|j: int|
            0 <= j < combo.len() && combo[j] == k && !parse_modifier(k) && (forall|l: int|
                j < l < combo.len() ==> parse_modifier(#[trigger] combo[l])),
    ensures
        parse_parts(parts, i, mods, main, combo) matches HotkeyOutcome::Parsed(m, k, c)
            ==> exact_shape(m, k, c),
    decreases parts.len() - i,
{
    broadcast use vstd::seq_lib::lemma_seq_contains_after_push;
    if i >= parts.len() {
        if let Some(k) = main {
            assert(parse_parts(parts, i, mods, main, combo) == HotkeyOutcome::Parsed(mods, k, combo));
        }
    } else {
        lemma_part_meaning_kinds(trim(parts[i]));
        match part_meaning(trim(parts[i])) {
            PartMeaning::Modifier(k) => {
                let nm = add_modifier(mods, k);
                let nc = combo.push(k);
                assert(parse_modifier(k));
                assert forall|x: Key| nm.contains(x) <==> (nc.contains(x) && parse_modifier(x)) by {
                    if mods.contains(k) {
                        assert(nm == mods);
                        assert(mods.contains(x) <==> (combo.contains(x) && parse_modifier(x)));
                        if x == k {
                            assert(nc[combo.len() as int] == k);
                        }
                    } else {
                        assert(nm == mods.push(k));
                    }
                }
                if let Some(mk) = main {
                    let j = choose|j: int|
                        0 <= j < combo.len() && combo[j] == mk && !parse_modifier(mk) && (forall|l: int|
                            j < l < combo.len() ==> parse_modifier(#[trigger] combo[l]));
                    assert(nc[j] == mk);
                    assert forall|l: int| j < l < nc.len() implies parse_modifier(#[trigger] nc[l]) by {
                        if l < combo.len() {
                            assert(nc[l] == combo[l]);
                        }
                    }
                } else {
                    assert forall|l: int| 0 <= l < nc.len() implies parse_modifier(#[trigger] nc[l]) by {
                        if l < combo.len() {
                            assert(nc[l] == combo[l]);
                        }
                    }
                }
                lemma_parts_exact(parts, i + 1, nm, main, nc);
            },
            PartMeaning::Main(k) => {
                let nc = combo.push(k);
                assert(!parse_modifier(k));
                assert forall|x: Key| mods.contains(x) <==> (nc.contains(x) && parse_modifier(x)) by {
                    if nc.contains(x) && parse_modifier(x) {
                        assert(x != k);
                        assert(combo.contains(x));
                    }
                }
                let j = combo.len() as int;
                assert(nc[j] == k);
                lemma_parts_exact(parts, i + 1, mods, Some(k), nc);
            },
            _ => {},
        }
    }
}

/// A parsed hotkey's main key is the last key written that is not a modifier, and its
/// modifiers are exactly the modifier keys written (Ctrl, Shift, Alt, Meta), each once.
pub proof fn lemma_parsed_exact_shape(s: Seq<char>)
    ensures
        hotkey_outcome(s) matches HotkeyOutcome::Parsed(m, k, c) ==> exact_shape(m, k, c),
{
    if trim(s).len() > 0 {
        lemma_parts_exact(split(s, '+'), 0, Seq::<Key>::empty(), None, Seq::<Key>::empty());
    }
}

/// The key a lower-case modifier word names: `ctrl` and `control` name Ctrl, `alt` names
/// Alt, `shift` names Shift, and `meta`, `cmd`, `command`, `win` and `windows` name Meta.
pub open spec fn modifier_word(w: Seq<char>) -> Option<Key> {
    if w == "ctrl"@ || w == "control"@ {
        Some(Key::ControlLeft)
    } else if w == "alt"@ {
        Some(Key::Alt)
    } else if w == "shift"@ {
        Some(Key::ShiftLeft)
    } else if w == "meta"@ || w == "cmd"@ || w == "command"@ || w == "win"@ || w == "windows"@ {
        Some(Key::MetaLeft)
    } else {
        None
    }
}

proof fn lemma_modifier_word_meaning(w: Seq<char>)
    requires
        modifier_word(w) is Some,
    ensures
        part_meaning(w) == PartMeaning::Modifier(modifier_word(w)->0),
{
    if w == "ctrl"@ {
        reveal_strlit("ctrl");
        lemma_modifier_piece(w, seq!['c', 't', 'r', 'l'], seq!['c', 't', 'r', 'l'], Key::ControlLeft);
    } else if w == "control"@ {
        reveal_strlit("control");
        lemma_modifier_piece(w, seq!['c', 'o', 'n', 't', 'r', 'o', 'l'], seq!['c', 'o', 'n', 't', 'r', 'o', 'l'], Key::ControlLeft);
    } else if w == "alt"@ {
        reveal_strlit("alt");
        lemma_modifier_piece(w, seq!['a', 'l', 't'], seq!['a', 'l', 't'], Key::Alt);
    } else if w == "shift"@ {
        reveal_strlit("shift");
        lemma_modifier_piece(w, seq!['s', 'h', 'i', 'f', 't'], seq!['s', 'h', 'i', 'f', 't'], Key::ShiftLeft);
    } else if w == "meta"@ {
        reveal_strlit("meta");
        lemma_modifier_piece(w, seq!['m', 'e', 't', 'a'], seq!['m', 'e', 't', 'a'], Key::MetaLeft);
    } else if w == "cmd"@ {
        reveal_strlit("cmd");
        lemma_modifier_piece(w, seq!['c', 'm', 'd'], seq!['c', 'm', 'd'], Key::MetaLeft);
    } else if w == "command"@ {
        reveal_strlit("command");
        lemma_modifier_piece(w, seq!['c', 'o', 'm', 'm', 'a', 'n', 'd'], seq!['c', 'o', 'm', 'm', 'a', 'n', 'd'], Key::MetaLeft);
    } else if w == "win"@ {
        reveal_strlit("win");
        lemma_modifier_piece(w, seq!['w', 'i', 'n'], seq!['w', 'i', 'n'], Key::MetaLeft);
    } else if w == "windows"@ {
        reveal_strlit("windows");
        lemma_modifier_piece(w, seq!['w', 'i', 'n', 'd', 'o', 'w', 's'], seq!['w', 'i', 'n', 'd', 'o', 'w', 's'], Key::MetaLeft);
    }
}

/// Each modifier word, in any mix of ASCII upper and lower case, names its key.
pub proof fn lemma_modifier_words(p: Seq<char>)
    requires
        modifier_word(ascii_fold(p)) is Some,
    ensures
        part_meaning(p) == PartMeaning::Modifier(modifier_word(ascii_fold(p))->0),
{
    lemma_fold_part(p);
    lemma_modifier_word_meaning(ascii_fold(p));
}

/// Words that name the same modifier are interchangeable: a hotkey string that starts
/// with one of them reads the same when it starts with another (`"Cmd + X"` as
/// `"Meta + X"`, `"Win + X"` or `"Command + X"`; `"Control + X"` as `"Ctrl + X"`).
pub proof fn lemma_modifier_aliases(a: Seq<char>, b: Seq<char>, rest: Seq<char>)
    requires
        modifier_word(ascii_fold(trim(a))) is Some,
        modifier_word(ascii_fold(trim(a))) == modifier_word(ascii_fold(trim(b))),
        forall|i: int| 0 <= i < a.len() ==> #[trigger] a[i] != '+',
        forall|i: int| 0 <= i < b.len() ==> #[trigger] b[i] != '+',
    ensures
        hotkey_outcome(a.push('+') + rest) == hotkey_outcome(b.push('+') + rest),
{
    let sa = a.push('+') + rest;
    let sb = b.push('+') + rest;
    lemma_split_after_first(a, rest, '+');
    lemma_split_after_first(b, rest, '+');
    assert(sa[a.len() as int] == '+');
    assert(sb[b.len() as int] == '+');
    lemma_trim_has(sa, a.len() as int);
    lemma_trim_has(sb, b.len() as int);
    lemma_modifier_words(trim(a));
    lemma_modifier_words(trim(b));
    let p1 = split(sa, '+');
    let p2 = split(sb, '+');
    assert forall|j: int| 0 <= j < p1.len() implies part_meaning(trim(#[trigger] p1[j]))
        == part_meaning(trim(p2[j])) by {
        if j > 0 {
            assert(p1[j] == split(rest, '+')[j - 1]);
            assert(p2[j] == split(rest, '+')[j - 1]);
        }
    }
    lemma_parts_same(p1, p2, 0, Seq::<Key>::empty(), None, Seq::<Key>::empty());
}

/// The main key a lower-case key word names: `space`; `enter` and `return`; `escape` and
/// `esc`; `tab`; `backspace`; `delete`; the arrows `up`, `down`, `left`, `right`;
/// `home`; `end`; `pageup` and `page up`; `pagedown` and `page down`.
pub open spec fn main_word(w: Seq<char>) -> Option<Key> {
    if w == "space"@ {
        Some(Key::Space)
    } else if w == "enter"@ || w == "return"@ {
        Some(Key::Return)
    } else if w == "escape"@ || w == "esc"@ {
        Some(Key::Escape)
    } else if w == "tab"@ {
        Some(Key::Tab)
    } else if w == "backspace"@ {
        Some(Key::Backspace)
    } else if w == "delete"@ {
        Some(Key::Delete)
    } else if w == "up"@ {
        Some(Key::UpArrow)
    } else if w == "down"@ {
        Some(Key::DownArrow)
    } else if w == "left"@ {
        Some(Key::LeftArrow)
    } else if w == "right"@ {
        Some(Key::RightArrow)
    } else if w == "home"@ {
        Some(Key::Home)
    } else if w == "end"@ {
        Some(Key::End)
    } else if w == "pageup"@ || w == "page up"@ {
        Some(Key::PageUp)
    } else if w == "pagedown"@ || w == "page down"@ {
        Some(Key::PageDown)
    } else {
        None
    }
}

proof fn lemma_main_piece(s: Seq<char>, c: Seq<char>, k: Key)
    requires
        s =~= c,
        c.len() > 0,
        forall|i: int| 0 <= i < c.len() ==> ascii_lower(#[trigger] c[i]) == Some(c[i]),
        keyword(c) == Some(PartMeaning::Main(k)),
    ensures
        part_meaning(s) == PartMeaning::Main(k),
{
    assert forall|i: int| 0 <= i < s.len() implies (#[trigger] ascii_lower(s[i])) is Some by {
        assert(s[i] == c[i]);
    }
    assert(ascii_lower_word(s)->0 =~= c);
}

proof fn lemma_word_space()
    ensures
        part_meaning("space"@) == PartMeaning::Main(Key::Space),
{
    reveal_strlit("space");
    lemma_main_piece("space"@, seq!['s', 'p', 'a', 'c', 'e'], Key::Space);
}

proof fn lemma_word_enter()
    ensures
        part_meaning("enter"@) == PartMeaning::Main(Key::Return),
{
    reveal_strlit("enter");
    lemma_main_piece("enter"@, seq!['e', 'n', 't', 'e', 'r'], Key::Return);
}

proof fn lemma_word_return()
    ensures
        part_meaning("return"@) == PartMeaning::Main(Key::Return),
{
    reveal_strlit("return");
    lemma_main_piece("return"@, seq!['r', 'e', 't', 'u', 'r', 'n'], Key::Return);
}

proof fn lemma_word_escape()
    ensures
        part_meaning("escape"@) == PartMeaning::Main(Key::Escape),
{
    reveal_strlit("escape");
    lemma_main_piece("escape"@, seq!['e', 's', 'c', 'a', 'p', 'e'], Key::Escape);
}

proof fn lemma_word_esc()
    ensures
        part_meaning("esc"@) == PartMeaning::Main(Key::Escape),
{
    reveal_strlit("esc");
    lemma_main_piece("esc"@, seq!['e', 's', 'c'], Key::Escape);
}

proof fn lemma_word_tab()
    ensures
        part_meaning("tab"@) == PartMeaning::Main(Key::Tab),
{
    reveal_strlit("tab");
    lemma_main_piece("tab"@, seq!['t', 'a', 'b'], Key::Tab);
}

proof fn lemma_word_backspace()
    ensures
        part_meaning("backspace"@) == PartMeaning::Main(Key::Backspace),
{
    reveal_strlit("backspace");
    lemma_main_piece("backspace"@, seq!['b', 'a', 'c', 'k', 's', 'p', 'a', 'c', 'e'], Key::Backspace);
}

proof fn lemma_word_delete()
    ensures
        part_meaning("delete"@) == PartMeaning::Main(Key::Delete),
{
    reveal_strlit("delete");
    lemma_main_piece("delete"@, seq!['d', 'e', 'l', 'e', 't', 'e'], Key::Delete);
}

proof fn lemma_word_up()
    ensures
        part_meaning("up"@) == PartMeaning::Main(Key::UpArrow),
{
    reveal_strlit("up");
    lemma_main_piece("up"@, seq!['u', 'p'], Key::UpArrow);
}

proof fn lemma_word_down()
    ensures
        part_meaning("down"@) == PartMeaning::Main(Key::DownArrow),
{
    reveal_strlit("down");
    lemma_main_piece("down"@, seq!['d', 'o', 'w', 'n'], Key::DownArrow);
}

proof fn lemma_word_left()
    ensures
        part_meaning("left"@) == PartMeaning::Main(Key::LeftArrow),
{
    reveal_strlit("left");
    lemma_main_piece("left"@, seq!['l', 'e', 'f', 't'], Key::LeftArrow);
}

proof fn lemma_word_right()
    ensures
        part_meaning("right"@) == PartMeaning::Main(Key::RightArrow),
{
    reveal_strlit("right");
    lemma_main_piece("right"@, seq!['r', 'i', 'g', 'h', 't'], Key::RightArrow);
}

proof fn lemma_word_home()
    ensures
        part_meaning("home"@) == PartMeaning::Main(Key::Home),
{
    reveal_strlit("home");
    lemma_main_piece("home"@, seq!['h', 'o', 'm', 'e'], Key::Home);
}

proof fn lemma_word_end()
    ensures
        part_meaning("end"@) == PartMeaning::Main(Key::End),
{
    reveal_strlit("end");
    lemma_main_piece("end"@, seq!['e', 'n', 'd'], Key::End);
}

proof fn lemma_word_pageup()
    ensures
        part_meaning("pageup"@) == PartMeaning::Main(Key::PageUp),
{
    reveal_strlit("pageup");
    lemma_main_piece("pageup"@, seq!['p', 'a', 'g', 'e', 'u', 'p'], Key::PageUp);
}

proof fn lemma_word_page_up()
    ensures
        part_meaning("page up"@) == PartMeaning::Main(Key::PageUp),
{
    reveal_strlit("page up");
    lemma_main_piece("page up"@, seq!['p', 'a', 'g', 'e', ' ', 'u', 'p'], Key::PageUp);
}

proof fn lemma_word_pagedown()
    ensures
        part_meaning("pagedown"@) == PartMeaning::Main(Key::PageDown),
{
    reveal_strlit("pagedown");
    lemma_main_piece("pagedown"@, seq!['p', 'a', 'g', 'e', 'd', 'o', 'w', 'n'], Key::PageDown);
}

proof fn lemma_word_page_down()
    ensures
        part_meaning("page down"@) == PartMeaning::Main(Key::PageDown),
{
    reveal_strlit("page down");
    lemma_main_piece("page down"@, seq!['p', 'a', 'g', 'e', ' ', 'd', 'o', 'w', 'n'], Key::PageDown);
}

proof fn lemma_main_word_meaning(w: Seq<char>)
    requires
        main_word(w) is Some,
    ensures
        part_meaning(w) == PartMeaning::Main(main_word(w)->0),
{
    if w == "space"@ {
        lemma_word_space();
    } else if w == "enter"@ {
        lemma_word_enter();
    } else if w == "return"@ {
        lemma_word_return();
    } else if w == "escape"@ {
        lemma_word_escape();
    } else if w == "esc"@ {
        lemma_word_esc();
    } else if w == "tab"@ {
        lemma_word_tab();
    } else if w == "backspace"@ {
        lemma_word_backspace();
    } else if w == "delete"@ {
        lemma_word_delete();
    } else if w == "up"@ {
        lemma_word_up();
    } else if w == "down"@ {
        lemma_word_down();
    } else if w == "left"@ {
        lemma_word_left();
    } else if w == "right"@ {
        lemma_word_right();
    } else if w == "home"@ {
        lemma_word_home();
    } else if w == "end"@ {
        lemma_word_end();
    } else if w == "pageup"@ {
        lemma_word_pageup();
    } else if w == "page up"@ {
        lemma_word_page_up();
    } else if w == "pagedown"@ {
        lemma_word_pagedown();
    } else if w == "page down"@ {
        lemma_word_page_down();
    }
}

/// Each key word, in any mix of ASCII upper and lower case, names its main key, and the
/// aliases of one key (`enter` and `return`, `esc` and `escape`, `page up` and `pageup`,
/// ...) name the same key.
pub proof fn lemma_main_words(p: Seq<char>)
    requires
        main_word(ascii_fold(p)) is Some,
    ensures
        part_meaning(p) == PartMeaning::Main(main_word(ascii_fold(p))->0),
{
    lemma_fold_part(p);
    lemma_main_word_meaning(ascii_fold(p));
}

} // verus!

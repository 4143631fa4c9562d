use vstd::prelude::*;
use crate::hotkey::{
    add_modifier, all_pressed, ascii_lower, ascii_lower_word, hotkey_outcome, is_f_ligature, parse_parts,
    part_meaning, HotkeyOutcome, Key, PartMeaning,
};
use crate::text::{
    digits_value, is_digit, is_ws, lemma_split_nonempty, parses_u32, split, trim, trim_end,
    trim_start, unsigned_body,
};

verus! {

/// An ASCII capital letter turned into its small letter; every other character unchanged.
pub open spec fn fold_char(c: char) -> char {
    if 'A' <= c && c <= 'Z' {
        ((c as u32) + 32) as char
    } else {
        c
    }
}

/// The string with its ASCII capital letters made small.
pub open spec fn ascii_fold(s: Seq<char>) -> Seq<char> {
    s.map_values(|c: char| fold_char(c))
}

/// Two part meanings name the same key, or are both refusals, or both unreadable.
pub open spec fn meanings_agree(a: PartMeaning, b: PartMeaning) -> bool {
    match a {
        PartMeaning::Modifier(k) => b == PartMeaning::Modifier(k),
        PartMeaning::Main(k) => b == PartMeaning::Main(k),
        PartMeaning::Refused(_) => b is Refused,
        PartMeaning::Unreadable => b is Unreadable,
    }
}

/// Two parse outcomes are the same hotkey, or are both failures, or both unreadable.
pub open spec fn outcomes_agree(a: HotkeyOutcome, b: HotkeyOutcome) -> bool {
    match a {
        HotkeyOutcome::Parsed(..) => b == a,
        HotkeyOutcome::Failed(_) => b is Failed,
        HotkeyOutcome::Panics => b is Panics,
    }
}

proof fn lemma_fold_trim_start(s: Seq<char>)
    ensures
        trim_start(ascii_fold(s)) == ascii_fold(trim_start(s)),
    decreases s.len(),
{
    if s.len() > 0 {
        assert(ascii_fold(s)[0] == fold_char(s[0]));
        assert(ascii_fold(s).drop_first() =~= ascii_fold(s.drop_first()));
        lemma_fold_trim_start(s.drop_first());
    }
}

proof fn lemma_fold_trim_end(s: Seq<char>)
    ensures
        trim_end(ascii_fold(s)) == ascii_fold(trim_end(s)),
    decreases s.len(),
{
    if s.len() > 0 {
        assert(ascii_fold(s).last() == fold_char(s.last()));
        assert(ascii_fold(s).drop_last() =~= ascii_fold(s.drop_last()));
        lemma_fold_trim_end(s.drop_last());
    }
}

proof fn lemma_fold_trim(s: Seq<char>)
    ensures
        trim(ascii_fold(s)) == ascii_fold(trim(s)),
{
    lemma_fold_trim_start(s);
    lemma_fold_trim_end(trim_start(s));
}

proof fn lemma_fold_split(s: Seq<char>)
    ensures
        split(ascii_fold(s), '+') == split(s, '+').map_values(|p: Seq<char>| ascii_fold(p)),
    decreases s.len(),
{
    if s.len() == 0 {
        assert(ascii_fold(s) =~= s);
        assert(ascii_fold(Seq::<char>::empty()) =~= Seq::<char>::empty());
        assert(split(s, '+').map_values(|p: Seq<char>| ascii_fold(p)) =~= split(s, '+'));
    } else {
        let c = s.last();
        let t = s.drop_last();
        lemma_fold_split(t);
        lemma_split_nonempty(t, '+');
        assert(ascii_fold(s).drop_last() =~= ascii_fold(t));
        assert(ascii_fold(s).last() == fold_char(c));
        let r = split(t, '+');
        let fr = r.map_values(|p: Seq<char>| ascii_fold(p));
        if c == '+' {
            assert(ascii_fold(Seq::<char>::empty()) =~= Seq::<char>::empty());
            assert(r.push(Seq::<char>::empty()).map_values(|p: Seq<char>| ascii_fold(p)) =~= fr.push(
                Seq::<char>::empty(),
            ));
        } else {
            assert(ascii_fold(r.last().push(c)) =~= ascii_fold(r.last()).push(fold_char(c)));
            assert(r.update(r.len() - 1, r.last().push(c)).map_values(
                |p: Seq<char>| ascii_fold(p),
            ) =~= fr.update(fr.len() - 1, fr.last().push(fold_char(c))));
        }
    }
}

proof fn lemma_fold_lower_word(p: Seq<char>)
    ensures
        ascii_lower_word(ascii_fold(p)) == ascii_lower_word(p),
{
    let q = ascii_fold(p);
    assert forall|i: int| 0 <= i < p.len() implies ascii_lower(#[trigger] q[i]) == ascii_lower(
        p[i],
    ) by {
        assert(q[i] == fold_char(p[i]));
    }
    if forall|i: int| 0 <= i < p.len() ==> (#[trigger] ascii_lower(p[i])) is Some {
        assert(forall|i: int| 0 <= i < q.len() ==> (#[trigger] ascii_lower(q[i])) is Some);
        assert(Seq::new(q.len(), |i: int| ascii_lower(q[i])->0) =~= Seq::new(
            p.len(),
            |i: int| ascii_lower(p[i])->0,
        ));
    } else {
        let i = choose|i: int| 0 <= i < p.len() && !(ascii_lower(p[i]) is Some);
        assert(!(ascii_lower(q[i]) is Some));
    }
}

proof fn lemma_fold_parse_u32(r: Seq<char>)
    ensures
        parses_u32(ascii_fold(r)) == parses_u32(r),
        parses_u32(r) ==> digits_value(unsigned_body(ascii_fold(r))) == digits_value(
            unsigned_body(r),
        ),
{
    let b = unsigned_body(r);
    let fb = unsigned_body(ascii_fold(r));
    if r.len() > 0 {
        assert(ascii_fold(r)[0] == fold_char(r[0]));
        assert(ascii_fold(r).drop_first() =~= ascii_fold(r.drop_first()));
    }
    assert(fb =~= ascii_fold(b));
    if forall|i: int| 0 <= i < b.len() ==> is_digit(#[trigger] b[i]) {
        assert(fb =~= b);
    } else {
        let i = choose|i: int| 0 <= i < b.len() && !is_digit(b[i]);
        assert(fb[i] == fold_char(b[i]));
        assert(!is_digit(fb[i]));
    }
}

pub(crate) proof fn lemma_fold_part(p: Seq<char>)
    ensures
        meanings_agree(part_meaning(p), part_meaning(ascii_fold(p))),
{
    let q = ascii_fold(p);
    lemma_fold_lower_word(p);
    if p.len() > 0 {
        assert(q[0] == fold_char(p[0]));
        assert(q.drop_first() =~= ascii_fold(p.drop_first()));
        lemma_fold_parse_u32(p.drop_first());
        assert(is_f_ligature(q[0]) == is_f_ligature(p[0]));
    }
}

proof fn lemma_parts_agree(
    p1: Seq<Seq<char>>,
    p2: Seq<Seq<char>>,
    i: int,
    mods: Seq<Key>,
    main: Option<Key>,
    combo: Seq<Key>,
)
    requires
        0 <= i,
        p1.len() == p2.len(),
        forall|j: int|
            0 <= j < p1.len() ==> meanings_agree(
                #[trigger] part_meaning(trim(p1[j])),
                part_meaning(trim(p2[j])),
            ),
    ensures
        outcomes_agree(parse_parts(p1, i, mods, main, combo), parse_parts(p2, i, mods, main, combo)),
    decreases p1.len() - i,
{
    if i < p1.len() {
        let m1 = part_meaning(trim(p1[i]));
        match m1 {
            PartMeaning::Modifier(k) => {
                lemma_parts_agree(
                    p1,
                    p2,
                    i + 1,
                    crate::hotkey::add_modifier(mods, k),
                    main,
                    combo.push(k),
                );
            },
            PartMeaning::Main(k) => {
                lemma_parts_agree(p1, p2, i + 1, mods, Some(k), combo.push(k));
            },
            _ => {},
        }
    }
}

proof fn lemma_outcome_fold(s: Seq<char>)
    ensures
        outcomes_agree(hotkey_outcome(s), hotkey_outcome(ascii_fold(s))),
{
    lemma_fold_trim(s);
    lemma_fold_split(s);
    let p1 = split(s, '+');
    let p2 = split(ascii_fold(s), '+');
    assert forall|j: int| 0 <= j < p1.len() implies meanings_agree(
        #[trigger] part_meaning(trim(p1[j])),
        part_meaning(trim(p2[j])),
    ) by {
        assert(p2[j] == ascii_fold(p1[j]));
        lemma_fold_trim(p1[j]);
        lemma_fold_part(trim(p1[j]));
    }
    lemma_parts_agree(p1, p2, 0, Seq::<Key>::empty(), None, Seq::<Key>::empty());
}

/// Hotkey strings are read without regard to the case of ASCII letters: two strings that
/// differ only there give the same hotkey, or both fail, or both cannot be read.
pub proof fn lemma_parse_case_insensitive(s1: Seq<char>, s2: Seq<char>)
    requires
        ascii_fold(s1) == ascii_fold(s2),
    ensures
        outcomes_agree(hotkey_outcome(s1), hotkey_outcome(s2)),
{
    lemma_outcome_fold(s1);
    lemma_outcome_fold(s2);
}


/// The keys are distinct.
pub open spec fn distinct_keys(m: Seq<Key>) -> bool {
    forall|a: int, b: int| 0 <= a < b < m.len() ==> m[a] != m[b]
}

/// What a parsed hotkey always satisfies: its main key and modifiers are among its keys,
/// the modifiers are distinct, and there is one key per `'+'`-separated part.
pub open spec fn well_shaped(m: Seq<Key>, k: Key, c: Seq<Key>, n: nat) -> bool {
    &&& c.contains(k)
    &&& forall|x: Key| m.contains(x) ==> c.contains(x)
    &&& distinct_keys(m)
    &&& c.len() == n
}

proof fn lemma_parts_shape(
    parts: Seq<Seq<char>>,
    i: int,
    mods: Seq<Key>,
    main: Option<Key>,
    combo: Seq<Key>,
)
    requires
        0 <= i <= parts.len(),
        combo.len() == i,
        forall|x: Key| mods.contains(x) ==> combo.contains(x),
        distinct_keys(mods),
        main matches Some(k) ==> combo.contains(k),
    ensures
        parse_parts(parts, i, mods, main, combo) matches HotkeyOutcome::Parsed(m, k, c)
            ==> well_shaped(m, k, c, parts.len()),
    decreases parts.len() - i,
{
    if i < parts.len() {
        match part_meaning(trim(parts[i])) {
            PartMeaning::Modifier(k) => {
                let nm = crate::hotkey::add_modifier(mods, k);
                let nc = combo.push(k);
                assert(nc[nc.len() - 1] == k);
                assert forall|x: Key| nm.contains(x) implies nc.contains(x) by {
                    if x != k {
                        assert(mods.contains(x));
                        let j = choose|j: int| 0 <= j < combo.len() && combo[j] == x;
                        assert(nc[j] == x);
                    }
                }
                if let Some(mk) = main {
                    let j = choose|j: int| 0 <= j < combo.len() && combo[j] == mk;
                    assert(nc[j] == mk);
                }
                lemma_parts_shape(parts, i + 1, nm, main, nc);
            },
            PartMeaning::Main(k) => {
                let nc = combo.push(k);
                assert(nc[nc.len() - 1] == k);
                assert forall|x: Key| mods.contains(x) implies nc.contains(x) by {
                    let j = choose|j: int| 0 <= j < combo.len() && combo[j] == x;
                    assert(nc[j] == x);
                }
                lemma_parts_shape(parts, i + 1, mods, Some(k), nc);
            },
            _ => {},
        }
    }
}

/// A successfully parsed hotkey has its main key and its modifiers among its keys, no
/// modifier twice, and one key for each `'+'`-separated part of the string.
pub proof fn lemma_parsed_shape(s: Seq<char>)
    ensures
        hotkey_outcome(s) matches HotkeyOutcome::Parsed(m, k, c) ==> well_shaped(
            m,
            k,
            c,
            split(s, '+').len(),
        ),
{
    if trim(s).len() > 0 {
        lemma_parts_shape(split(s, '+'), 0, Seq::<Key>::empty(), None, Seq::<Key>::empty());
    }
}

/// A hotkey matches when exactly its own keys are pressed.
pub proof fn lemma_matches_own_keys(combo: Seq<Key>)
    ensures
        all_pressed(combo, combo),
{
    assert forall|i: int| 0 <= i < combo.len() implies combo.contains(#[trigger] combo[i]) by {}
}

/// Pressing more keys never stops a hotkey from matching; in particular the order and
/// repetition of the pressed keys do not matter.
pub proof fn lemma_matches_more_keys(combo: Seq<Key>, p1: Seq<Key>, p2: Seq<Key>)
    requires
        all_pressed(combo, p1),
        forall|x: Key| p1.contains(x) ==> p2.contains(x),
    ensures
        all_pressed(combo, p2),
{
    assert forall|i: int| 0 <= i < combo.len() implies p2.contains(#[trigger] combo[i]) by {
        assert(p1.contains(combo[i]));
    }
}

/// Two hotkey strings have the same `'+'`-separated parts once each part is trimmed: they
/// differ only in whitespace next to a `'+'` or at either end.
pub open spec fn same_parts(s1: Seq<char>, s2: Seq<char>) -> bool {
    &&& split(s1, '+').len() == split(s2, '+').len()
    &&& forall|i: int|
        0 <= i < split(s1, '+').len() ==> trim(#[trigger] split(s1, '+')[i]) == trim(
            split(s2, '+')[i],
        )
}

pub(crate) proof fn lemma_parts_same(
    p1: Seq<Seq<char>>,
    p2: Seq<Seq<char>>,
    i: int,
    mods: Seq<Key>,
    main: Option<Key>,
    combo: Seq<Key>,
)
    requires
        0 <= i <= p1.len(),
        p1.len() == p2.len(),
        forall|j: int|
            0 <= j < p1.len() ==> part_meaning(trim(#[trigger] p1[j])) == part_meaning(trim(p2[j])),
    ensures
        parse_parts(p1, i, mods, main, combo) == parse_parts(p2, i, mods, main, combo),
    decreases p1.len() - i,
{
    if i < p1.len() {
        assert(part_meaning(trim(p1[i])) == part_meaning(trim(p2[i])));
        match part_meaning(trim(p1[i])) {
            PartMeaning::Modifier(k) => {
                lemma_parts_same(p1, p2, i + 1, add_modifier(mods, k), main, combo.push(k));
            },
            PartMeaning::Main(k) => {
                lemma_parts_same(p1, p2, i + 1, mods, Some(k), combo.push(k));
            },
            _ => {},
        }
    }
}

pub(crate) proof fn lemma_split_pieces(s: Seq<char>, sep: char)
    ensures
        split(s, sep).len() == 1 ==> split(s, sep)[0] == s,
        split(s, sep).len() >= 2 ==> exists|i: int| 0 <= i < s.len() && s[i] == sep,
    decreases s.len(),
{
    if s.len() > 0 {
        let d = s.drop_last();
        lemma_split_pieces(d, sep);
        lemma_split_nonempty(d, sep);
        if s.last() == sep {
            assert(s[s.len() - 1] == sep);
        } else {
            if split(d, sep).len() == 1 {
                assert(d.push(s.last()) =~= s);
            } else {
                let i = choose|i: int| 0 <= i < d.len() && d[i] == sep;
                assert(s[i] == sep);
            }
        }
    }
}

proof fn lemma_trim_start_has(s: Seq<char>, i: int)
    requires
        0 <= i < s.len(),
        !is_ws(s[i]),
    ensures
        exists|j: int| 0 <= j < trim_start(s).len() && !is_ws(#[trigger] trim_start(s)[j]),
    decreases s.len(),
{
    if is_ws(s[0]) {
        assert(s.drop_first()[i - 1] == s[i]);
        lemma_trim_start_has(s.drop_first(), i - 1);
        assert(trim_start(s) == trim_start(s.drop_first()));
        let j = choose|j: int|
            0 <= j < trim_start(s.drop_first()).len() && !is_ws(
                #[trigger] trim_start(s.drop_first())[j],
            );
        assert(!is_ws(trim_start(s)[j]));
    } else {
        assert(trim_start(s) == s);
        assert(!is_ws(trim_start(s)[i]));
    }
}

proof fn lemma_trim_end_has(s: Seq<char>, i: int)
    requires
        0 <= i < s.len(),
        !is_ws(s[i]),
    ensures
        trim_end(s).len() > 0,
    decreases s.len(),
{
    if is_ws(s.last()) {
        assert(i < s.len() - 1);
        assert(s.drop_last()[i] == s[i]);
        lemma_trim_end_has(s.drop_last(), i);
    }
}

pub(crate) proof fn lemma_trim_has(s: Seq<char>, i: int)
    requires
        0 <= i < s.len(),
        !is_ws(s[i]),
    ensures
        trim(s).len() > 0,
{
    lemma_trim_start_has(s, i);
    let j = choose|j: int| 0 <= j < trim_start(s).len() && !is_ws(#[trigger] trim_start(s)[j]);
    lemma_trim_end_has(trim_start(s), j);
}

proof fn lemma_blank_iff(s: Seq<char>)
    ensures
        split(s, '+').len() == 1 ==> trim(s) == trim(split(s, '+')[0]),
        split(s, '+').len() >= 2 ==> trim(s).len() > 0,
{
    lemma_split_pieces(s, '+');
    if split(s, '+').len() >= 2 {
        let i = choose|i: int| 0 <= i < s.len() && s[i] == '+';
        lemma_trim_has(s, i);
    }
}

/// Whitespace next to a `'+'` or at either end of a hotkey string does not change how it
/// is read: strings whose parts agree once trimmed give the same outcome.
pub proof fn lemma_parse_ignores_spacing(s1: Seq<char>, s2: Seq<char>)
    requires
        same_parts(s1, s2),
    ensures
        hotkey_outcome(s1) == hotkey_outcome(s2),
{
    let p1 = split(s1, '+');
    let p2 = split(s2, '+');
    lemma_split_nonempty(s1, '+');
    lemma_blank_iff(s1);
    lemma_blank_iff(s2);
    if p1.len() == 1 {
        assert(trim(p1[0]) == trim(p2[0]));
    }
    assert forall|j: int| 0 <= j < p1.len() implies part_meaning(trim(#[trigger] p1[j]))
        == part_meaning(trim(p2[j])) by {
        assert(trim(p1[j]) == trim(p2[j]));
    }
    lemma_parts_same(p1, p2, 0, Seq::<Key>::empty(), None, Seq::<Key>::empty());
}

/// Splitting text that has a separator after a first piece without one: that piece,
/// then the pieces of the rest.
pub(crate) proof fn lemma_split_after_first(a: Seq<char>, y: Seq<char>, sep: char)
    requires
        forall|i: int| 0 <= i < a.len() ==> #[trigger] a[i] != sep,
    ensures
        split(a.push(sep) + y, sep) == seq![a] + split(y, sep),
    decreases y.len(),
{
    lemma_split_pieces(a, sep);
    lemma_split_nonempty(a, sep);
    if split(a, sep).len() >= 2 {
        let i = choose|i: int| 0 <= i < a.len() && a[i] == sep;
        assert(false);
    }
    let x = a.push(sep);
    if y.len() == 0 {
        assert(x + y =~= x);
        assert(x.drop_last() =~= a);
        assert(seq![a] + split(y, sep) =~= seq![a, Seq::<char>::empty()]);
    } else {
        let yd = y.drop_last();
        lemma_split_after_first(a, yd, sep);
        lemma_split_nonempty(yd, sep);
        assert((x + y).drop_last() =~= x + yd);
        assert((x + y).last() == y.last());
        let r = split(yd, sep);
        if y.last() == sep {
            assert((seq![a] + r).push(Seq::<char>::empty()) =~= seq![a] + r.push(Seq::<char>::empty()));
        } else {
            let t = seq![a] + r;
            assert(t.update(t.len() - 1, t.last().push(y.last())) =~= seq![a] + r.update(
                r.len() - 1,
                r.last().push(y.last()),
            ));
        }
    }
}

} // verus!

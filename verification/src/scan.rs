use vstd::prelude::*;
use crate::text::{chars_of, contains_exec, contains_seq, ends_with, ends_with_exec, push_str};

verus! {

/// `a` comes before `b` in the order of `str`'s `Ord`: character by character, a prefix
/// first.
pub open spec fn lex_lt(a: Seq<char>, b: Seq<char>) -> bool
    decreases a.len(),
{
    if a.len() == 0 {
        b.len() > 0
    } else if b.len() == 0 {
        false
    } else if a[0] < b[0] {
        true
    } else if a[0] == b[0] {
        lex_lt(a.drop_first(), b.drop_first())
    } else {
        false
    }
}

proof fn lemma_lex_asym(a: Seq<char>, b: Seq<char>)
    ensures
        !(lex_lt(a, b) && lex_lt(b, a)),
    decreases a.len(),
{
    if a.len() > 0 && b.len() > 0 && a[0] == b[0] {
        lemma_lex_asym(a.drop_first(), b.drop_first());
    }
}

proof fn lemma_lex_trans(a: Seq<char>, b: Seq<char>, c: Seq<char>)
    requires
        lex_lt(a, b),
        lex_lt(b, c),
    ensures
        lex_lt(a, c),
    decreases a.len(),
{
    if a.len() > 0 && b.len() > 0 && c.len() > 0 && a[0] == b[0] && b[0] == c[0] {
        lemma_lex_trans(a.drop_first(), b.drop_first(), c.drop_first());
    }
}

/// Whether `a` comes before `b` (`str::cmp` is `Less`).
pub fn lex_less(a: &str, b: &str) -> (r: bool)
    ensures
        r == lex_lt(a@, b@),
{
    let x = chars_of(a);
    let y = chars_of(b);
    let mut i: usize = 0;
    assert(x@.skip(0) =~= x@);
    assert(y@.skip(0) =~= y@);
    while i < x.len() && i < y.len() && x[i] == y[i]
        invariant
            i <= x@.len(),
            i <= y@.len(),
            x@ == a@,
            y@ == b@,
            forall|k: int| 0 <= k < i ==> x@[k] == y@[k],
            lex_lt(a@, b@) == lex_lt(x@.skip(i as int), y@.skip(i as int)),
        decreases x@.len() - i,
    {
        assert(x@.skip(i as int).drop_first() =~= x@.skip(i + 1));
        assert(y@.skip(i as int).drop_first() =~= y@.skip(i + 1));
        i = i + 1;
    }
    if i == x.len() {
        i < y.len()
    } else if i == y.len() {
        false
    } else {
        x[i] < y[i]
    }
}

/// What kind of speech model a file holds, from its name.
#[derive(Clone, Copy, Debug, PartialEq, Eq, Structural)]
pub enum ModelKind {
    Base,
    Small,
    Medium,
    LargeTurbo,
    Large,
    Tiny,
    /// None of the known sizes; shown with its size in megabytes.
    Custom,
}

/// The kind of model a file name shows: the first of `base`, `small`, `medium`, `large`
/// (turbo or not) and `tiny` it contains.
pub open spec fn model_kind(name: Seq<char>) -> ModelKind {
    if contains_seq(name, "base"@) {
        ModelKind::Base
    } else if contains_seq(name, "small"@) {
        ModelKind::Small
    } else if contains_seq(name, "medium"@) {
        ModelKind::Medium
    } else if contains_seq(name, "large"@) {
        if contains_seq(name, "turbo"@) {
            ModelKind::LargeTurbo
        } else {
            ModelKind::Large
        }
    } else if contains_seq(name, "tiny"@) {
        ModelKind::Tiny
    } else {
        ModelKind::Custom
    }
}

fn has(name: &[char], pat: &str) -> (b: bool)
    ensures
        b == contains_seq(name@, pat@),
{
    let mut p: Vec<char> = Vec::new();
    push_str(&mut p, pat);
    contains_exec(name, p.as_slice())
}

/// The kind of model a file name shows.
pub fn classify_model(name: &str) -> (k: ModelKind)
    ensures
        k == model_kind(name@),
{
    let n = chars_of(name);
    if has(n.as_slice(), "base") {
        ModelKind::Base
    } else if has(n.as_slice(), "small") {
        ModelKind::Small
    } else if has(n.as_slice(), "medium") {
        ModelKind::Medium
    } else if has(n.as_slice(), "large") {
        if has(n.as_slice(), "turbo") {
            ModelKind::LargeTurbo
        } else {
            ModelKind::Large
        }
    } else if has(n.as_slice(), "tiny") {
        ModelKind::Tiny
    } else {
        ModelKind::Custom
    }
}

impl ModelKind {
    /// The label of a kind of known size; `None` for a custom model.
    pub fn label(&self) -> (r: Option<&'static str>)
        ensures
            *self == ModelKind::Custom <==> r is None,
    {
        match self {
            ModelKind::Base => Some("Base (~74MB)"),
            ModelKind::Small => Some("Small (~244MB)"),
            ModelKind::Medium => Some("Medium (~769MB)"),
            ModelKind::LargeTurbo => Some("Large V3 Turbo (~1.5GB)"),
            ModelKind::Large => Some("Large (~1.5GB)"),
            ModelKind::Tiny => Some("Tiny (~39MB)"),
            ModelKind::Custom => None,
        }
    }
}

/// A file found in the models directory.
pub struct DirEntryInfo {
    pub name: String,
    pub path: String,
    /// Whether its metadata could be read.
    pub has_metadata: bool,
    pub is_file: bool,
    pub size_bytes: u64,
    /// When it was last changed, as `YYYY-MM-DD HH:MM`, or `Unknown`.
    pub modified: String,
}

/// A speech model found in the models directory.
#[derive(Clone, Debug)]
pub struct ScannedModel {
    pub name: String,
    pub path: String,
    pub size_bytes: u64,
    pub kind: ModelKind,
    pub modified: String,
}

/// The file name has the extension `bin` (`Path::extension`): it ends in `.bin` after a
/// non-empty stem.
pub open spec fn bin_file(name: Seq<char>) -> bool {
    ends_with(name, ".bin"@) && name.len() > 4
}

/// A directory entry is a speech model: a readable file with the `bin` extension whose
/// name does not contain `vad` (voice-activity models are not for transcription).
pub open spec fn is_model_entry(e: DirEntryInfo) -> bool {
    bin_file(e.name@) && e.has_metadata && e.is_file && !contains_seq(e.name@, "vad"@)
}

/// The model listed for a model entry.
pub open spec fn model_of(e: DirEntryInfo) -> ScannedModel {
    ScannedModel {
        name: e.name,
        path: e.path,
        size_bytes: e.size_bytes,
        kind: model_kind(e.name@),
        modified: e.modified,
    }
}

/// The models of the model entries, in the order of the entries.
pub open spec fn model_entries(entries: Seq<DirEntryInfo>) -> Seq<ScannedModel> {
    entries.filter(|e: DirEntryInfo| is_model_entry(e)).map_values(|e: DirEntryInfo| model_of(e))
}

/// A listed model stands for a model entry of the directory.
pub open spec fn comes_from(m: ScannedModel, e: DirEntryInfo) -> bool {
    &&& is_model_entry(e)
    &&& m.name@ == e.name@
    &&& m.path@ == e.path@
    &&& m.size_bytes == e.size_bytes
    &&& m.kind == model_kind(e.name@)
    &&& m.modified@ == e.modified@
}

/// A listed model stands for one of the entries.
pub open spec fn from_some_entry(m: ScannedModel, entries: Seq<DirEntryInfo>) -> bool {
    exists|j: int| 0 <= j < entries.len() && #[trigger] comes_from(m, entries[j])
}

/// `a` is listed before `b`: larger first, then by name.
pub open spec fn listed_before(a: ScannedModel, b: ScannedModel) -> bool {
    a.size_bytes > b.size_bytes || (a.size_bytes == b.size_bytes && lex_lt(a.name@, b.name@))
}

/// No model is listed after one it should come before.
pub open spec fn listed_in_order(s: Seq<ScannedModel>) -> bool {
    forall|i: int, j: int| 0 <= i < j < s.len() ==> !listed_before(#[trigger] s[j], #[trigger] s[i])
}

proof fn lemma_listed_before_strict(a: ScannedModel, b: ScannedModel, c: ScannedModel)
    ensures
        !(listed_before(a, b) && listed_before(b, a)),
        listed_before(a, b) && listed_before(b, c) ==> listed_before(a, c),
{
    lemma_lex_asym(a.name@, b.name@);
    if listed_before(a, b) && listed_before(b, c) && a.size_bytes == b.size_bytes && b.size_bytes == c.size_bytes {
        lemma_lex_trans(a.name@, b.name@, c.name@);
    }
}

fn copy_scanned(m: &ScannedModel) -> (r: ScannedModel)
    ensures
        r == *m,
{
    ScannedModel {
        name: m.name.clone(),
        path: m.path.clone(),
        size_bytes: m.size_bytes,
        kind: m.kind,
        modified: m.modified.clone(),
    }
}

fn listed_before_exec(a: &ScannedModel, b: &ScannedModel) -> (r: bool)
    ensures
        r == listed_before(*a, *b),
{
    a.size_bytes > b.size_bytes || (a.size_bytes == b.size_bytes && lex_less(a.name.as_str(), b.name.as_str()))
}

/// The models in listing order: larger first, then by name; models that compare equal
/// keep their order.
pub fn sort_models(models: &Vec<ScannedModel>) -> (r: Vec<ScannedModel>)
    ensures
        r@.to_multiset() == models@.to_multiset(),
        listed_in_order(r@),
{
    broadcast use vstd::seq_lib::group_to_multiset_ensures;
    let mut out: Vec<ScannedModel> = Vec::new();
    let mut i: usize = 0;
    while i < models.len()
        invariant
            i <= models@.len(),
            out@.to_multiset() == models@.take(i as int).to_multiset(),
            listed_in_order(out@),
        decreases models@.len() - i,
    {
        let x = copy_scanned(&models[i]);
        let mut p: usize = 0;
        while p < out.len() && !listed_before_exec(&x, &out[p])
            invariant
                p <= out@.len(),
                x == models@[i as int],
                forall|k: int| 0 <= k < p ==> !listed_before(x, #[trigger] out@[k]),
            decreases out@.len() - p,
        {
            p = p + 1;
        }
        let ghost before = out@;
        proof {
            vstd::seq_lib::to_multiset_insert(before, p as int, x);
            assert(models@.take(i + 1) =~= models@.take(i as int).push(x));
            assert forall|a: int, b: int| 0 <= a < b < before.len() + 1 implies !listed_before(
                #[trigger] before.insert(p as int, x)[b],
                #[trigger] before.insert(p as int, x)[a],
            ) by {
                let s = before.insert(p as int, x);
                if b < p {
                    assert(s[a] == before[a] && s[b] == before[b]);
                } else if b == p {
                    assert(s[a] == before[a]);
                    lemma_listed_before_strict(x, before[a], x);
                } else if a == p {
                    assert(s[b] == before[b - 1]);
                    assert(listed_before(x, before[p as int]));
                    lemma_listed_before_strict(before[b - 1], x, before[p as int]);
                    if b - 1 > p {
                        assert(!listed_before(before[b - 1], before[p as int]));
                    }
                } else if a < p {
                    assert(s[a] == before[a] && s[b] == before[b - 1]);
                } else {
                    assert(s[a] == before[a - 1] && s[b] == before[b - 1]);
                }
            }
        }
        out.insert(p, x);
        assert(out@ == before.insert(p as int, x));
        proof {
            before.to_multiset_ensures();
            models@.take(i as int).to_multiset_ensures();
            assert(models@.take(i as int).push(x).to_multiset() =~= models@.take(i as int).to_multiset().insert(x));
            assert(models@.take(i + 1) =~= models@.take(i as int).push(x));
        }
        assert(out@.to_multiset() == models@.take(i + 1).to_multiset());
        i = i + 1;
    }
    assert(models@.take(models@.len() as int) =~= models@);
    out
}

/// The speech models among the entries of the models directory, in listing order: each
/// model entry is listed once, and nothing else.
pub fn scan_models(entries: Vec<DirEntryInfo>) -> (r: Vec<ScannedModel>)
    ensures
        listed_in_order(r@),
        r@.to_multiset() == model_entries(entries@).to_multiset(),
        forall|k: int| 0 <= k < r@.len() ==> from_some_entry(#[trigger] r@[k], entries@),
        r@.len() == entries@.filter(|e: DirEntryInfo| is_model_entry(e)).len(),
{
    broadcast use vstd::seq_lib::group_to_multiset_ensures;
    let mut found: Vec<ScannedModel> = Vec::new();
    let mut bin: Vec<char> = Vec::new();
    push_str(&mut bin, ".bin");
    let mut vad: Vec<char> = Vec::new();
    push_str(&mut vad, "vad");
    let mut i: usize = 0;
    while i < entries.len()
        invariant
            i <= entries@.len(),
            bin@ == ".bin"@,
            vad@ == "vad"@,
            found@.len() == entries@.take(i as int).filter(|e: DirEntryInfo| is_model_entry(e)).len(),
            found@ == model_entries(entries@.take(i as int)),
            forall|k: int| 0 <= k < found@.len() ==> from_some_entry(#[trigger] found@[k], entries@.take(i as int)),
        decreases entries@.len() - i,
    {
        let e = &entries[i];
        let n = chars_of(e.name.as_str());
        let keep = ends_with_exec(n.as_slice(), bin.as_slice()) && n.len() > 4 && e.has_metadata && e.is_file
            && !contains_exec(n.as_slice(), vad.as_slice());
        let ghost old_found = found@;
        proof {
            assert(entries@.take(i + 1).drop_last() =~= entries@.take(i as int));
            entries@.take(i as int).lemma_filter_len_push(|e: DirEntryInfo| is_model_entry(e), entries@[i as int]);
            assert(entries@.take(i as int).push(entries@[i as int]) =~= entries@.take(i + 1));
            let fi = entries@.take(i as int).filter(|e: DirEntryInfo| is_model_entry(e));
            assert(entries@.take(i + 1).last() == entries@[i as int]);
            assert(fi.push(entries@[i as int]).map_values(|e: DirEntryInfo| model_of(e))
                =~= fi.map_values(|e: DirEntryInfo| model_of(e)).push(model_of(entries@[i as int])));
            reveal(Seq::filter);
            if is_model_entry(entries@[i as int]) {
                assert(entries@.take(i + 1).filter(|e: DirEntryInfo| is_model_entry(e)) == fi.push(entries@[i as int]));
                assert(model_entries(entries@.take(i + 1)) == old_found.push(model_of(entries@[i as int])));
            } else {
                assert(entries@.take(i + 1).filter(|e: DirEntryInfo| is_model_entry(e)) == fi);
                assert(model_entries(entries@.take(i + 1)) == old_found);
            }
        }
        if keep {
            let m = ScannedModel {
                name: e.name.clone(),
                path: e.path.clone(),
                size_bytes: e.size_bytes,
                kind: classify_model(e.name.as_str()),
                modified: e.modified.clone(),
            };
            assert(m == model_of(entries@[i as int]));
            found.push(m);
            proof {
                assert forall|k: int| 0 <= k < found@.len() implies from_some_entry(#[trigger] found@[k], entries@.take(i + 1)) by {
                    if k == found@.len() - 1 {
                        assert(comes_from(found@[k], entries@.take(i + 1)[i as int]));
                    } else {
                        let j = choose|j: int| 0 <= j < i && #[trigger] comes_from(found@[k], entries@.take(i as int)[j]);
                        assert(entries@.take(i + 1)[j] == entries@.take(i as int)[j]);
                    }
                }
            }
        }
        assert(found@ == model_entries(entries@.take(i + 1)));
        i = i + 1;
    }
    assert(entries@.take(entries@.len() as int) =~= entries@);
    let sorted = sort_models(&found);
    proof {
        assert(sorted@.len() == sorted@.to_multiset().len());
        assert(found@.len() == found@.to_multiset().len());
        assert forall|k: int| 0 <= k < sorted@.len() implies from_some_entry(#[trigger] sorted@[k], entries@) by {
            assert(sorted@.to_multiset().count(sorted@[k]) > 0);
            assert(found@.contains(sorted@[k]));
            let f = choose|f: int| 0 <= f < found@.len() && found@[f] == sorted@[k];
            assert(from_some_entry(found@[f], entries@.take(entries@.len() as int)));
        }
    }
    sorted
}

} // verus!

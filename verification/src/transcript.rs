use vstd::prelude::*;
use crate::text::{
    chars_of, decimal, join, join_exec, pad_zeros, push_all, push_decimal, push_padded, push_signed,
    push_str, signed_decimal, string_of, trim, trim_chars, views,
};

verus! {

/// How a transcription is written out.
#[derive(Clone, Copy, Debug, PartialEq, Eq, Structural)]
pub enum OutputFormat {
    /// Plain text.
    Text,
    Json,
    /// SubRip subtitles.
    Srt,
    /// WebVTT subtitles.
    Vtt,
    Csv,
}

/// One recognised segment of speech.
#[derive(Clone, Debug)]
pub struct SegmentData {
    pub text: String,
    pub start_ms: u64,
    pub end_ms: u64,
    pub index: i32,
}

/// The segments whose text is not empty, in order.
pub open spec fn kept(segs: Seq<SegmentData>) -> Seq<SegmentData>
    decreases segs.len(),
{
    if segs.len() == 0 {
        segs
    } else {
        let r = kept(segs.drop_last());
        if segs.last().text@.len() > 0 {
            r.push(segs.last())
        } else {
            r
        }
    }
}

/// The trimmed texts of the kept segments.
pub open spec fn kept_texts(segs: Seq<SegmentData>) -> Seq<Seq<char>> {
    kept(segs).map_values(|s: SegmentData| trim(s.text@))
}

/// The plain text of a transcription: the trimmed texts of the non-empty segments, joined
/// with single spaces.
pub open spec fn plain_text(segs: Seq<SegmentData>) -> Seq<char> {
    join(kept_texts(segs), " "@)
}

/// A time as `HH:MM:SS` followed by `sep` and the milliseconds in three digits.
pub open spec fn clock(ms: nat, sep: char) -> Seq<char> {
    let total = ms / 1000;
    pad_zeros(decimal(total / 3600), 2) + ":"@ + pad_zeros(decimal((total % 3600) / 60), 2) + ":"@
        + pad_zeros(decimal(total % 60), 2) + seq![sep] + pad_zeros(decimal(ms % 1000), 3)
}

/// One SubRip entry, numbered `n`.
pub open spec fn srt_entry(n: nat, s: SegmentData) -> Seq<char> {
    decimal(n) + "\n"@ + clock(s.start_ms as nat, ',') + " --> "@ + clock(s.end_ms as nat, ',')
        + "\n"@ + trim(s.text@) + "\n\n"@
}

/// SubRip entries for the given segments, numbered from 1.
pub open spec fn srt_body(k: Seq<SegmentData>) -> Seq<char>
    decreases k.len(),
{
    if k.len() == 0 {
        Seq::<char>::empty()
    } else {
        srt_body(k.drop_last()) + srt_entry(k.len(), k.last())
    }
}

/// One WebVTT cue.
pub open spec fn vtt_entry(s: SegmentData) -> Seq<char> {
    clock(s.start_ms as nat, '.') + " --> "@ + clock(s.end_ms as nat, '.') + "\n"@ + trim(s.text@)
        + "\n\n"@
}

/// One CSV row.
pub open spec fn csv_entry(s: SegmentData) -> Seq<char> {
    signed_decimal(s.index as int) + ","@ + decimal(s.start_ms as nat) + ","@ + decimal(
        s.end_ms as nat,
    ) + ",\""@ + trim(s.text@) + "\"\n"@
}

/// WebVTT cues for the given segments.
pub open spec fn vtt_body(k: Seq<SegmentData>) -> Seq<char>
    decreases k.len(),
{
    if k.len() == 0 {
        Seq::<char>::empty()
    } else {
        vtt_body(k.drop_last()) + vtt_entry(k.last())
    }
}

/// CSV rows for the given segments.
pub open spec fn csv_body(k: Seq<SegmentData>) -> Seq<char>
    decreases k.len(),
{
    if k.len() == 0 {
        Seq::<char>::empty()
    } else {
        csv_body(k.drop_last()) + csv_entry(k.last())
    }
}

/// The SubRip document.
pub open spec fn srt_text(segs: Seq<SegmentData>) -> Seq<char> {
    srt_body(kept(segs))
}

/// The WebVTT document.
pub open spec fn vtt_text(segs: Seq<SegmentData>) -> Seq<char> {
    "WEBVTT\n\n"@ + vtt_body(kept(segs))
}

/// The CSV document.
pub open spec fn csv_text(segs: Seq<SegmentData>) -> Seq<char> {
    "index,start_ms,end_ms,text\n"@ + csv_body(kept(segs))
}

/// The JSON string literal for a text: in double quotes, with `"` and `\` escaped by a
/// backslash, the control characters backspace, tab, line feed, form feed and carriage
/// return written `\b`, `\t`, `\n`, `\f`, `\r`, and the other characters below U+0020
/// written `\u00XX` in small hexadecimal digits.
pub open spec fn json_string(s: Seq<char>) -> Seq<char> {
    seq!['"'] + json_escaped(s) + seq!['"']
}

/// The escaped contents of a JSON string literal.
pub open spec fn json_escaped(s: Seq<char>) -> Seq<char>
    decreases s.len(),
{
    if s.len() == 0 {
        s
    } else {
        json_escaped(s.drop_last()) + json_escape_char(s.last())
    }
}

/// A small hexadecimal digit.
pub open spec fn hex_digit(d: nat) -> char {
    if d < 10 {
        (48 + d) as char
    } else {
        (87 + d) as char
    }
}

/// How one character is written inside a JSON string literal.
pub open spec fn json_escape_char(c: char) -> Seq<char> {
    if c == '"' {
        seq!['\\', '"']
    } else if c == '\\' {
        seq!['\\', '\\']
    } else if c == '\x08' {
        seq!['\\', 'b']
    } else if c == '\t' {
        seq!['\\', 't']
    } else if c == '\n' {
        seq!['\\', 'n']
    } else if c == '\x0C' {
        seq!['\\', 'f']
    } else if c == '\r' {
        seq!['\\', 'r']
    } else if (c as u32) < 32 {
        seq!['\\', 'u', '0', '0', hex_digit((c as u32 / 16) as nat), hex_digit((c as u32 % 16) as nat)]
    } else {
        seq![c]
    }
}

/// The JSON object of one segment, keys in sorted order.
pub open spec fn segment_json(s: SegmentData) -> Seq<char> {
    "{\"end\":"@ + decimal(s.end_ms as nat) + ",\"start\":"@ + decimal(s.start_ms as nat)
        + ",\"text\":"@ + json_string(s.text@) + "}"@
}

/// The JSON document: the non-empty segments (with their text as given) and the plain
/// text, keys in sorted order, without spaces.
pub open spec fn json_text(segs: Seq<SegmentData>) -> Seq<char> {
    "{\"segments\":["@ + join(kept(segs).map_values(|s: SegmentData| segment_json(s)), ","@)
        + "],\"text\":"@ + json_string(plain_text(segs)) + "}"@
}

/// A transcription in the given format.
pub open spec fn formatted(segs: Seq<SegmentData>, format: OutputFormat) -> Seq<char> {
    match format {
        OutputFormat::Text => plain_text(segs),
        OutputFormat::Json => json_text(segs),
        OutputFormat::Srt => srt_text(segs),
        OutputFormat::Vtt => vtt_text(segs),
        OutputFormat::Csv => csv_text(segs),
    }
}

/// A text as a JSON string literal.
///
/// Calls `serde_json::to_string` on the text, which writes it in double quotes with the
/// escapes that `json_string` lists; serialising a string slice into memory cannot fail.
#[verifier::external_body]
fn json_quote(s: &str) -> (r: String)
    ensures
        r@ == json_string(s@),
{
    match serde_json::to_string(s) {
        Ok(v) => v,
        Err(_) => String::new(),
    }
}

fn push_clock(out: &mut Vec<char>, ms: u64, sep: char)
    ensures
        final(out)@ == old(out)@ + clock(ms as nat, sep),
{
    let total = ms / 1000;
    push_padded(out, total / 3600, 2);
    out.push(':');
    push_padded(out, (total % 3600) / 60, 2);
    out.push(':');
    push_padded(out, total % 60, 2);
    out.push(sep);
    push_padded(out, ms % 1000, 3);
    proof {
        reveal_strlit(":");
        assert(":"@ =~= seq![':']);
    }
    assert(out@ =~= old(out)@ + clock(ms as nat, sep));
}

/// The time of a SubRip entry, `HH:MM:SS,mmm`.
pub fn ms_to_srt_time(ms: u64) -> (r: String)
    ensures
        r@ == clock(ms as nat, ','),
{
    let mut out: Vec<char> = Vec::new();
    push_clock(&mut out, ms, ',');
    string_of(out.as_slice())
}

/// The time of a WebVTT cue, `HH:MM:SS.mmm`.
pub fn ms_to_vtt_time(ms: u64) -> (r: String)
    ensures
        r@ == clock(ms as nat, '.'),
{
    let mut out: Vec<char> = Vec::new();
    push_clock(&mut out, ms, '.');
    string_of(out.as_slice())
}

fn kept_segments(segs: &[SegmentData]) -> (r: Vec<SegmentData>)
    ensures
        r@ == kept(segs@),
{
    let mut out: Vec<SegmentData> = Vec::new();
    let mut i: usize = 0;
    while i < segs.len()
        invariant
            i <= segs@.len(),
            out@ == kept(segs@.take(i as int)),
        decreases segs@.len() - i,
    {
        proof {
            assert(segs@.take(i + 1).drop_last() =~= segs@.take(i as int));
        }
        if !segs[i].text.as_str().is_empty() {
            let s = SegmentData {
                text: segs[i].text.clone(),
                start_ms: segs[i].start_ms,
                end_ms: segs[i].end_ms,
                index: segs[i].index,
            };
            out.push(s);
        }
        i = i + 1;
    }
    assert(segs@.take(segs@.len() as int) =~= segs@);
    out
}

/// The plain text of a transcription.
pub fn format_as_text(segments: &[SegmentData]) -> (r: String)
    ensures
        r@ == plain_text(segments@),
{
    let v = plain_chars(segments);
    string_of(v.as_slice())
}

fn plain_chars(segments: &[SegmentData]) -> (r: Vec<char>)
    ensures
        r@ == plain_text(segments@),
{
    let k = kept_segments(segments);
    let mut pieces: Vec<Vec<char>> = Vec::new();
    let mut i: usize = 0;
    while i < k.len()
        invariant
            i <= k@.len(),
            views(pieces@) == k@.take(i as int).map_values(|s: SegmentData| trim(s.text@)),
        decreases k@.len() - i,
    {
        let t = trim_chars(chars_of(k[i].text.as_str()).as_slice());
        let ghost before = pieces@;
        pieces.push(t);
        assert(views(pieces@) =~= views(before).push(trim(k@[i as int].text@)));
        assert(k@.take(i + 1).map_values(|s: SegmentData| trim(s.text@)) =~= k@.take(
            i as int,
        ).map_values(|s: SegmentData| trim(s.text@)).push(trim(k@[i as int].text@)));
        i = i + 1;
    }
    assert(k@.take(k@.len() as int) =~= k@);
    let mut sep: Vec<char> = Vec::new();
    sep.push(' ');
    assert(sep@ =~= " "@) by {
        reveal_strlit(" ");
    }
    join_exec(&pieces, sep.as_slice())
}


fn push_trimmed(out: &mut Vec<char>, text: &String)
    ensures
        final(out)@ == old(out)@ + trim(text@),
{
    let t = trim_chars(chars_of(text.as_str()).as_slice());
    push_all(out, t.as_slice());
}

/// A transcription as SubRip subtitles: one numbered entry per non-empty segment.
pub fn format_as_srt(segments: &[SegmentData]) -> (r: String)
    ensures
        r@ == srt_text(segments@),
{
    let k = kept_segments(segments);
    let mut out: Vec<char> = Vec::new();
    let mut i: usize = 0;
    while i < k.len()
        invariant
            i <= k@.len(),
            out@ == srt_body(k@.take(i as int)),
        decreases k@.len() - i,
    {
        proof {
            assert(k@.take(i + 1).drop_last() =~= k@.take(i as int));
        }
        let ghost before = out@;
        let n: u64 = (i + 1) as u64;
        push_decimal(&mut out, n);
        push_str(&mut out, "\n");
        push_clock(&mut out, k[i].start_ms, ',');
        push_str(&mut out, " --> ");
        push_clock(&mut out, k[i].end_ms, ',');
        push_str(&mut out, "\n");
        push_trimmed(&mut out, &k[i].text);
        push_str(&mut out, "\n\n");
        assert(out@ =~= before + srt_entry((i + 1) as nat, k@[i as int]));
        i = i + 1;
    }
    assert(k@.take(k@.len() as int) =~= k@);
    string_of(out.as_slice())
}

/// A transcription as WebVTT subtitles.
pub fn format_as_vtt(segments: &[SegmentData]) -> (r: String)
    ensures
        r@ == vtt_text(segments@),
{
    let k = kept_segments(segments);
    let mut out: Vec<char> = Vec::new();
    push_str(&mut out, "WEBVTT\n\n");
    let ghost head = out@;
    let mut i: usize = 0;
    while i < k.len()
        invariant
            i <= k@.len(),
            out@ == head + vtt_body(k@.take(i as int)),
        decreases k@.len() - i,
    {
        proof {
            assert(k@.take(i + 1).drop_last() =~= k@.take(i as int));
        }
        let ghost before = out@;
        push_clock(&mut out, k[i].start_ms, '.');
        push_str(&mut out, " --> ");
        push_clock(&mut out, k[i].end_ms, '.');
        push_str(&mut out, "\n");
        push_trimmed(&mut out, &k[i].text);
        push_str(&mut out, "\n\n");
        assert(out@ =~= before + vtt_entry(k@[i as int]));
        i = i + 1;
    }
    assert(k@.take(k@.len() as int) =~= k@);
    string_of(out.as_slice())
}

/// A transcription as CSV: a header row, then one row per non-empty segment.
pub fn format_as_csv(segments: &[SegmentData]) -> (r: String)
    ensures
        r@ == csv_text(segments@),
{
    let k = kept_segments(segments);
    let mut out: Vec<char> = Vec::new();
    push_str(&mut out, "index,start_ms,end_ms,text\n");
    let ghost head = out@;
    let mut i: usize = 0;
    while i < k.len()
        invariant
            i <= k@.len(),
            out@ == head + csv_body(k@.take(i as int)),
        decreases k@.len() - i,
    {
        proof {
            assert(k@.take(i + 1).drop_last() =~= k@.take(i as int));
        }
        let ghost before = out@;
        push_signed(&mut out, k[i].index as i64);
        push_str(&mut out, ",");
        push_decimal(&mut out, k[i].start_ms);
        push_str(&mut out, ",");
        push_decimal(&mut out, k[i].end_ms);
        push_str(&mut out, ",\"");
        push_trimmed(&mut out, &k[i].text);
        push_str(&mut out, "\"\n");
        assert(out@ =~= before + csv_entry(k@[i as int]));
        i = i + 1;
    }
    assert(k@.take(k@.len() as int) =~= k@);
    string_of(out.as_slice())
}

/// A transcription as JSON: `{"segments":[{"end":..,"start":..,"text":..},..],"text":..}`.
pub fn format_as_json(segments: &[SegmentData]) -> (r: String)
    ensures
        r@ == json_text(segments@),
{
    let k = kept_segments(segments);
    let mut pieces: Vec<Vec<char>> = Vec::new();
    let mut i: usize = 0;
    while i < k.len()
        invariant
            i <= k@.len(),
            views(pieces@) == k@.take(i as int).map_values(|s: SegmentData| segment_json(s)),
        decreases k@.len() - i,
    {
        let mut p: Vec<char> = Vec::new();
        push_str(&mut p, "{\"end\":");
        push_decimal(&mut p, k[i].end_ms);
        push_str(&mut p, ",\"start\":");
        push_decimal(&mut p, k[i].start_ms);
        push_str(&mut p, ",\"text\":");
        let q = json_quote(k[i].text.as_str());
        push_str(&mut p, q.as_str());
        push_str(&mut p, "}");
        assert(p@ =~= segment_json(k@[i as int]));
        let ghost before = pieces@;
        pieces.push(p);
        assert(views(pieces@) =~= views(before).push(segment_json(k@[i as int])));
        assert(k@.take(i + 1).map_values(|s: SegmentData| segment_json(s)) =~= k@.take(
            i as int,
        ).map_values(|s: SegmentData| segment_json(s)).push(segment_json(k@[i as int])));
        i = i + 1;
    }
    assert(k@.take(k@.len() as int) =~= k@);
    let mut sep: Vec<char> = Vec::new();
    push_str(&mut sep, ",");
    let body = join_exec(&pieces, sep.as_slice());
    let text = plain_chars(segments);
    let text_s = string_of(text.as_slice());
    let quoted = json_quote(text_s.as_str());
    let mut out: Vec<char> = Vec::new();
    push_str(&mut out, "{\"segments\":[");
    push_all(&mut out, body.as_slice());
    push_str(&mut out, "],\"text\":");
    push_str(&mut out, quoted.as_str());
    push_str(&mut out, "}");
    string_of(out.as_slice())
}

/// A transcription in the given format.
pub fn format_transcription(segments: &[SegmentData], output_format: OutputFormat) -> (r: String)
    ensures
        r@ == formatted(segments@, output_format),
{
    match output_format {
        OutputFormat::Text => format_as_text(segments),
        OutputFormat::Json => format_as_json(segments),
        OutputFormat::Srt => format_as_srt(segments),
        OutputFormat::Vtt => format_as_vtt(segments),
        OutputFormat::Csv => format_as_csv(segments),
    }
}

impl SegmentData {
    /// A segment from the recogniser's output: the text trimmed, and the start and end
    /// from hundredths of a second to milliseconds.
    pub fn from_recognizer(text: &str, t0: i64, t1: i64, index: i32) -> (s: SegmentData)
        requires
            0 <= t0,
            0 <= t1,
            t0 * 10 <= u64::MAX,
            t1 * 10 <= u64::MAX,
        ensures
            s.text@ == trim(text@),
            s.start_ms == t0 * 10,
            s.end_ms == t1 * 10,
            s.index == index,
    {
        let t = trim_chars(chars_of(text).as_slice());
        SegmentData {
            text: string_of(t.as_slice()),
            start_ms: (t0 as u64) * 10,
            end_ms: (t1 as u64) * 10,
            index,
        }
    }
}


proof fn lemma_kept_idempotent(segs: Seq<SegmentData>)
    ensures
        kept(kept(segs)) == kept(segs),
        forall|i: int| 0 <= i < kept(segs).len() ==> (#[trigger] kept(segs)[i]).text@.len() > 0,
    decreases segs.len(),
{
    if segs.len() > 0 {
        lemma_kept_idempotent(segs.drop_last());
        let r = kept(segs.drop_last());
        if segs.last().text@.len() > 0 {
            let k = r.push(segs.last());
            assert(k.drop_last() =~= r);
            assert(k.last() == segs.last());
        }
    }
}

/// Segments with empty text never show: every format writes the same document whether
/// or not they are left out beforehand.
pub proof fn lemma_empty_segments_ignored(segs: Seq<SegmentData>, format: OutputFormat)
    ensures
        formatted(kept(segs), format) == formatted(segs, format),
        forall|i: int| 0 <= i < kept(segs).len() ==> (#[trigger] kept(segs)[i]).text@.len() > 0,
{
    lemma_kept_idempotent(segs);
}

} // verus!

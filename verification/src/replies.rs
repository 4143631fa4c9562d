use vstd::prelude::*;
use base64::Engine;
use crate::input::{Mode, VoiceError};
use crate::json::{json_compact, json_compact_text, json_error, json_lookup, json_parse_error, json_pointer_at, JsonAt, JsonFound};
use crate::records::{AsrTestRequest, AsrTestResponse, HealthCheckResponse};
use crate::text::{collapse_whitespace, collapse_ws, decimal, ends_with, ends_with_exec, push_decimal, replace_all, replace_all_exec, starts_with_exec};
use crate::text::{
    chars_of, contains_exec, contains_seq, join, join_exec, lines, lines_exec, parse_u32,
    parses_u32, push_all, push_str, starts_with, str_eq, string_of, trim, trim_chars, views,
};

verus! {

/// A line of a SubRip reply that carries text: not a timing line, not an entry number,
/// not blank.
pub open spec fn srt_text_line(line: Seq<char>) -> bool {
    !contains_seq(line, "-->"@) && !parses_u32(trim(line)) && trim(line).len() > 0
}

/// The text lines of a SubRip reply, in order.
pub open spec fn srt_text_lines(ls: Seq<Seq<char>>) -> Seq<Seq<char>>
    decreases ls.len(),
{
    if ls.len() == 0 {
        ls
    } else {
        let r = srt_text_lines(ls.drop_last());
        if srt_text_line(ls.last()) {
            r.push(ls.last())
        } else {
            r
        }
    }
}

/// The text of a SubRip reply: its text lines joined with spaces.
pub open spec fn srt_plain(s: Seq<char>) -> Seq<char> {
    join(srt_text_lines(lines(s)), " "@)
}

/// The text of a SubRip reply; fails when there is none.
pub fn process_srt_response(srt_text: &str) -> (r: Result<String, VoiceError>)
    ensures
        trim(srt_plain(srt_text@)).len() > 0 ==> (r matches Ok(t) && t@ == srt_plain(srt_text@)),
        trim(srt_plain(srt_text@)).len() == 0 ==> (r matches Err(e) && (e matches VoiceError::Other(m)
            && m@ == "SRT processing resulted in empty text"@)),
{
    let s = chars_of(srt_text);
    let ls = lines_exec(s.as_slice());
    let mut arrow: Vec<char> = Vec::new();
    push_str(&mut arrow, "-->");
    let mut kept: Vec<Vec<char>> = Vec::new();
    let mut i: usize = 0;
    while i < ls.len()
        invariant
            i <= ls@.len(),
            arrow@ == "-->"@,
            views(kept@) == srt_text_lines(views(ls@).take(i as int)),
        decreases ls@.len() - i,
    {
        let line = &ls[i];
        let t = trim_chars(line.as_slice());
        let keep = !contains_exec(line.as_slice(), arrow.as_slice()) && parse_u32(t.as_slice()).is_none()
            && t.len() > 0;
        proof {
            assert(views(ls@).take(i + 1).drop_last() =~= views(ls@).take(i as int));
            assert(views(ls@).take(i + 1).last() == ls@[i as int]@);
        }
        if keep {
            let ghost before = kept@;
            kept.push(line.clone());
            assert(views(kept@) =~= views(before).push(ls@[i as int]@));
        }
        i = i + 1;
    }
    assert(views(ls@).take(ls@.len() as int) =~= views(ls@));
    let mut sep: Vec<char> = Vec::new();
    push_str(&mut sep, " ");
    let joined = join_exec(&kept, sep.as_slice());
    let t = trim_chars(joined.as_slice());
    if t.len() == 0 {
        Err(VoiceError::Other(String::from_str("SRT processing resulted in empty text")))
    } else {
        Ok(string_of(joined.as_slice()))
    }
}

/// The text of a JSON reply of the local recogniser: `text`; else `data` when `code` is
/// 0; else the `text` of the first item of a `result` array; else the first of
/// `transcription`, `result`, `output`, `content` that is a string; else nothing.  A
/// reply that does not start with `{` is taken as plain text, trimmed.
pub open spec fn local_json_text(s: Seq<char>) -> Seq<char> {
    if !starts_with(trim(s), "{"@) {
        trim(s)
    } else if json_pointer_at(s, "/text"@) is Str {
        json_pointer_at(s, "/text"@)->Str_0
    } else if json_pointer_at(s, "/code"@) == JsonAt::Int(0) && json_pointer_at(s, "/data"@) is Str {
        json_pointer_at(s, "/data"@)->Str_0
    } else if json_pointer_at(s, "/result"@) matches JsonAt::Array(n) && n > 0 && json_pointer_at(
        s,
        "/result/0/text"@,
    ) is Str {
        json_pointer_at(s, "/result/0/text"@)->Str_0
    } else if json_pointer_at(s, "/transcription"@) is Str {
        json_pointer_at(s, "/transcription"@)->Str_0
    } else if json_pointer_at(s, "/result"@) is Str {
        json_pointer_at(s, "/result"@)->Str_0
    } else if json_pointer_at(s, "/output"@) is Str {
        json_pointer_at(s, "/output"@)->Str_0
    } else if json_pointer_at(s, "/content"@) is Str {
        json_pointer_at(s, "/content"@)->Str_0
    } else {
        Seq::<char>::empty()
    }
}

/// A JSON reply holds its text at `"/text"`, at `"/data"` with code 0, at the first item
/// of a `"/result"` array, or at one of `"/transcription"`, `"/result"`, `"/output"`,
/// `"/content"`.
pub open spec fn earlier_text_field(s: Seq<char>) -> bool {
    ||| json_pointer_at(s, "/text"@) is Str
    ||| json_pointer_at(s, "/code"@) == JsonAt::Int(0) && json_pointer_at(s, "/data"@) is Str
    ||| json_pointer_at(s, "/result"@) matches JsonAt::Array(n) && n > 0 && json_pointer_at(
        s,
        "/result/0/text"@,
    ) is Str
}

/// The text read from a JSON reply of the local recogniser is the string found at the
/// first of its documented places that holds one: `text`; `data` under code 0; the
/// `text` of the first `result` item; then `transcription`, `result`, `output` and
/// `content`. It is empty only when none of them holds a string, or when that string is
/// empty.
pub proof fn lemma_local_json_fields(s: Seq<char>)
    requires
        starts_with(trim(s), "{"@),
    ensures
        json_pointer_at(s, "/text"@) is Str ==> local_json_text(s) == json_pointer_at(s, "/text"@)->Str_0,
        (!(json_pointer_at(s, "/text"@) is Str) && json_pointer_at(s, "/code"@) == JsonAt::Int(0)
            && json_pointer_at(s, "/data"@) is Str) ==> local_json_text(s) == json_pointer_at(
            s,
            "/data"@,
        )->Str_0,
        (!earlier_text_field(s) && json_pointer_at(s, "/transcription"@) is Str) ==> local_json_text(s)
            == json_pointer_at(s, "/transcription"@)->Str_0,
        (!earlier_text_field(s) && !(json_pointer_at(s, "/transcription"@) is Str) && json_pointer_at(
            s,
            "/result"@,
        ) is Str) ==> local_json_text(s) == json_pointer_at(s, "/result"@)->Str_0,
        (!earlier_text_field(s) && !(json_pointer_at(s, "/transcription"@) is Str) && !(
        json_pointer_at(s, "/result"@) is Str) && json_pointer_at(s, "/output"@) is Str)
            ==> local_json_text(s) == json_pointer_at(s, "/output"@)->Str_0,
        (!earlier_text_field(s) && !(json_pointer_at(s, "/transcription"@) is Str) && !(
        json_pointer_at(s, "/result"@) is Str) && !(json_pointer_at(s, "/output"@) is Str)
            && json_pointer_at(s, "/content"@) is Str) ==> local_json_text(s) == json_pointer_at(
            s,
            "/content"@,
        )->Str_0,
        local_json_text(s).len() > 0 ==> earlier_text_field(s) || json_pointer_at(s, "/transcription"@) is Str
            || json_pointer_at(s, "/result"@) is Str || json_pointer_at(s, "/output"@) is Str
            || json_pointer_at(s, "/content"@) is Str,
{
}

fn trimmed_string(s: &str) -> (r: String)
    ensures
        r@ == trim(s@),
{
    let t = trim_chars(chars_of(s).as_slice());
    string_of(t.as_slice())
}

fn starts_with_brace(s: &str) -> (b: bool)
    ensures
        b == starts_with(trim(s@), "{"@),
{
    let t = trim_chars(chars_of(s).as_slice());
    proof {
        reveal_strlit("{");
    }
    if t.len() > 0 && t[0] == '{' {
        assert(t@.subrange(0, 1) =~= "{"@);
        true
    } else {
        if t.len() > 0 {
            assert(t@.subrange(0, 1)[0] == t@[0]);
            assert("{"@[0] == '{');
        }
        false
    }
}

/// The text of a JSON reply of the local recogniser.
pub fn process_json_response(response_text: &str) -> (r: Result<String, VoiceError>)
    ensures
        r matches Ok(t) && t@ == local_json_text(response_text@),
{
    if !starts_with_brace(response_text) {
        return Ok(trimmed_string(response_text));
    }
    if let JsonFound::Str(t) = json_lookup(response_text, "/text") {
        return Ok(t);
    }
    let code = json_lookup(response_text, "/code");
    let data = json_lookup(response_text, "/data");
    if let JsonFound::Int(c) = code {
        if c == 0 {
            if let JsonFound::Str(d) = data {
                return Ok(d);
            }
        }
    }
    if let JsonFound::Array(n) = json_lookup(response_text, "/result") {
        if n > 0 {
            if let JsonFound::Str(t) = json_lookup(response_text, "/result/0/text") {
                return Ok(t);
            }
        }
    }
    if let JsonFound::Str(t) = json_lookup(response_text, "/transcription") {
        return Ok(t);
    }
    if let JsonFound::Str(t) = json_lookup(response_text, "/result") {
        return Ok(t);
    }
    if let JsonFound::Str(t) = json_lookup(response_text, "/output") {
        return Ok(t);
    }
    if let JsonFound::Str(t) = json_lookup(response_text, "/content") {
        return Ok(t);
    }
    Ok(String::new())
}


/// The reply formats the local recogniser is asked for, in order.
pub open spec fn local_format(i: int) -> Seq<char> {
    if i == 0 {
        "srt"@
    } else if i == 1 {
        "json"@
    } else {
        "text"@
    }
}

/// The text of a reply of the local recogniser in a format: JSON replies read as such;
/// SubRip replies either plain or wrapped in JSON as `data`; anything else trimmed.
pub open spec fn local_reply(text: Seq<char>, format: Seq<char>) -> Result<Seq<char>, Seq<char>> {
    if format == "json"@ {
        Ok(local_json_text(text))
    } else if format == "srt"@ {
        let inner = if starts_with(trim(text), "{"@) && json_pointer_at(text, "/data"@) is Str {
            json_pointer_at(text, "/data"@)->Str_0
        } else {
            text
        };
        if trim(srt_plain(inner)).len() > 0 {
            Ok(srt_plain(inner))
        } else {
            Err("SRT processing resulted in empty text"@)
        }
    } else {
        Ok(trim(text))
    }
}

/// The text of a reply of the local recogniser in the given format.
pub fn process_response(response_text: &str, format: &str) -> (r: Result<String, VoiceError>)
    ensures
        match local_reply(response_text@, format@) {
            Ok(t) => r matches Ok(s) && s@ == t,
            Err(m) => r matches Err(e) && (e matches VoiceError::Other(x) && x@ == m),
        },
{
    if str_eq(format, "json") {
        process_json_response(response_text)
    } else if str_eq(format, "srt") {
        if starts_with_brace(response_text) {
            if let JsonFound::Str(d) = json_lookup(response_text, "/data") {
                return process_srt_response(d.as_str());
            }
        }
        process_srt_response(response_text)
    } else {
        Ok(trimmed_string(response_text))
    }
}

/// What to do after one request to the local recogniser.
pub enum LocalAsrNext {
    /// Ask again, for the reply format at this position.
    TryFormat(usize),
    /// Stop with this outcome.
    Done(Result<String, VoiceError>),
}

/// The language the local recogniser is asked for: detected when transcribing, English
/// when translating.
pub fn local_language(mode: Mode) -> (r: &'static str)
    ensures
        r@ == (if mode == Mode::Transcriptions {
            "auto"@
        } else {
            "en"@
        }),
{
    match mode {
        Mode::Transcriptions => "auto",
        Mode::Translations => "en",
    }
}

/// The reply format at a position: `"srt"`, then `"json"`, then `"text"`.
pub fn local_format_name(i: usize) -> (r: &'static str)
    requires
        i < 3,
    ensures
        r@ == local_format(i as int),
{
    if i == 0 {
        "srt"
    } else if i == 1 {
        "json"
    } else {
        "text"
    }
}

/// The next step after asking the local recogniser for the format at position `i`: a
/// reply with text ends the attempts; a reply that cannot be read ends them with its
/// error; an empty reply or a failed request moves on to the next format, and after the
/// last format every format has failed.
pub fn local_asr_step(i: usize, reply: Result<String, VoiceError>) -> (r: LocalAsrNext)
    requires
        i < 3,
    ensures
        match reply {
            Ok(text) => match local_reply(text@, local_format(i as int)) {
                Err(m) => r matches LocalAsrNext::Done(Err(e)) && (e matches VoiceError::Other(x) && x@ == m),
                Ok(t) => if t.len() > 0 {
                    r matches LocalAsrNext::Done(Ok(s)) && s@ == t
                } else if i + 1 < 3 {
                    r matches LocalAsrNext::TryFormat(j) && j == i + 1
                } else {
                    r matches LocalAsrNext::Done(Err(e)) && (e matches VoiceError::Other(x) && x@
                        == "All response formats failed"@)
                },
            },
            Err(_) => if i + 1 < 3 {
                r matches LocalAsrNext::TryFormat(j) && j == i + 1
            } else {
                r matches LocalAsrNext::Done(Err(e)) && (e matches VoiceError::Other(x) && x@
                    == "All response formats failed"@)
            },
        },
{
    if let Ok(text) = reply {
        match process_response(text.as_str(), local_format_name(i)) {
            Err(e) => {
                return LocalAsrNext::Done(Err(e));
            },
            Ok(p) => {
                if !p.as_str().is_empty() {
                    return LocalAsrNext::Done(Ok(p));
                }
            },
        }
    }
    if i + 1 < 3 {
        LocalAsrNext::TryFormat(i + 1)
    } else {
        LocalAsrNext::Done(Err(VoiceError::Other(String::from_str("All response formats failed"))))
    }
}

/// The error for a service that answered with an HTTP error: the service, the status
/// (as `"404 Not Found"`) and the reply's text.
pub fn api_error(service: &str, status: &str, error_text: &str) -> (e: VoiceError)
    ensures
        e matches VoiceError::Other(m) && m@ == service@ + " API error: "@ + status@ + " - "@
            + error_text@,
{
    let mut m: Vec<char> = Vec::new();
    push_str(&mut m, service);
    push_str(&mut m, " API error: ");
    push_str(&mut m, status);
    push_str(&mut m, " - ");
    push_str(&mut m, error_text);
    VoiceError::Other(string_of(m.as_slice()))
}

/// The error for the local recogniser answering a format with an HTTP error.
pub fn local_api_error(format: &str, status: &str, error_text: &str) -> (e: VoiceError)
    ensures
        e matches VoiceError::Other(m) && m@ == "Local ASR API error ("@ + format@ + " format): "@
            + status@ + " - "@ + error_text@,
{
    let mut m: Vec<char> = Vec::new();
    push_str(&mut m, "Local ASR API error (");
    push_str(&mut m, format);
    push_str(&mut m, " format): ");
    push_str(&mut m, status);
    push_str(&mut m, " - ");
    push_str(&mut m, error_text);
    VoiceError::Other(string_of(m.as_slice()))
}

/// The error for a reply that is not JSON.
pub open spec fn undecodable(e: VoiceError) -> bool {
    e matches VoiceError::Network(m) && m@ == "error decoding response body"@
}

/// The string at a pointer of a JSON reply, trimmed; the reply not being JSON is a
/// network error, and no string there is the given error.
pub open spec fn reply_string(text: Seq<char>, pointer: Seq<char>, missing: Seq<char>, trimmed: bool, r: Result<String, VoiceError>) -> bool {
    match json_pointer_at(text, pointer) {
        JsonAt::Invalid => r matches Err(e) && undecodable(e),
        JsonAt::Str(s) => r matches Ok(t) && t@ == if trimmed {
            trim(s)
        } else {
            s
        },
        _ => r matches Err(e) && (e matches VoiceError::Other(m) && m@ == missing),
    }
}

fn string_at(text: &str, pointer: &str, missing: &str, trimmed: bool) -> (r: Result<String, VoiceError>)
    ensures
        reply_string(text@, pointer@, missing@, trimmed, r),
{
    match json_lookup(text, pointer) {
        JsonFound::Invalid => Err(VoiceError::Network(String::from_str("error decoding response body"))),
        JsonFound::Str(s) => if trimmed {
            Ok(trimmed_string(s.as_str()))
        } else {
            Ok(s)
        },
        _ => Err(VoiceError::Other(String::from_str(missing))),
    }
}

/// The translation in a reply of the Ollama service: `message.content`, trimmed.
pub fn ollama_translation(body: &str) -> (r: Result<String, VoiceError>)
    ensures
        reply_string(body@, "/message/content"@, "No translation content in Ollama response"@, true, r),
{
    string_at(body, "/message/content", "No translation content in Ollama response", true)
}

/// The translation in a reply of the SiliconFlow service: the first choice's
/// `message.content`, trimmed.
pub fn siliconflow_translation(body: &str) -> (r: Result<String, VoiceError>)
    ensures
        reply_string(
            body@,
            "/choices/0/message/content"@,
            "No translation content in SiliconFlow response"@,
            true,
            r,
        ),
{
    string_at(body, "/choices/0/message/content", "No translation content in SiliconFlow response", true)
}

/// The corrected text in a reply of the DeepSeek service: the first choice's
/// `message.content`, trimmed.
pub fn deepseek_correction(body: &str) -> (r: Result<String, VoiceError>)
    ensures
        reply_string(
            body@,
            "/choices/0/message/content"@,
            "No correction content in DeepSeek response"@,
            true,
            r,
        ),
{
    string_at(body, "/choices/0/message/content", "No correction content in DeepSeek response", true)
}

/// The transcription in a reply of the SenseVoice service: `text`.
pub fn sensevoice_transcription(body: &str) -> (r: Result<String, VoiceError>)
    ensures
        reply_string(body@, "/text"@, "No text in SenseVoice response"@, false, r),
{
    string_at(body, "/text", "No text in SenseVoice response", false)
}

/// The transcription in a reply of the cloud Whisper service: `text`.
pub fn whisper_transcription(body: &str) -> (r: Result<String, VoiceError>)
    ensures
        reply_string(body@, "/text"@, "No text in Whisper response"@, false, r),
{
    string_at(body, "/text", "No text in Whisper response", false)
}

/// The cloud Whisper model for a mode.
pub fn whisper_model(mode: Mode) -> (r: &'static str)
    ensures
        r@ == (if mode == Mode::Transcriptions {
            "whisper-large-v3-turbo"@
        } else {
            "whisper-large-v3"@
        }),
{
    match mode {
        Mode::Transcriptions => "whisper-large-v3-turbo",
        Mode::Translations => "whisper-large-v3",
    }
}

/// The text the cloud Whisper service's transcription is turned into: with
/// `optimize_result`, its words joined by single spaces; otherwise as it came.  (Adding
/// punctuation and converting to simplified characters leave the text as it is.)
pub fn whisper_result_text(text: &str, optimize_result: bool) -> (r: String)
    ensures
        r@ == (if optimize_result {
            collapse_ws(text@)
        } else {
            text@
        }),
{
    if optimize_result {
        let c = chars_of(text);
        let out = collapse_whitespace(c.as_slice());
        string_of(out.as_slice())
    } else {
        String::from_str(text)
    }
}

/// The cloud Whisper address for a mode.
pub fn whisper_url(base_url: &str, mode: Mode) -> (r: String)
    ensures
        r@ == base_url@ + "/openai/v1/audio/"@ + (if mode == Mode::Translations {
            "translations"@
        } else {
            "transcriptions"@
        }),
{
    let mut out: Vec<char> = Vec::new();
    push_str(&mut out, base_url);
    push_str(&mut out, "/openai/v1/audio/");
    match mode {
        Mode::Translations => push_str(&mut out, "translations"),
        Mode::Transcriptions => push_str(&mut out, "transcriptions"),
    }
    string_of(out.as_slice())
}


/// The health address of a recogniser: its `/inference` address turned into `/health`,
/// or `health` appended to an address ending in a slash, or `/health` appended.
pub open spec fn health_endpoint(endpoint: Seq<char>) -> Seq<char> {
    if ends_with(endpoint, "/inference"@) {
        replace_all(endpoint, "/inference"@, "/health"@)
    } else if ends_with(endpoint, "/inference/"@) {
        endpoint + "health"@
    } else if ends_with(endpoint, "/"@) {
        endpoint + "health"@
    } else {
        endpoint + "/health"@
    }
}

/// The health address of a recogniser.
pub fn health_endpoint_for(endpoint: &str) -> (r: String)
    ensures
        r@ == health_endpoint(endpoint@),
{
    let e = chars_of(endpoint);
    let mut inf: Vec<char> = Vec::new();
    push_str(&mut inf, "/inference");
    let mut inf_slash: Vec<char> = Vec::new();
    push_str(&mut inf_slash, "/inference/");
    let mut slash: Vec<char> = Vec::new();
    push_str(&mut slash, "/");
    if ends_with_exec(e.as_slice(), inf.as_slice()) {
        let mut health: Vec<char> = Vec::new();
        push_str(&mut health, "/health");
        proof {
            reveal_strlit("/inference");
        }
        let r = replace_all_exec(e.as_slice(), inf.as_slice(), health.as_slice());
        string_of(r.as_slice())
    } else {
        let mut out = e.clone();
        if ends_with_exec(e.as_slice(), inf_slash.as_slice()) || ends_with_exec(e.as_slice(), slash.as_slice()) {
            push_str(&mut out, "health");
        } else {
            push_str(&mut out, "/health");
        }
        string_of(out.as_slice())
    }
}

/// What came back from the health address.
pub enum HealthReply {
    /// The request failed, with this error.
    NetworkError(String),
    /// An HTTP answer: its code, whether it is a success, its status as `"200 OK"`, and
    /// its body.
    Http { code: u16, success: bool, status: String, body: String },
}

/// The number of backends a healthy reply reports, 0 when it does not say.
pub open spec fn backend_count(body: Seq<char>) -> nat {
    match json_pointer_at(body, "/total_backends"@) {
        JsonAt::Int(n) => if 0 <= n <= u64::MAX {
            n as nat
        } else {
            0
        },
        _ => 0,
    }
}

/// `r` answers a health check of `endpoint` that got `reply`: healthy exactly when the
/// answer is a success whose JSON `status` is `"healthy"`; the message says why.
pub open spec fn health_verdict(endpoint: Seq<char>, reply: HealthReply, r: HealthCheckResponse) -> bool {
    &&& r.endpoint@ == endpoint
    &&& match reply {
        HealthReply::NetworkError(e) => !r.healthy && r.status_code is None && r.message@ == "Network error: "@ + e@,
        HealthReply::Http { code, success, status, body } => {
            &&& r.status_code == Some(code)
            &&& if !success {
                !r.healthy && r.message@ == "HTTP "@ + status@ + " - "@ + body@
            } else if json_parse_error(body@) is Some {
                !r.healthy && r.message@ == "Invalid JSON response: "@ + json_parse_error(body@)->0
            } else if json_pointer_at(body@, "/status"@) == JsonAt::Str("healthy"@) {
                r.healthy && r.message@ == "Service healthy - "@ + decimal(backend_count(body@)) + " backends"@
            } else {
                !r.healthy && r.message@ == "Service status: "@ + match json_pointer_at(body@, "/status"@) {
                    JsonAt::Str(s) => s,
                    _ => "unknown"@,
                }
            }
        },
    }
}

fn health_response(endpoint: &str, healthy: bool, code: Option<u16>, message: Vec<char>, response_time_ms: u64, timestamp: &str) -> (r: HealthCheckResponse)
    ensures
        r.endpoint@ == endpoint@,
        r.healthy == healthy,
        r.status_code == code,
        r.message@ == message@,
        r.response_time_ms == response_time_ms,
        r.timestamp@ == timestamp@,
{
    HealthCheckResponse {
        endpoint: String::from_str(endpoint),
        healthy,
        response_time_ms,
        status_code: code,
        message: string_of(message.as_slice()),
        timestamp: String::from_str(timestamp),
    }
}

/// The health check's answer for what came back, timed and stamped.
pub fn evaluate_health(endpoint: &str, reply: HealthReply, response_time_ms: u64, timestamp: &str) -> (r: HealthCheckResponse)
    ensures
        health_verdict(endpoint@, reply, r),
        r.response_time_ms == response_time_ms,
        r.timestamp@ == timestamp@,
{
    match reply {
        HealthReply::NetworkError(e) => {
            let mut m: Vec<char> = Vec::new();
            push_str(&mut m, "Network error: ");
            push_str(&mut m, e.as_str());
            health_response(endpoint, false, None, m, response_time_ms, timestamp)
        },
        HealthReply::Http { code, success, status, body } => {
            let mut m: Vec<char> = Vec::new();
            if !success {
                push_str(&mut m, "HTTP ");
                push_str(&mut m, status.as_str());
                push_str(&mut m, " - ");
                push_str(&mut m, body.as_str());
                return health_response(endpoint, false, Some(code), m, response_time_ms, timestamp);
            }
            if let Some(e) = json_error(body.as_str()) {
                push_str(&mut m, "Invalid JSON response: ");
                push_str(&mut m, e.as_str());
                return health_response(endpoint, false, Some(code), m, response_time_ms, timestamp);
            }
            let st = json_lookup(body.as_str(), "/status");
            let healthy = match &st {
                JsonFound::Str(s) => str_eq(s.as_str(), "healthy"),
                _ => false,
            };
            if healthy {
                let n: u64 = match json_lookup(body.as_str(), "/total_backends") {
                    JsonFound::Int(v) => if v >= 0 && v <= 18446744073709551615 {
                        v as u64
                    } else {
                        0
                    },
                    _ => 0,
                };
                push_str(&mut m, "Service healthy - ");
                push_decimal(&mut m, n);
                push_str(&mut m, " backends");
                health_response(endpoint, true, Some(code), m, response_time_ms, timestamp)
            } else {
                push_str(&mut m, "Service status: ");
                match &st {
                    JsonFound::Str(s) => push_str(&mut m, s.as_str()),
                    _ => push_str(&mut m, "unknown"),
                }
                health_response(endpoint, false, Some(code), m, response_time_ms, timestamp)
            }
        },
    }
}

/// An API key as sent: trimmed, without an `API_KEY=` prefix.
pub open spec fn clean_key(key: Seq<char>) -> Seq<char> {
    let t = trim(key);
    if starts_with(t, "API_KEY="@) {
        t.skip(8)
    } else {
        t
    }
}

/// Cleans an API key.
pub fn clean_api_key(api_key: Option<&str>) -> (r: Option<String>)
    ensures
        match api_key {
            Some(k) => r matches Some(c) && c@ == clean_key(k@),
            None => r is None,
        },
{
    match api_key {
        Some(k) => {
            let t = trim_chars(chars_of(k).as_slice());
            let mut prefix: Vec<char> = Vec::new();
            push_str(&mut prefix, "API_KEY=");
            proof {
                reveal_strlit("API_KEY=");
            }
            if starts_with_exec(t.as_slice(), prefix.as_slice()) {
                let rest = vstd::slice::slice_subrange(t.as_slice(), 8, t.len());
                assert(rest@ =~= t@.skip(8));
                Some(string_of(rest))
            } else {
                Some(string_of(t.as_slice()))
            }
        },
        None => None,
    }
}

/// The transcription in a cloud recogniser's reply: `data`, `text`, `transcription` or
/// `result` when a string; `result.text` when `result` is there; a description of the
/// whole reply when that is missing; the reply itself when it names none of these or is
/// not JSON.
pub open spec fn cloud_transcription(body: Seq<char>) -> Seq<char> {
    if json_pointer_at(body, ""@) is Invalid {
        body
    } else if json_pointer_at(body, "/data"@) is Str {
        json_pointer_at(body, "/data"@)->Str_0
    } else if json_pointer_at(body, "/text"@) is Str {
        json_pointer_at(body, "/text"@)->Str_0
    } else if json_pointer_at(body, "/transcription"@) is Str {
        json_pointer_at(body, "/transcription"@)->Str_0
    } else if json_pointer_at(body, "/result"@) is Str {
        json_pointer_at(body, "/result"@)->Str_0
    } else if !(json_pointer_at(body, "/result"@) is Missing) {
        if json_pointer_at(body, "/result/text"@) is Str {
            json_pointer_at(body, "/result/text"@)->Str_0
        } else {
            "Complex response: "@ + match json_compact_text(body) {
                Some(c) => c,
                None => body,
            }
        }
    } else {
        body
    }
}

/// The text read from a cloud recogniser's reply is the string at the first of `data`,
/// `text`, `transcription` and `result` that holds one; failing those, `result.text`; a
/// reply that is not JSON, or names none of these, is taken whole.
pub proof fn lemma_cloud_fields(body: Seq<char>)
    ensures
        json_pointer_at(body, ""@) is Invalid ==> cloud_transcription(body) == body,
        (!(json_pointer_at(body, ""@) is Invalid) && json_pointer_at(body, "/data"@) is Str)
            ==> cloud_transcription(body) == json_pointer_at(body, "/data"@)->Str_0,
        (!(json_pointer_at(body, ""@) is Invalid) && !(json_pointer_at(body, "/data"@) is Str)
            && json_pointer_at(body, "/text"@) is Str) ==> cloud_transcription(body)
            == json_pointer_at(body, "/text"@)->Str_0,
        (!(json_pointer_at(body, ""@) is Invalid) && !(json_pointer_at(body, "/data"@) is Str)
            && !(json_pointer_at(body, "/text"@) is Str) && json_pointer_at(body, "/transcription"@)
            is Str) ==> cloud_transcription(body) == json_pointer_at(body, "/transcription"@)->Str_0,
        (!(json_pointer_at(body, ""@) is Invalid) && !(json_pointer_at(body, "/data"@) is Str)
            && !(json_pointer_at(body, "/text"@) is Str) && !(json_pointer_at(
            body,
            "/transcription"@,
        ) is Str) && json_pointer_at(body, "/result"@) is Str) ==> cloud_transcription(body)
            == json_pointer_at(body, "/result"@)->Str_0,
        (!(json_pointer_at(body, ""@) is Invalid) && !(json_pointer_at(body, "/data"@) is Str)
            && !(json_pointer_at(body, "/text"@) is Str) && !(json_pointer_at(
            body,
            "/transcription"@,
        ) is Str) && !(json_pointer_at(body, "/result"@) is Str) && json_pointer_at(
            body,
            "/result/text"@,
        ) is Str && !(json_pointer_at(body, "/result"@) is Missing)) ==> cloud_transcription(body)
            == json_pointer_at(body, "/result/text"@)->Str_0,
        (json_pointer_at(body, "/data"@) is Missing && json_pointer_at(body, "/text"@) is Missing
            && json_pointer_at(body, "/transcription"@) is Missing && json_pointer_at(
            body,
            "/result"@,
        ) is Missing) ==> cloud_transcription(body) == body,
{
}

/// The transcription in a cloud recogniser's reply.
pub fn extract_cloud_transcription(body: &str) -> (r: String)
    ensures
        r@ == cloud_transcription(body@),
{
    if let JsonFound::Invalid = json_lookup(body, "") {
        return String::from_str(body);
    }
    if let JsonFound::Str(s) = json_lookup(body, "/data") {
        return s;
    }
    if let JsonFound::Str(s) = json_lookup(body, "/text") {
        return s;
    }
    if let JsonFound::Str(s) = json_lookup(body, "/transcription") {
        return s;
    }
    let result = json_lookup(body, "/result");
    if let JsonFound::Str(s) = result {
        return s;
    }
    if let JsonFound::Missing = result {
        return String::from_str(body);
    }
    if let JsonFound::Str(s) = json_lookup(body, "/result/text") {
        return s;
    }
    let mut m: Vec<char> = Vec::new();
    push_str(&mut m, "Complex response: ");
    match json_compact(body) {
        Some(c) => push_str(&mut m, c.as_str()),
        None => push_str(&mut m, body),
    }
    string_of(m.as_slice())
}


/// What `base64`'s standard engine decodes a text to, or its error message.
pub uninterp spec fn base64_decoded(text: Seq<char>) -> Result<Seq<u8>, Seq<char>>;

/// Decodes standard base64.
///
/// Calls `base64::engine::general_purpose::STANDARD.decode` on the text's bytes and gives
/// the bytes, or the `Display` text of the `DecodeError`; the result depends on the text
/// alone.
#[verifier::external_body]
fn decode_base64(text: &str) -> (r: Result<Vec<u8>, String>)
    ensures
        match r {
            Ok(v) => base64_decoded(text@) == Ok::<Seq<u8>, Seq<char>>(v@),
            Err(e) => base64_decoded(text@) == Err::<Seq<u8>, Seq<char>>(e@),
        },
{
    match base64::engine::general_purpose::STANDARD.decode(text) {
        Ok(v) => Ok(v),
        Err(e) => Err(e.to_string()),
    }
}

/// The largest test recording accepted, in bytes (2 MiB).
pub const MAX_TEST_FILE_SIZE: u64 = 2097152;

/// What transcribing a test recording comes to before any recogniser runs.
pub enum AsrTestPlan {
    /// Answer at once.
    Reply(AsrTestResponse),
    /// Transcribe with the local recogniser.
    Local { audio: Vec<u8>, file_size: u64 },
    /// Transcribe with a cloud recogniser.
    Cloud { audio: Vec<u8>, file_size: u64, endpoint: String, api_key: Option<String> },
}

/// A failed test answer.
pub open spec fn failed_test(r: AsrTestResponse, file_size: u64, message: Seq<char>, elapsed_ms: u64) -> bool {
    &&& !r.success
    &&& r.transcription is None
    &&& r.processing_time_ms == elapsed_ms
    &&& r.file_size == file_size
    &&& r.message@ == message
    &&& r.status_code is None
}

fn failure(file_size: u64, message: Vec<char>, elapsed_ms: u64) -> (r: AsrTestResponse)
    ensures
        failed_test(r, file_size, message@, elapsed_ms),
{
    AsrTestResponse {
        success: false,
        transcription: None,
        processing_time_ms: elapsed_ms,
        file_size,
        message: string_of(message.as_slice()),
        status_code: None,
    }
}

/// Plans a test transcription: the recording is decoded from base64 and may be at most
/// 2 MiB; the `"local"` provider uses the local recogniser, `"cloud"` the configured
/// endpoint, and any other provider is refused.  `elapsed_ms` is the time taken so far.
pub fn plan_asr_test(request: AsrTestRequest, elapsed_ms: u64) -> (r: AsrTestPlan)
    ensures
        match base64_decoded(request.audio_file_data@) {
            Err(e) => r matches AsrTestPlan::Reply(resp) && failed_test(resp, 0, "Failed to decode base64 data: "@ + e, elapsed_ms),
            Ok(bytes) => if bytes.len() > MAX_TEST_FILE_SIZE {
                r matches AsrTestPlan::Reply(resp) && failed_test(
                    resp,
                    bytes.len() as u64,
                    "File too large: "@ + decimal(bytes.len()) + " bytes (max: 2097152 bytes)"@,
                    elapsed_ms,
                )
            } else if request.service_provider@ == "local"@ {
                r matches AsrTestPlan::Local { audio, file_size } && audio@ == bytes && file_size == bytes.len()
            } else if request.service_provider@ == "cloud"@ {
                match request.endpoint {
                    Some(ep) => r matches AsrTestPlan::Cloud { audio, file_size, endpoint, api_key } && audio@ == bytes
                        && file_size == bytes.len() && endpoint@ == ep@ && api_key == request.api_key,
                    None => r matches AsrTestPlan::Reply(resp) && failed_test(
                        resp,
                        bytes.len() as u64,
                        "No endpoint configured for Cloud ASR"@,
                        elapsed_ms,
                    ),
                }
            } else {
                r matches AsrTestPlan::Reply(resp) && failed_test(
                    resp,
                    bytes.len() as u64,
                    "Unknown service provider: "@ + request.service_provider@,
                    elapsed_ms,
                )
            },
        },
{
    let audio = match decode_base64(request.audio_file_data.as_str()) {
        Ok(v) => v,
        Err(e) => {
            let mut m: Vec<char> = Vec::new();
            push_str(&mut m, "Failed to decode base64 data: ");
            push_str(&mut m, e.as_str());
            return AsrTestPlan::Reply(failure(0, m, elapsed_ms));
        },
    };
    let file_size = audio.len() as u64;
    if file_size > MAX_TEST_FILE_SIZE {
        let mut m: Vec<char> = Vec::new();
        push_str(&mut m, "File too large: ");
        push_decimal(&mut m, file_size);
        push_str(&mut m, " bytes (max: 2097152 bytes)");
        return AsrTestPlan::Reply(failure(file_size, m, elapsed_ms));
    }
    if str_eq(request.service_provider.as_str(), "local") {
        AsrTestPlan::Local { audio, file_size }
    } else if str_eq(request.service_provider.as_str(), "cloud") {
        match request.endpoint {
            Some(endpoint) => AsrTestPlan::Cloud { audio, file_size, endpoint, api_key: request.api_key },
            None => {
                let mut m: Vec<char> = Vec::new();
                push_str(&mut m, "No endpoint configured for Cloud ASR");
                AsrTestPlan::Reply(failure(file_size, m, elapsed_ms))
            },
        }
    } else {
        let mut m: Vec<char> = Vec::new();
        push_str(&mut m, "Unknown service provider: ");
        push_str(&mut m, request.service_provider.as_str());
        AsrTestPlan::Reply(failure(file_size, m, elapsed_ms))
    }
}

/// What came back from a cloud recogniser.
pub enum CloudReply {
    /// The request failed, with this error.
    RequestFailed(String),
    /// An HTTP error: its code, its status as `"500 Internal Server Error"`, and its text.
    HttpError { code: u16, status: String, text: String },
    /// A success whose body could not be read, with this error.
    ReadFailed { code: u16, error: String },
    /// A success with this body.
    Body { code: u16, body: String },
}

/// The test answer for a cloud recogniser's reply.
pub fn cloud_test_response(reply: CloudReply, file_size: u64, elapsed_ms: u64) -> (r: AsrTestResponse)
    ensures
        r.file_size == file_size,
        r.processing_time_ms == elapsed_ms,
        match reply {
            CloudReply::RequestFailed(e) => failed_test(r, file_size, "HTTP request failed: "@ + e@, elapsed_ms),
            CloudReply::HttpError { code, status, text } => !r.success && r.transcription is None
                && r.status_code == Some(code) && r.message@ == "HTTP "@ + status@ + " - "@ + text@,
            CloudReply::ReadFailed { code, error } => !r.success && r.transcription is None
                && r.status_code == Some(code) && r.message@ == "Failed to read response: "@ + error@,
            CloudReply::Body { code, body } => r.success && (r.transcription matches Some(t) && t@
                == cloud_transcription(body@)) && r.status_code == Some(code) && r.message@
                == "Cloud ASR transcription completed successfully"@,
        },
{
    match reply {
        CloudReply::RequestFailed(e) => {
            let mut m: Vec<char> = Vec::new();
            push_str(&mut m, "HTTP request failed: ");
            push_str(&mut m, e.as_str());
            failure(file_size, m, elapsed_ms)
        },
        CloudReply::HttpError { code, status, text } => {
            let mut m: Vec<char> = Vec::new();
            push_str(&mut m, "HTTP ");
            push_str(&mut m, status.as_str());
            push_str(&mut m, " - ");
            push_str(&mut m, text.as_str());
            AsrTestResponse {
                success: false,
                transcription: None,
                processing_time_ms: elapsed_ms,
                file_size,
                message: string_of(m.as_slice()),
                status_code: Some(code),
            }
        },
        CloudReply::ReadFailed { code, error } => {
            let mut m: Vec<char> = Vec::new();
            push_str(&mut m, "Failed to read response: ");
            push_str(&mut m, error.as_str());
            AsrTestResponse {
                success: false,
                transcription: None,
                processing_time_ms: elapsed_ms,
                file_size,
                message: string_of(m.as_slice()),
                status_code: Some(code),
            }
        },
        CloudReply::Body { code, body } => AsrTestResponse {
            success: true,
            transcription: Some(extract_cloud_transcription(body.as_str())),
            processing_time_ms: elapsed_ms,
            file_size,
            message: String::from_str("Cloud ASR transcription completed successfully"),
            status_code: Some(code),
        },
    }
}

/// What follows the local recogniser's test.
pub enum LocalTestNext {
    /// Answer with this.
    Respond(AsrTestResponse),
    /// Fail with this error.
    Fail(String),
    /// Try the cloud recogniser at this endpoint.
    TryCloud(String),
}

/// After the local recogniser's test: a success stands; otherwise the cloud recogniser
/// configured for fallback is tried, if there is one, else the local outcome stands.
pub fn after_local_test(local: Result<AsrTestResponse, String>, fallback_endpoint: Option<String>) -> (r: LocalTestNext)
    ensures
        match local {
            Ok(resp) => if resp.success {
                r matches LocalTestNext::Respond(x) && x == resp
            } else {
                match fallback_endpoint {
                    Some(ep) => r matches LocalTestNext::TryCloud(e) && e@ == ep@,
                    None => r matches LocalTestNext::Respond(x) && x == resp,
                }
            },
            Err(msg) => match fallback_endpoint {
                Some(ep) => r matches LocalTestNext::TryCloud(e) && e@ == ep@,
                None => r matches LocalTestNext::Fail(m) && m@ == msg@,
            },
        },
{
    match local {
        Ok(resp) => {
            if resp.success {
                LocalTestNext::Respond(resp)
            } else {
                match fallback_endpoint {
                    Some(ep) => LocalTestNext::TryCloud(ep),
                    None => LocalTestNext::Respond(resp),
                }
            }
        },
        Err(msg) => match fallback_endpoint {
            Some(ep) => LocalTestNext::TryCloud(ep),
            None => LocalTestNext::Fail(msg),
        },
    }
}

/// The cloud recogniser that a failed local recognition falls back to: the endpoint and
/// key from `GROQ_API_ENDPOINT` and `GROQ_API_KEY`, when both are set.
pub fn cloud_fallback(endpoint: Option<String>, api_key: Option<String>) -> (r: Option<(String, String)>)
    ensures
        match (endpoint, api_key) {
            (Some(e), Some(k)) => r matches Some((x, y)) && x@ == e@ && y@ == k@,
            _ => r is None,
        },
{
    match (endpoint, api_key) {
        (Some(e), Some(k)) => Some((e, k)),
        _ => None,
    }
}

/// The message of a local recognition that failed with `error` and found no cloud
/// recogniser to fall back to.
pub open spec fn local_failure_message(error: Seq<char>) -> Seq<char> {
    "Local Whisper processing failed: "@ + error + ". Cloud fallback unavailable."@
}

/// The answer after local recognition failed with `error`: a successful cloud answer
/// (`cloud`, when the fallback was tried) stands; otherwise the test fails with the local
/// error.
pub fn after_local_failure(error: &str, cloud: Option<Result<AsrTestResponse, String>>, file_size: u64, elapsed_ms: u64) -> (r: AsrTestResponse)
    ensures
        match cloud {
            Some(Ok(c)) if c.success => r == c,
            _ => !r.success && r.transcription is None && r.processing_time_ms == elapsed_ms
                && r.file_size == file_size && r.message@ == local_failure_message(error@)
                && r.status_code is None,
        },
{
    match cloud {
        Some(Ok(c)) => {
            if c.success {
                return c;
            }
        },
        _ => {},
    }
    let mut m: Vec<char> = Vec::new();
    push_str(&mut m, "Local Whisper processing failed: ");
    push_str(&mut m, error);
    push_str(&mut m, ". Cloud fallback unavailable.");
    AsrTestResponse {
        success: false,
        transcription: None,
        processing_time_ms: elapsed_ms,
        file_size,
        message: string_of(m.as_slice()),
        status_code: None,
    }
}

} // verus!

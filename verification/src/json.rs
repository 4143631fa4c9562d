use vstd::prelude::*;

verus! {

/// What a JSON text holds at a JSON Pointer (RFC 6901), as far as the replies of the
/// speech and translation services are read.
pub enum JsonFound {
    /// The text is not JSON.
    Invalid,
    /// Nothing is at the pointer.
    Missing,
    Str(String),
    /// A whole number within the range of `i64` or `u64`.
    Int(i128),
    /// An array of this many items.
    Array(usize),
    /// `null`, a boolean, a fractional number, or an object.
    Other,
}

/// The specification's view of `JsonFound`.
pub enum JsonAt {
    Invalid,
    Missing,
    Str(Seq<char>),
    Int(int),
    Array(nat),
    Other,
}

impl View for JsonFound {
    type V = JsonAt;

    open spec fn view(&self) -> JsonAt {
        match self {
            JsonFound::Invalid => JsonAt::Invalid,
            JsonFound::Missing => JsonAt::Missing,
            JsonFound::Str(s) => JsonAt::Str(s@),
            JsonFound::Int(i) => JsonAt::Int(*i as int),
            JsonFound::Array(n) => JsonAt::Array(*n as nat),
            JsonFound::Other => JsonAt::Other,
        }
    }
}

/// What `serde_json` finds in a JSON text at a JSON Pointer.
pub uninterp spec fn json_pointer_at(text: Seq<char>, pointer: Seq<char>) -> JsonAt;

/// Why `serde_json` does not read a text as JSON (its error message); `None` when it does.
pub uninterp spec fn json_parse_error(text: Seq<char>) -> Option<Seq<char>>;

/// The compact JSON text that `serde_json` writes back for a text it reads as JSON.
pub uninterp spec fn json_compact_text(text: Seq<char>) -> Option<Seq<char>>;

/// Looks a JSON Pointer up in a JSON text.
///
/// Parses the text with `serde_json::from_str` into a `serde_json::Value` and looks the
/// pointer up with `Value::pointer`; the result depends on the text and the pointer
/// alone.
#[verifier::external_body]
pub(crate) fn json_lookup(text: &str, pointer: &str) -> (r: JsonFound)
    ensures
        r@ == json_pointer_at(text@, pointer@),
{
    match serde_json::from_str::<serde_json::Value>(text) {
        Err(_) => JsonFound::Invalid,
        Ok(v) => match v.pointer(pointer) {
            None => JsonFound::Missing,
            Some(serde_json::Value::String(s)) => JsonFound::Str(s.clone()),
            Some(serde_json::Value::Number(n)) => match (n.as_i64(), n.as_u64()) {
                (Some(i), _) => JsonFound::Int(i as i128),
                (None, Some(u)) => JsonFound::Int(u as i128),
                (None, None) => JsonFound::Other,
            },
            Some(serde_json::Value::Array(a)) => JsonFound::Array(a.len()),
            Some(_) => JsonFound::Other,
        },
    }
}

/// The error message of `serde_json::from_str` for a text that is not JSON.
///
/// Gives the `Display` text of the `serde_json::Error`, or `None` when the text parses;
/// it depends on the text alone.
#[verifier::external_body]
pub(crate) fn json_error(text: &str) -> (r: Option<String>)
    ensures
        match r {
            Some(e) => json_parse_error(text@) == Some(e@),
            None => json_parse_error(text@) is None,
        },
{
    match serde_json::from_str::<serde_json::Value>(text) {
        Ok(_) => None,
        Err(e) => Some(e.to_string()),
    }
}

/// A JSON text written back compactly by `serde_json` (`Value`'s `Display`).
///
/// Gives `None` when the text is not JSON; the result depends on the text alone.
#[verifier::external_body]
pub(crate) fn json_compact(text: &str) -> (r: Option<String>)
    ensures
        match r {
            Some(c) => json_compact_text(text@) == Some(c@),
            None => json_compact_text(text@) is None,
        },
{
    match serde_json::from_str::<serde_json::Value>(text) {
        Ok(v) => Some(v.to_string()),
        Err(_) => None,
    }
}

} // verus!

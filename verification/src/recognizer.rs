use vstd::prelude::*;
use crate::input::{Mode, VoiceError};
use crate::text::{chars_of, parse_u32, parses_u32, digits_value, push_str, str_eq, string_of, unsigned_body};

verus! {

/// A switch from the environment read with `bool::from_str`: `"true"` and `"false"` mean
/// what they say, and anything else, or no value, gives the default.
pub open spec fn flag_value(value: Option<Seq<char>>, default: bool) -> bool {
    match value {
        Some(v) => if v == "true"@ {
            true
        } else if v == "false"@ {
            false
        } else {
            default
        },
        None => default,
    }
}

/// Reads a switch from the environment.
pub fn env_flag(value: Option<&str>, default: bool) -> (b: bool)
    ensures
        b == flag_value(match value {
            Some(v) => Some(v@),
            None => None,
        }, default),
{
    match value {
        Some(v) => if str_eq(v, "true") {
            true
        } else if str_eq(v, "false") {
            false
        } else {
            default
        },
        None => default,
    }
}

/// Reads a GPU device number from the environment; `None` unless it is a `u32`.
pub fn parse_device_id(value: Option<&str>) -> (r: Option<u32>)
    ensures
        match value {
            Some(v) => if parses_u32(v@) {
                r == Some(digits_value(unsigned_body(v@)) as u32)
            } else {
                r is None
            },
            None => r is None,
        },
{
    match value {
        Some(v) => {
            let c = chars_of(v);
            parse_u32(c.as_slice())
        },
        None => None,
    }
}

/// Which model files to look for, in order, when none is configured.
#[derive(Clone, Copy, Debug, PartialEq, Eq, Structural)]
pub enum ModelPreference {
    /// Small to large, fastest first: base, small, medium, large-v3-turbo.
    FastestFirst,
    /// For a quick test: small, base, medium, large-v3-turbo.
    BalancedFirst,
}

/// The model file at a position of a preference order.
pub open spec fn preferred_file(p: ModelPreference, i: int) -> Seq<char> {
    if i == 0 {
        if p == ModelPreference::FastestFirst { "ggml-base.bin"@ } else { "ggml-small.bin"@ }
    } else if i == 1 {
        if p == ModelPreference::FastestFirst { "ggml-small.bin"@ } else { "ggml-base.bin"@ }
    } else if i == 2 {
        "ggml-medium.bin"@
    } else {
        "ggml-large-v3-turbo.bin"@
    }
}

fn preferred_file_exec(p: ModelPreference, i: usize) -> (r: &'static str)
    requires
        i < 4,
    ensures
        r@ == preferred_file(p, i as int),
{
    if i == 0 {
        if p == ModelPreference::FastestFirst { "ggml-base.bin" } else { "ggml-small.bin" }
    } else if i == 1 {
        if p == ModelPreference::FastestFirst { "ggml-small.bin" } else { "ggml-base.bin" }
    } else if i == 2 {
        "ggml-medium.bin"
    } else {
        "ggml-large-v3-turbo.bin"
    }
}

/// The paths where the model files are looked for, in preference order, under the
/// user's home directory.
pub fn model_candidates(home: &str, p: ModelPreference) -> (r: Vec<String>)
    ensures
        r@.len() == 4,
        forall|i: int| 0 <= i < 4 ==> (#[trigger] r@[i])@ == home@ + "/.local/share/com.martin.flash-input/models/"@ + preferred_file(p, i),
{
    let mut r: Vec<String> = Vec::new();
    let mut i: usize = 0;
    while i < 4
        invariant
            i <= 4,
            r@.len() == i,
            forall|k: int| 0 <= k < i ==> (#[trigger] r@[k])@ == home@ + "/.local/share/com.martin.flash-input/models/"@ + preferred_file(p, k),
        decreases 4 - i,
    {
        let mut s: Vec<char> = Vec::new();
        push_str(&mut s, home);
        push_str(&mut s, "/.local/share/com.martin.flash-input/models/");
        push_str(&mut s, preferred_file_exec(p, i));
        r.push(string_of(s.as_slice()));
        i = i + 1;
    }
    r
}

/// The model path to use: the configured one if its file exists; else the first
/// candidate that exists; else the fallback.
pub open spec fn chosen_model(configured: Option<Seq<char>>, candidates: Seq<Seq<char>>, exists: Seq<bool>, fallback: Seq<char>) -> Seq<char>
    decreases candidates.len(),
{
    match configured {
        Some(c) => c,
        None => if candidates.len() == 0 {
            fallback
        } else if exists[0] {
            candidates[0]
        } else {
            chosen_model(None, candidates.drop_first(), exists.drop_first(), fallback)
        },
    }
}

/// Chooses the model path; `configured` is the configured path when its file exists.
pub fn choose_model_path(configured: Option<String>, candidates: &Vec<String>, exists: &[bool], fallback: &str) -> (r: String)
    requires
        candidates@.len() == exists@.len(),
    ensures
        r@ == chosen_model(
            match configured {
                Some(c) => Some(c@),
                None => None,
            },
            candidates@.map_values(|s: String| s@),
            exists@,
            fallback@,
        ),
{
    if let Some(c) = configured {
        return c;
    }
    let ghost cs = candidates@.map_values(|s: String| s@);
    assert(cs.skip(0) =~= cs);
    assert(exists@.skip(0) =~= exists@);
    let mut i: usize = 0;
    while i < candidates.len()
        invariant
            configured is None,
            i <= candidates@.len(),
            candidates@.len() == exists@.len(),
            cs == candidates@.map_values(|s: String| s@),
            chosen_model(None, cs, exists@, fallback@) == chosen_model(None, cs.skip(i as int), exists@.skip(i as int), fallback@),
        decreases candidates@.len() - i,
    {
        assert(cs.skip(i as int)[0] == candidates@[i as int]@);
        assert(exists@.skip(i as int)[0] == exists@[i as int]);
        if exists[i] {
            return candidates[i].clone();
        }
        assert(cs.skip(i as int).drop_first() =~= cs.skip(i + 1));
        assert(exists@.skip(i as int).drop_first() =~= exists@.skip(i + 1));
        i = i + 1;
    }
    String::from_str(fallback)
}

/// How the recogniser decodes: the language (`None` to detect it) and whether it
/// translates. Decoding is deterministic (temperature 0) in every mode.
#[derive(Clone, Debug)]
pub struct DecodeSettings {
    pub language: Option<String>,
    pub translate: bool,
}

/// The decoding settings for a mode: a configured language is used unless it is
/// `"auto"`; without one, translations are written in English and transcriptions detect
/// the language.  Translating is done in translation mode or when configured, and
/// decoding is deterministic in every mode.
pub fn decode_settings(config_language: Option<&str>, config_translate: bool, mode: Mode) -> (d: DecodeSettings)
    ensures
        match config_language {
            Some(l) => if l@ == "auto"@ {
                d.language is None
            } else {
                d.language matches Some(x) && x@ == l@
            },
            None => if mode == Mode::Translations {
                d.language matches Some(x) && x@ == "en"@
            } else {
                d.language is None
            },
        },
        d.translate == (mode == Mode::Translations || config_translate),
{
    let language = match config_language {
        Some(l) => if str_eq(l, "auto") {
            None
        } else {
            Some(String::from_str(l))
        },
        None => match mode {
            Mode::Translations => Some(String::from_str("en")),
            Mode::Transcriptions => None,
        },
    };
    DecodeSettings {
        language,
        translate: mode == Mode::Translations || config_translate,
    }
}

/// What to do when the shared recogniser is asked for a model.
#[derive(Clone, Copy, Debug, PartialEq, Eq, Structural)]
pub enum CacheDecision {
    /// The loaded recogniser has this model: use it.
    Reuse,
    /// Another load is under way: refuse.
    Busy,
    /// Load the model; then call `loaded`.
    Load,
}

/// The shared recogniser's bookkeeping: which model is loaded and whether a load is
/// under way.
pub struct WhisperCache {
    pub has_processor: bool,
    pub current_model_path: Option<String>,
    pub init_in_progress: bool,
}

impl WhisperCache {
    /// Nothing loaded.
    pub fn new() -> (c: WhisperCache)
        ensures
            !c.has_processor,
            c.current_model_path is None,
            !c.init_in_progress,
    {
        WhisperCache { has_processor: false, current_model_path: None, init_in_progress: false }
    }

    /// Decides how to serve a request for a model: reuse the loaded recogniser of the same
    /// model; refuse while another load is under way; else start loading.
    pub fn request(&mut self, model_path: &str) -> (d: CacheDecision)
        ensures
            (old(self).current_model_path matches Some(p) && p@ == model_path@ && old(self).has_processor) ==> d
                == CacheDecision::Reuse && final(self).init_in_progress == old(self).init_in_progress,
            !(old(self).current_model_path matches Some(p) && p@ == model_path@ && old(self).has_processor) ==> {
                if old(self).init_in_progress {
                    d == CacheDecision::Busy && final(self).init_in_progress
                } else {
                    d == CacheDecision::Load && final(self).init_in_progress
                }
            },
            final(self).has_processor == old(self).has_processor,
            final(self).current_model_path == old(self).current_model_path,
    {
        let same = match &self.current_model_path {
            Some(p) => str_eq(p.as_str(), model_path) && self.has_processor,
            None => false,
        };
        if same {
            return CacheDecision::Reuse;
        }
        if self.init_in_progress {
            return CacheDecision::Busy;
        }
        self.init_in_progress = true;
        CacheDecision::Load
    }

    /// Notes how a load ended: on success the model is loaded, on failure nothing changes
    /// but the load is over.
    pub fn loaded(&mut self, model_path: &str, success: bool)
        ensures
            !final(self).init_in_progress,
            success ==> final(self).has_processor && (final(self).current_model_path matches Some(p) && p@ == model_path@),
            !success ==> final(self).has_processor == old(self).has_processor && final(self).current_model_path
                == old(self).current_model_path,
    {
        if success {
            self.has_processor = true;
            self.current_model_path = Some(String::from_str(model_path));
        }
        self.init_in_progress = false;
    }

    /// Forgets the loaded recogniser.
    pub fn clear_processor(&mut self)
        ensures
            !final(self).has_processor,
            final(self).current_model_path is None,
            !final(self).init_in_progress,
    {
        self.has_processor = false;
        self.current_model_path = None;
        self.init_in_progress = false;
    }

    /// The error a refused request gives.
    pub fn busy_error() -> (e: VoiceError)
        ensures
            e matches VoiceError::Other(m) && m@ == "WhisperRS processor initialization in progress"@,
    {
        VoiceError::Other(String::from_str("WhisperRS processor initialization in progress"))
    }
}

/// The samples recorded since the last streaming pass, as a range of the recording,
/// when there are any.
pub fn new_samples(total: usize, last_processed: usize) -> (r: Option<(usize, usize)>)
    ensures
        total > last_processed ==> r == Some((last_processed, total)),
        total <= last_processed ==> r is None,
{
    if total > last_processed {
        Some((last_processed, total))
    } else {
        None
    }
}

/// The error for a model file that is not there.
pub fn model_not_found(model_path: &str) -> (e: VoiceError)
    ensures
        e matches VoiceError::Other(m) && m@ == "Whisper model file not found: "@ + model_path@,
{
    let mut m: Vec<char> = Vec::new();
    push_str(&mut m, "Whisper model file not found: ");
    push_str(&mut m, model_path);
    VoiceError::Other(string_of(m.as_slice()))
}

/// Checks a finished download: the file must exist and not be empty.
pub fn check_download(exists: bool, size: u64) -> (r: Result<(), VoiceError>)
    ensures
        !exists ==> (r matches Err(e) && (e matches VoiceError::Other(m) && m@ == "Downloaded file not found"@)),
        exists && size == 0 ==> (r matches Err(e) && (e matches VoiceError::Other(m) && m@ == "Downloaded file is empty"@)),
        exists && size > 0 ==> r is Ok,
{
    if !exists {
        Err(VoiceError::Other(String::from_str("Downloaded file not found")))
    } else if size == 0 {
        Err(VoiceError::Other(String::from_str("Downloaded file is empty")))
    } else {
        Ok(())
    }
}

} // verus!

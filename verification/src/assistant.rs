use vstd::prelude::*;
use crate::input::{InputState, VoiceError};
use crate::text::{chars_of, decimal, push_decimal, push_str, str_eq, string_of, trim, trim_chars};

verus! {

/// Where speech recognition runs.
#[derive(Clone, Copy, Debug, PartialEq, Eq, Structural)]
pub enum ProcessorType {
    /// Serialised as `"cloud"`.
    CloudASR,
    /// Serialised as `"local"`.
    LocalASR,
}

/// Which service translates.
#[derive(Clone, Copy, Debug, PartialEq, Eq, Structural)]
pub enum TranslateType {
    SiliconFlow,
    Ollama,
}

/// The voice assistant's settings.
#[derive(Clone, Debug)]
pub struct VoiceAssistantConfig {
    pub service_platform: String,
    pub asr_processor: ProcessorType,
    pub translate_processor: TranslateType,
    pub convert_to_simplified: bool,
    pub add_symbol: bool,
    pub optimize_result: bool,
}

/// The endpoint and key of a local speech recogniser.
#[derive(Clone, Debug)]
pub struct LocalASRConfig {
    pub endpoint: String,
    pub api_key: String,
}

/// An event for the user interface: its name and its text.
#[derive(Clone, Debug)]
pub struct AppEvent {
    pub name: String,
    pub payload: String,
}

/// A switch read from the environment: `"true"` and `"false"` mean what they say; an
/// unset variable counts as `"true"`, and anything else is read as on.
pub open spec fn env_switch(value: Option<Seq<char>>) -> bool {
    match value {
        Some(v) => !(v == "false"@),
        None => true,
    }
}

/// Reads an environment switch (`bool::from_str`, falling back to on).
pub fn parse_env_switch(value: Option<&str>) -> (b: bool)
    ensures
        b == env_switch(match value {
            Some(v) => Some(v@),
            None => None,
        }),
{
    proof {
        reveal_strlit("true");
        reveal_strlit("false");
        assert("true"@[0] != "false"@[0]);
    }
    match value {
        Some(v) => {
            if str_eq(v, "true") {
                true
            } else if str_eq(v, "false") {
                false
            } else {
                true
            }
        },
        None => true,
    }
}

/// The environment variables the default settings come from.
pub struct AssistantEnv {
    /// `SERVICE_PLATFORM`.
    pub service_platform: Option<String>,
    /// `CONVERT_TO_SIMPLIFIED`.
    pub convert_to_simplified: Option<String>,
    /// `ADD_SYMBOL`.
    pub add_symbol: Option<String>,
    /// `OPTIMIZE_RESULT`.
    pub optimize_result: Option<String>,
}

/// The view of an optional string.
pub open spec fn opt_view(o: Option<String>) -> Option<Seq<char>> {
    match o {
        Some(s) => Some(s@),
        None => None,
    }
}

fn opt_str(o: &Option<String>) -> (r: Option<&str>)
    ensures
        match r {
            Some(s) => opt_view(*o) == Some(s@),
            None => o is None,
        },
{
    match o {
        Some(s) => Some(s.as_str()),
        None => None,
    }
}

impl VoiceAssistantConfig {
    /// The default settings: the service platform from the environment (else
    /// `"siliconflow"`), cloud recognition, Ollama translation, and the switches from the
    /// environment.
    pub fn default_from_env(env: &AssistantEnv) -> (c: VoiceAssistantConfig)
        ensures
            c.service_platform@ == match env.service_platform {
                Some(s) => s@,
                None => "siliconflow"@,
            },
            c.asr_processor == ProcessorType::CloudASR,
            c.translate_processor == TranslateType::Ollama,
            c.convert_to_simplified == env_switch(opt_view(env.convert_to_simplified)),
            c.add_symbol == env_switch(opt_view(env.add_symbol)),
            c.optimize_result == env_switch(opt_view(env.optimize_result)),
    {
        VoiceAssistantConfig {
            service_platform: match &env.service_platform {
                Some(s) => s.clone(),
                None => String::from_str("siliconflow"),
            },
            asr_processor: ProcessorType::CloudASR,
            translate_processor: TranslateType::Ollama,
            convert_to_simplified: parse_env_switch(opt_str(&env.convert_to_simplified)),
            add_symbol: parse_env_switch(opt_str(&env.add_symbol)),
            optimize_result: parse_env_switch(opt_str(&env.optimize_result)),
        }
    }

    /// The settings from the stored configurations.  The first recognition
    /// configuration's provider decides where recognition runs (`"cloud"` means the
    /// cloud, anything else local) and names the service platform (else `"siliconflow"`);
    /// the first translator configuration's provider picks the translator
    /// (`"siliconflow"` means SiliconFlow, anything else Ollama); the switches come from
    /// the environment.
    pub fn from_stored(asr_provider: Option<&str>, translation_provider: Option<&str>, env: &AssistantEnv) -> (c: VoiceAssistantConfig)
        ensures
            c.asr_processor == (if asr_provider matches Some(p) && p@ == "cloud"@ {
                ProcessorType::CloudASR
            } else {
                ProcessorType::LocalASR
            }),
            c.translate_processor == (if translation_provider matches Some(p) && p@ == "siliconflow"@ {
                TranslateType::SiliconFlow
            } else {
                TranslateType::Ollama
            }),
            c.service_platform@ == match asr_provider {
                Some(p) => p@,
                None => "siliconflow"@,
            },
            c.convert_to_simplified == env_switch(opt_view(env.convert_to_simplified)),
            c.add_symbol == env_switch(opt_view(env.add_symbol)),
            c.optimize_result == env_switch(opt_view(env.optimize_result)),
    {
        let asr = match asr_provider {
            Some(p) => if str_eq(p, "cloud") {
                ProcessorType::CloudASR
            } else {
                ProcessorType::LocalASR
            },
            None => ProcessorType::LocalASR,
        };
        let tr = match translation_provider {
            Some(p) => if str_eq(p, "siliconflow") {
                TranslateType::SiliconFlow
            } else {
                TranslateType::Ollama
            },
            None => TranslateType::Ollama,
        };
        VoiceAssistantConfig {
            service_platform: match asr_provider {
                Some(p) => String::from_str(p),
                None => String::from_str("siliconflow"),
            },
            asr_processor: asr,
            translate_processor: tr,
            convert_to_simplified: parse_env_switch(opt_str(&env.convert_to_simplified)),
            add_symbol: parse_env_switch(opt_str(&env.add_symbol)),
            optimize_result: parse_env_switch(opt_str(&env.optimize_result)),
        }
    }
}

/// The recogniser a configuration calls for.
#[derive(Clone, Copy, Debug, PartialEq, Eq, Structural)]
pub enum AsrBackendChoice {
    /// Cloud recognition through the Whisper service (platform `"groq"`).
    CloudWhisper,
    /// Cloud recognition through the SenseVoice service.
    CloudSenseVoice,
    Local,
}

/// The recogniser for a configuration: local, or in the cloud through Whisper on the
/// `"groq"` platform and through SenseVoice elsewhere.
pub fn choose_asr_backend(config: &VoiceAssistantConfig) -> (b: AsrBackendChoice)
    ensures
        b == match config.asr_processor {
            ProcessorType::LocalASR => AsrBackendChoice::Local,
            ProcessorType::CloudASR => if config.service_platform@ == "groq"@ {
                AsrBackendChoice::CloudWhisper
            } else {
                AsrBackendChoice::CloudSenseVoice
            },
        },
{
    match config.asr_processor {
        ProcessorType::LocalASR => AsrBackendChoice::Local,
        ProcessorType::CloudASR => if str_eq(config.service_platform.as_str(), "groq") {
            AsrBackendChoice::CloudWhisper
        } else {
            AsrBackendChoice::CloudSenseVoice
        },
    }
}

/// A stored recognition configuration, as far as the local recogniser needs it.
pub struct StoredAsrConfig {
    pub service_provider: String,
    pub local_endpoint: Option<String>,
    pub local_api_key: Option<String>,
}

/// The index of the first configuration of the local provider.
pub open spec fn first_local(configs: Seq<StoredAsrConfig>) -> Option<int>
    decreases configs.len(),
{
    if configs.len() == 0 {
        None
    } else {
        match first_local(configs.drop_last()) {
            Some(i) => Some(i),
            None => if configs.last().service_provider@ == "local"@ {
                Some(configs.len() - 1)
            } else {
                None
            },
        }
    }
}

proof fn lemma_first_local(configs: Seq<StoredAsrConfig>)
    ensures
        first_local(configs) matches Some(i) ==> 0 <= i < configs.len() && configs[i].service_provider@
            == "local"@ && forall|j: int| 0 <= j < i ==> configs[j].service_provider@ != "local"@,
        first_local(configs) is None ==> forall|j: int|
            0 <= j < configs.len() ==> configs[j].service_provider@ != "local"@,
    decreases configs.len(),
{
    if configs.len() > 0 {
        lemma_first_local(configs.drop_last());
        assert forall|j: int| 0 <= j < configs.len() - 1 implies configs[j] == configs.drop_last()[j] by {}
    }
}

/// The address a local recogniser is reached at when none is configured.
pub open spec fn default_local_endpoint() -> Seq<char> {
    "http://192.168.8.107:5001/inference"@
}

/// The key sent to a local recogniser when none is configured.
pub open spec fn default_local_key() -> Seq<char> {
    "default-key"@
}

/// The local recogniser's settings: those of the first configuration of the `"local"`
/// provider, each falling back to its default; the defaults when there is none.
pub fn local_asr_config(configs: &[StoredAsrConfig]) -> (c: LocalASRConfig)
    ensures
        match first_local(configs@) {
            Some(i) => {
                &&& c.endpoint@ == match configs@[i].local_endpoint {
                    Some(e) => e@,
                    None => default_local_endpoint(),
                }
                &&& c.api_key@ == match configs@[i].local_api_key {
                    Some(k) => k@,
                    None => default_local_key(),
                }
            },
            None => c.endpoint@ == default_local_endpoint() && c.api_key@ == default_local_key(),
        },
{
    proof {
        lemma_first_local(configs@);
    }
    let mut i: usize = 0;
    while i < configs.len()
        invariant
            i <= configs@.len(),
            forall|j: int| 0 <= j < i ==> configs@[j].service_provider@ != "local"@,
            first_local(configs@) matches Some(k) ==> i <= k,
            first_local(configs@) matches Some(k) ==> 0 <= k < configs@.len() && configs@[k].service_provider@
                == "local"@ && forall|j: int| 0 <= j < k ==> configs@[j].service_provider@ != "local"@,
            first_local(configs@) is None ==> forall|j: int|
                0 <= j < configs@.len() ==> configs@[j].service_provider@ != "local"@,
        decreases configs@.len() - i,
    {
        if str_eq(configs[i].service_provider.as_str(), "local") {
            return LocalASRConfig {
                endpoint: match &configs[i].local_endpoint {
                    Some(e) => e.clone(),
                    None => String::from_str("http://192.168.8.107:5001/inference"),
                },
                api_key: match &configs[i].local_api_key {
                    Some(k) => k.clone(),
                    None => String::from_str("default-key"),
                },
            };
        }
        i = i + 1;
    }
    LocalASRConfig {
        endpoint: String::from_str("http://192.168.8.107:5001/inference"),
        api_key: String::from_str("default-key"),
    }
}

/// The name an input state is shown with.
pub open spec fn state_name(s: InputState) -> Seq<char> {
    match s {
        InputState::Idle => "Idle"@,
        InputState::Recording => "Recording"@,
        InputState::RecordingTranslate => "RecordingTranslate"@,
        InputState::Processing => "Processing"@,
        InputState::Translating => "Translating"@,
        InputState::Streaming => "Streaming"@,
        InputState::StreamingPaused => "StreamingPaused"@,
        InputState::StreamingFinalizing => "StreamingFinalizing"@,
        InputState::Error => "Error"@,
        InputState::Warning => "Warning"@,
    }
}

fn state_name_exec(s: InputState) -> (r: &'static str)
    ensures
        r@ == state_name(s),
{
    match s {
        InputState::Idle => "Idle",
        InputState::Recording => "Recording",
        InputState::RecordingTranslate => "RecordingTranslate",
        InputState::Processing => "Processing",
        InputState::Translating => "Translating",
        InputState::Streaming => "Streaming",
        InputState::StreamingPaused => "StreamingPaused",
        InputState::StreamingFinalizing => "StreamingFinalizing",
        InputState::Error => "Error",
        InputState::Warning => "Warning",
    }
}

fn event(name: &str, payload: &str) -> (e: AppEvent)
    ensures
        e.name@ == name@,
        e.payload@ == payload@,
{
    AppEvent { name: String::from_str(name), payload: String::from_str(payload) }
}

/// The event that tells the user interface of a new input state.
pub fn emit_voice_assistant_state_change(state: &InputState) -> (e: AppEvent)
    ensures
        e.name@ == "voice-assistant-state-changed"@,
        e.payload@ == state_name(*state),
{
    event("voice-assistant-state-changed", state_name_exec(*state))
}

/// The event the keyboard listener sends for a new input state.
pub fn emit_voice_assistant_state_from_keyboard(state: &InputState) -> (e: AppEvent)
    ensures
        e.name@ == "voice-assistant-state-changed"@,
        e.payload@ == state_name(*state),
{
    emit_voice_assistant_state_change(state)
}

/// The event that tells the user interface of a new history record.
pub fn emit_new_history_record_event() -> (e: AppEvent)
    ensures
        e.name@ == "new-history-record"@,
        e.payload@ == "record_added"@,
{
    event("new-history-record", "record_added")
}

/// The event that tells the user interface the service status changed.
pub fn emit_service_status_updated_event() -> (e: AppEvent)
    ensures
        e.name@ == "service-status-updated"@,
        e.payload@ == "status_updated"@,
{
    event("service-status-updated", "status_updated")
}

/// The state the user interface shows: `"Idle"` when the assistant is not running,
/// `"Running"` when it runs and is idle, else the input state's name.
pub open spec fn assistant_state_label(running: Option<InputState>) -> Seq<char> {
    match running {
        None => "Idle"@,
        Some(InputState::Idle) => "Running"@,
        Some(s) => state_name(s),
    }
}

/// The state the user interface shows for the assistant.
pub fn get_voice_assistant_state(running: Option<InputState>) -> (r: String)
    ensures
        r@ == assistant_state_label(running),
{
    match running {
        None => String::from_str("Idle"),
        Some(InputState::Idle) => String::from_str("Running"),
        Some(s) => String::from_str(state_name_exec(s)),
    }
}

/// The reply to testing a recogniser.
pub fn test_asr(processor_type: ProcessorType) -> (r: Result<String, String>)
    ensures
        r matches Ok(m) && m@ == match processor_type {
            ProcessorType::CloudASR => "✅ Cloud ASR processor test successful"@,
            ProcessorType::LocalASR => "✅ Local ASR processor test successful"@,
        },
{
    match processor_type {
        ProcessorType::CloudASR => Ok(String::from_str("✅ Cloud ASR processor test successful")),
        ProcessorType::LocalASR => Ok(String::from_str("✅ Local ASR processor test successful")),
    }
}

/// The reply to testing a translator.
pub fn test_translation(translate_type: TranslateType) -> (r: Result<String, String>)
    ensures
        r matches Ok(m) && m@ == match translate_type {
            TranslateType::SiliconFlow => "✅ SiliconFlow translation test successful"@,
            TranslateType::Ollama => "✅ Ollama translation test successful"@,
        },
{
    match translate_type {
        TranslateType::SiliconFlow => Ok(String::from_str("✅ SiliconFlow translation test successful")),
        TranslateType::Ollama => Ok(String::from_str("✅ Ollama translation test successful")),
    }
}

/// The hotkeys to listen for: the stored ones, else `F4` to transcribe and `Shift + F4`
/// to translate.
pub fn hotkeys_to_use(stored: Option<(String, String)>) -> (r: (String, String))
    ensures
        match stored {
            Some((t, l)) => r.0@ == t@ && r.1@ == l@,
            None => r.0@ == "F4"@ && r.1@ == "Shift + F4"@,
        },
{
    match stored {
        Some((t, l)) => (t, l),
        None => (String::from_str("F4"), String::from_str("Shift + F4")),
    }
}

/// The error a failed translation request gives when no translator is configured.
pub fn no_translator_error() -> (e: VoiceError)
    ensures
        e matches VoiceError::Other(m) && m@ == "No translation processor available"@,
{
    VoiceError::Other(String::from_str("No translation processor available"))
}


/// The greeting for a name: a reproach for a blank name, else a greeting that counts the
/// name's characters.
pub open spec fn greeting(name: Seq<char>) -> Seq<char> {
    if trim(name).len() == 0 {
        "嘿！你没有告诉我你的名字！"@
    } else {
        "你好，"@ + name + "！\n你的名字有 "@ + decimal(name.len()) + " 个字。\n这条消息是 Rust 计算后返回的。"@
    }
}

/// Greets the user by name.
pub fn greet(name: &str) -> (r: String)
    ensures
        r@ == greeting(name@),
{
    let c = chars_of(name);
    let t = trim_chars(c.as_slice());
    if t.len() == 0 {
        return String::from_str("嘿！你没有告诉我你的名字！");
    }
    let mut out: Vec<char> = Vec::new();
    push_str(&mut out, "你好，");
    push_str(&mut out, name);
    push_str(&mut out, "！\n你的名字有 ");
    push_decimal(&mut out, c.len() as u64);
    push_str(&mut out, " 个字。\n这条消息是 Rust 计算后返回的。");
    string_of(out.as_slice())
}

/// The sum of two numbers.
pub fn add(a: i32, b: i32) -> (r: i32)
    requires
        i32::MIN <= a + b <= i32::MAX,
    ensures
        r == a + b,
{
    a + b
}

} // verus!

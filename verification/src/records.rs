use vstd::prelude::*;
use crate::input::VoiceError;

verus! {

/// A microphone.
#[derive(Clone, Debug)]
pub struct AudioDevice {
    pub id: String,
    pub name: String,
    pub is_default: bool,
}

/// A request to check a recogniser's health.
#[derive(Clone, Debug)]
pub struct HealthCheckRequest {
    pub endpoint: String,
}

/// The outcome of a health check.
#[derive(Clone, Debug)]
pub struct HealthCheckResponse {
    pub endpoint: String,
    pub healthy: bool,
    pub response_time_ms: u64,
    pub status_code: Option<u16>,
    pub message: String,
    pub timestamp: String,
}

/// Which service is active and how it is doing.
#[derive(Clone, Debug)]
pub struct ServiceStatusResponse {
    pub active_service: String,
    pub status: String,
    pub endpoint: Option<String>,
}

/// One point of the latency history.
#[derive(Clone, Debug)]
pub struct LatencyHistoryPoint {
    pub time: String,
    pub val: i64,
}

/// The current latency, its trend, and its recent history.
#[derive(Clone, Debug)]
pub struct LatencyDataResponse {
    pub current: i64,
    pub trend: String,
    pub trend_value: i64,
    pub history: Vec<LatencyHistoryPoint>,
}

/// Settings of a speech recogniser, as the user interface sends them.
#[derive(Clone, Debug)]
pub struct AsrConfigRequest {
    pub service_provider: String,
    pub local_endpoint: Option<String>,
    pub local_api_key: Option<String>,
    pub cloud_endpoint: Option<String>,
    pub cloud_api_key: Option<String>,
    pub whisper_model: Option<String>,
}

/// Settings of a translator, as the user interface sends them.
#[derive(Clone, Debug)]
pub struct TranslationConfigRequest {
    pub provider: String,
    pub api_key: Option<String>,
    pub endpoint: Option<String>,
}

/// A history record, as the user interface sends it.
#[derive(Clone, Debug)]
pub struct HistoryRequest {
    pub record_type: String,
    pub input_text: Option<String>,
    pub output_text: Option<String>,
    pub audio_file_path: Option<String>,
    pub processor_type: Option<String>,
    pub processing_time_ms: Option<i64>,
    pub success: bool,
    pub error_message: Option<String>,
}

/// A request to transcribe a test recording.
#[derive(Clone, Debug)]
pub struct AsrTestRequest {
    /// The recording, in base64.
    pub audio_file_data: String,
    pub file_name: String,
    pub service_provider: String,
    pub endpoint: Option<String>,
    pub api_key: Option<String>,
}

/// The outcome of transcribing a test recording.
#[derive(Clone, Debug)]
pub struct AsrTestResponse {
    pub success: bool,
    pub transcription: Option<String>,
    pub processing_time_ms: u64,
    pub file_size: u64,
    pub message: String,
    pub status_code: Option<u16>,
}

/// The pauses used while typing text, in milliseconds.
#[derive(Clone, Copy, Debug, PartialEq, Eq, Structural)]
pub struct TypingDelays {
    pub clipboard_update_ms: i64,
    pub keyboard_events_settle_ms: i64,
    pub typing_complete_ms: i64,
    pub character_interval_ms: i64,
    pub short_operation_ms: i64,
}

impl Default for TypingDelays {
    /// 100 ms to update the clipboard, 300 ms for keyboard events to settle, 500 ms once
    /// typing is done, 100 ms between characters and 100 ms for short operations.
    fn default() -> (d: Self)
        ensures
            d == (TypingDelays {
                clipboard_update_ms: 100,
                keyboard_events_settle_ms: 300,
                typing_complete_ms: 500,
                character_interval_ms: 100,
                short_operation_ms: 100,
            }),
    {
        TypingDelays {
            clipboard_update_ms: 100,
            keyboard_events_settle_ms: 300,
            typing_complete_ms: 500,
            character_interval_ms: 100,
            short_operation_ms: 100,
        }
    }
}

/// The hotkey settings, as the user interface sends them.
#[derive(Clone, Debug)]
pub struct HotkeyConfigRequest {
    pub transcribe_key: String,
    pub translate_key: String,
    pub trigger_delay_ms: i64,
    pub anti_mistouch_enabled: bool,
    pub save_wav_files: bool,
    pub typing_delays: TypingDelays,
}

/// A history record to store.
#[derive(Clone, Debug)]
pub struct NewHistoryRecord {
    pub record_type: String,
    pub input_text: Option<String>,
    pub output_text: Option<String>,
    pub audio_file_path: Option<String>,
    pub processor_type: Option<String>,
    pub processing_time_ms: Option<i64>,
    pub success: bool,
    pub error_message: Option<String>,
}

/// Service statistics to store.
#[derive(Clone, Debug)]
pub struct NewServiceStats {
    pub service_name: String,
    pub status: String,
    pub endpoint: Option<String>,
    pub uptime_seconds: i64,
    pub total_requests: i64,
    pub successful_requests: i64,
    pub failed_requests: i64,
}

/// A latency measurement to store.
#[derive(Clone, Debug)]
pub struct NewLatencyRecord {
    pub service_name: String,
    pub latency_ms: i64,
    pub request_type: String,
}

/// A day's usage to store.
#[derive(Clone, Debug)]
pub struct NewUsageLog {
    pub date: String,
    pub total_seconds: i64,
    pub total_requests: i64,
    pub successful_requests: i64,
    pub failed_requests: i64,
}

/// The result of one recognition, as reported to the user interface.
#[derive(Clone, Debug)]
pub struct AsrResult {
    pub success: bool,
    pub input_text: Option<String>,
    pub output_text: String,
    pub processor_type: String,
    pub processing_time_ms: Option<i64>,
    pub audio_file_path: Option<String>,
    pub error_message: Option<String>,
}

/// What the shared recogniser is doing.
#[derive(Clone, Debug)]
pub struct WhisperManagerStatus {
    pub has_processor: bool,
    pub current_model_path: Option<String>,
    pub init_in_progress: bool,
}

/// A stretch of speech found by voice activity detection, in samples.
#[derive(Clone, Copy, Debug)]
pub struct VadSegment {
    pub start: u64,
    pub end: u64,
}

/// The voice activity detector of the speech recogniser, which this build does without.
pub struct WhisperVadProcessor {}

/// The error every use of the voice activity detector gives.
pub open spec fn vad_disabled(e: VoiceError) -> bool {
    e matches VoiceError::Other(m) && m@ == "WhisperVad disabled for Windows migration"@
}

impl WhisperVadProcessor {
    /// Always fails: the detector is not available in this build.
    pub fn new(model_path: &str) -> (r: Result<WhisperVadProcessor, VoiceError>)
        ensures
            r matches Err(e) && vad_disabled(e),
    {
        Err(VoiceError::Other(String::from_str("WhisperVad disabled for Windows migration")))
    }

    /// Always fails: the detector is not available in this build.
    pub fn process(&mut self, sample_count: usize, sample_rate: u32) -> (r: Result<Vec<VadSegment>, VoiceError>)
        ensures
            r matches Err(e) && vad_disabled(e),
    {
        Err(VoiceError::Other(String::from_str("WhisperVad disabled for Windows migration")))
    }
}

fn device(id: &str, name: &str, is_default: bool) -> (d: AudioDevice)
    ensures
        d.id@ == id@,
        d.name@ == name@,
        d.is_default == is_default,
{
    AudioDevice { id: String::from_str(id), name: String::from_str(name), is_default }
}

/// The microphones offered: the system default, a webcam microphone and a USB device.
pub fn get_audio_devices() -> (r: Result<Vec<AudioDevice>, String>)
    ensures
        r matches Ok(v) && v@.len() == 3 && v@[0].id@ == "default"@ && v@[0].name@
            == "Default System Microphone"@ && v@[0].is_default && v@[1].id@ == "webcam-mic"@
            && v@[1].name@ == "Webcam Microphone"@ && !v@[1].is_default && v@[2].id@ == "usb-mic"@
            && v@[2].name@ == "USB Audio Device"@ && !v@[2].is_default,
{
    let mut v: Vec<AudioDevice> = Vec::new();
    v.push(device("default", "Default System Microphone", true));
    v.push(device("webcam-mic", "Webcam Microphone", false));
    v.push(device("usb-mic", "USB Audio Device", false));
    Ok(v)
}

/// The reply to the user interface's connection test.
pub fn test_frontend_backend_connection() -> (r: Result<String, String>)
    ensures
        r matches Ok(m) && m@ == "Backend connection successful!"@,
{
    Ok(String::from_str("Backend connection successful!"))
}

/// The history record for a recognition result.
pub fn history_record_for(result: AsrResult) -> (r: NewHistoryRecord)
    ensures
        r.record_type@ == "asr"@,
        r.input_text == result.input_text,
        r.output_text matches Some(t) && t@ == result.output_text@,
        r.audio_file_path == result.audio_file_path,
        r.processor_type matches Some(p) && p@ == result.processor_type@,
        r.processing_time_ms == result.processing_time_ms,
        r.success == result.success,
        r.error_message == result.error_message,
{
    NewHistoryRecord {
        record_type: String::from_str("asr"),
        input_text: result.input_text,
        output_text: Some(result.output_text),
        audio_file_path: result.audio_file_path,
        processor_type: Some(result.processor_type),
        processing_time_ms: result.processing_time_ms,
        success: result.success,
        error_message: result.error_message,
    }
}

/// The status reported for a service: what is stored, else the service offline with no
/// endpoint; the service is `local_asr` unless named.
pub fn service_status_or_default(service_name: Option<String>, stored: Option<ServiceStatusResponse>) -> (r: ServiceStatusResponse)
    ensures
        match stored {
            Some(s) => r.active_service@ == s.active_service@ && r.status@ == s.status@ && r.endpoint
                == s.endpoint,
            None => {
                &&& r.active_service@ == match service_name {
                    Some(n) => n@,
                    None => "local_asr"@,
                }
                &&& r.status@ == "offline"@
                &&& r.endpoint is None
            },
        },
{
    match stored {
        Some(s) => s,
        None => ServiceStatusResponse {
            active_service: match service_name {
                Some(n) => n,
                None => String::from_str("local_asr"),
            },
            status: String::from_str("offline"),
            endpoint: None,
        },
    }
}

} // verus!

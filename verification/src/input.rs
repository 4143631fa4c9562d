use vstd::prelude::*;
use crate::text::push_str;

verus! {

/// Whether speech is transcribed as spoken or translated.
#[derive(Clone, Copy, Debug, PartialEq, Eq, Structural)]
pub enum Mode {
    Transcriptions,
    Translations,
}

/// The state of the voice input.
#[derive(Clone, Copy, Debug, PartialEq, Eq, Structural)]
pub enum InputState {
    Idle,
    /// The transcribe hotkey is held: recording for a batch transcription.
    Recording,
    /// The translate hotkey is held: recording for a batch translation.
    RecordingTranslate,
    /// Speech recognition is running on a finished recording.
    Processing,
    /// Translation is running on a finished recording.
    Translating,
    /// The transcribe hotkey is held with streaming on: text is typed while speaking.
    Streaming,
    /// Streaming, with the speaker silent.
    StreamingPaused,
    /// The hotkey was released: the streaming session is being finished.
    StreamingFinalizing,
    Error,
    Warning,
}

impl InputState {
    /// A batch recording is under way.
    pub fn is_recording(&self) -> (b: bool)
        ensures
            b == (*self == InputState::Recording || *self == InputState::RecordingTranslate),
    {
        match self {
            InputState::Recording | InputState::RecordingTranslate => true,
            _ => false,
        }
    }

    /// A batch recording may start: none is under way.
    pub fn can_start_recording(&self) -> (b: bool)
        ensures
            b == !(*self == InputState::Recording || *self == InputState::RecordingTranslate),
    {
        !self.is_recording()
    }

    /// A streaming session is under way.
    pub fn is_streaming(&self) -> (b: bool)
        ensures
            b == (*self == InputState::Streaming || *self == InputState::StreamingPaused || *self
                == InputState::StreamingFinalizing),
    {
        match self {
            InputState::Streaming | InputState::StreamingPaused | InputState::StreamingFinalizing => true,
            _ => false,
        }
    }

    /// A streaming session may start: neither streaming nor a batch recording is under way.
    pub fn can_start_streaming(&self) -> (b: bool)
        ensures
            b == !(*self == InputState::Streaming || *self == InputState::StreamingPaused || *self
                == InputState::StreamingFinalizing || *self == InputState::Recording || *self
                == InputState::RecordingTranslate),
    {
        !self.is_streaming() && !self.is_recording()
    }
}

/// An error of the voice input.
///
/// The errors of outside libraries (network, I/O, UTF-8 decoding) are carried as their
/// messages.
#[derive(Clone, Debug, PartialEq, Eq)]
pub enum VoiceError {
    Audio(String),
    Network(String),
    Io(String),
    PermissionDenied,
    TooShort,
    Other(String),
    Utf8(String),
}

/// The text an error is shown with.
pub open spec fn voice_error_text(e: VoiceError) -> Seq<char> {
    match e {
        VoiceError::Audio(m) => "Audio error: "@ + m@,
        VoiceError::Network(m) => "Network error: "@ + m@,
        VoiceError::Io(m) => "IO error: "@ + m@,
        VoiceError::PermissionDenied => "Permission denied"@,
        VoiceError::TooShort => "Too short recording"@,
        VoiceError::Other(m) => "Other: "@ + m@,
        VoiceError::Utf8(m) => "UTF-8 error: "@ + m@,
    }
}

impl VoiceError {
    /// The text the error is shown with, such as `"Other: model not found"`.
    pub fn to_message(&self) -> (r: Vec<char>)
        ensures
            r@ == voice_error_text(*self),
    {
        let mut out: Vec<char> = Vec::new();
        match self {
            VoiceError::Audio(m) => {
                push_str(&mut out, "Audio error: ");
                push_str(&mut out, m.as_str());
            },
            VoiceError::Network(m) => {
                push_str(&mut out, "Network error: ");
                push_str(&mut out, m.as_str());
            },
            VoiceError::Io(m) => {
                push_str(&mut out, "IO error: ");
                push_str(&mut out, m.as_str());
            },
            VoiceError::PermissionDenied => {
                push_str(&mut out, "Permission denied");
            },
            VoiceError::TooShort => {
                push_str(&mut out, "Too short recording");
            },
            VoiceError::Other(m) => {
                push_str(&mut out, "Other: ");
                push_str(&mut out, m.as_str());
            },
            VoiceError::Utf8(m) => {
                push_str(&mut out, "UTF-8 error: ");
                push_str(&mut out, m.as_str());
            },
        }
        out
    }
}

/// A piece of text recognised while streaming.
#[derive(Clone, Debug)]
pub struct StreamingSegment {
    pub text: String,
    pub start_ms: u64,
    pub end_ms: u64,
    /// The segment will not change any more.
    pub is_final: bool,
    /// The segment is to be typed at once.
    pub should_type: bool,
}

impl StreamingSegment {
    /// The segment is typed as soon as it arrives: it is final and marked for typing.
    pub fn is_typed(&self) -> (b: bool)
        ensures
            b == (self.is_final && self.should_type),
    {
        self.is_final && self.should_type
    }
}

/// What the coordinator needs of a keyboard manager.
pub trait KeyboardManagerTrait {
    fn start_listening(&mut self);

    fn type_text(&mut self, text: &str, error: Option<&str>);

    fn reset_state(&mut self);
}

} // verus!

use voicetype::hotkey::Key;
use voicetype::input::{InputState, Mode, VoiceError};
use voicetype::keyboard::{recognition_text, recording_gate, KeyAction, KeyboardManager, Reaction, RecognitionError};

fn manager() -> KeyboardManager {
    let mut m = KeyboardManager::new();
    m.set_hotkeys("F4", "Shift + F4").unwrap();
    m
}

#[test]
fn holding_the_hotkey_starts_and_releasing_processes() {
    let mut m = manager();
    let first = m.on_key_press(Key::F4, 1000);
    assert_eq!(first.actions, vec![KeyAction::SaveClipboard]);
    assert_eq!(first.reaction, Reaction::Nothing);
    assert_eq!(m.get_state(), InputState::Idle);
    let early = m.on_key_press(Key::F4, 1200);
    assert_eq!(m.get_state(), InputState::Idle);
    assert_eq!(early.actions, vec![KeyAction::SaveClipboard]);
    let held = m.on_key_press(Key::F4, 1300);
    assert_eq!(held.actions, vec![KeyAction::EmitState(InputState::Recording), KeyAction::SaveClipboard]);
    assert_eq!(held.reaction, Reaction::StartRecording);
    assert_eq!(m.get_state(), InputState::Recording);
    assert_eq!(m.get_hotkey_start_time(), Some(1300));
    let ignored = m.on_key_press(Key::KeyA, 1400);
    assert!(ignored.actions.is_empty());
    let up = m.on_key_release(Key::F4);
    assert_eq!(up.actions, vec![KeyAction::EmitState(InputState::Processing)]);
    assert_eq!(up.reaction, Reaction::Transcribe);
    assert_eq!(m.get_state(), InputState::Processing);
    let done = m.finish_work();
    assert_eq!(done, vec![KeyAction::EmitState(InputState::Idle)]);
    assert_eq!(m.get_state(), InputState::Idle);
    assert_eq!(m.get_hotkey_start_time(), None);
}

#[test]
fn translate_hotkey_and_streaming_mode() {
    let mut m = manager();
    m.on_key_press(Key::ShiftLeft, 0);
    m.on_key_press(Key::F4, 10);
    assert_eq!(m.get_state(), InputState::Idle);
    let s = m.on_key_press(Key::F4, 400);
    // the transcribe hotkey is checked first and also matches
    assert_eq!(m.get_state(), InputState::Recording);
    assert_eq!(s.reaction, Reaction::StartRecording);

    let mut t = KeyboardManager::new();
    t.set_hotkeys("Ctrl + F5", "Shift + F4").unwrap();
    t.on_key_press(Key::ShiftLeft, 0);
    t.on_key_press(Key::F4, 10);
    t.on_key_press(Key::F4, 320);
    assert_eq!(t.get_state(), InputState::RecordingTranslate);
    // the held keys were forgotten when recording started, so the first release ends it
    let up = t.on_key_release(Key::F4);
    assert_eq!(up.reaction, Reaction::Translate);
    assert_eq!(t.get_state(), InputState::Translating);
    let later = t.on_key_release(Key::ShiftLeft);
    assert_eq!(later.reaction, Reaction::Nothing);
    assert!(later.actions.is_empty());

    let mut st = manager();
    st.set_streaming_enabled(true);
    st.on_key_press(Key::F4, 0);
    let go = st.on_key_press(Key::F4, 300);
    assert_eq!(go.reaction, Reaction::StartStreaming);
    assert_eq!(st.get_state(), InputState::Streaming);
    let up = st.on_key_release(Key::F4);
    assert_eq!(up.reaction, Reaction::FinalizeStreaming);
    assert_eq!(st.get_state(), InputState::StreamingFinalizing);
}

#[test]
fn failed_streaming_returns_to_idle_quietly() {
    let mut m = manager();
    m.set_streaming_enabled(true);
    m.on_key_press(Key::F4, 0);
    m.on_key_press(Key::F4, 500);
    m.streaming_failed();
    assert_eq!(m.get_state(), InputState::Idle);
    m.reset_state();
    assert_eq!(m.get_state(), InputState::Idle);
}

#[test]
fn bad_hotkeys_are_refused() {
    let mut m = KeyboardManager::new();
    assert_eq!(
        m.set_hotkeys("Ctrl", "F4"),
        Err(VoiceError::Audio(
            "Failed to parse transcribe hotkey: Hotkey must contain at least one main key (modifier-only shortcuts not supported)".to_string()
        ))
    );
    assert_eq!(
        m.set_hotkeys("F4", ""),
        Err(VoiceError::Audio("Failed to parse translate hotkey: Hotkey string is empty".to_string()))
    );
    assert!(m.set_transcribe_hotkey("Alt + Q").is_ok());
    assert_eq!(m.set_translate_hotkey("Alt + %"), Err(VoiceError::Other("Unsupported key: %".to_string())));
    assert_eq!(m.get_streaming_chunk_interval(), 500);
    m.set_streaming_chunk_interval(250);
    assert_eq!(m.get_streaming_chunk_interval(), 250);
    m.set_save_wav_files(true);
    assert!(m.get_save_wav_files());
    assert!(!m.is_streaming_enabled());
}

#[test]
fn what_a_finished_recording_types() {
    assert_eq!(recording_gate(Mode::Transcriptions, false, 0), Some("No recorder available".to_string()));
    assert_eq!(
        recording_gate(Mode::Transcriptions, true, 0),
        Some("No audio recorded - please check microphone".to_string())
    );
    assert_eq!(recording_gate(Mode::Transcriptions, true, 5), None);
    assert_eq!(recording_gate(Mode::Translations, false, 0), None);
    assert_eq!(recognition_text(Mode::Transcriptions, Ok("hello".to_string())), "hello");
    assert_eq!(
        recognition_text(Mode::Transcriptions, Err(RecognitionError::Recognition("busy".to_string()))),
        "ASR Error: busy"
    );
    assert_eq!(
        recognition_text(Mode::Transcriptions, Err(RecognitionError::Conversion("bad".to_string()))),
        "Audio conversion error: bad"
    );
    assert_eq!(
        recognition_text(Mode::Translations, Err(RecognitionError::Recognition("busy".to_string()))),
        "\u{274c} Translation failed: busy"
    );
    assert_eq!(
        recognition_text(Mode::Translations, Err(RecognitionError::Conversion("bad".to_string()))),
        "\u{274c} Audio conversion failed: bad"
    );
}

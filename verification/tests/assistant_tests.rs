use voicetype::assistant::{
    greet,
    choose_asr_backend, emit_new_history_record_event, emit_service_status_updated_event,
    emit_voice_assistant_state_change, emit_voice_assistant_state_from_keyboard, get_voice_assistant_state,
    hotkeys_to_use, local_asr_config, no_translator_error, parse_env_switch, test_asr, test_translation,
    AsrBackendChoice, AssistantEnv, ProcessorType, StoredAsrConfig, TranslateType, VoiceAssistantConfig,
};
use voicetype::input::{InputState, Mode, VoiceError};

fn env(sp: Option<&str>, conv: Option<&str>) -> AssistantEnv {
    AssistantEnv {
        service_platform: sp.map(|s| s.to_string()),
        convert_to_simplified: conv.map(|s| s.to_string()),
        add_symbol: None,
        optimize_result: Some("yes".to_string()),
    }
}

#[test]
fn environment_switches() {
    assert!(parse_env_switch(None));
    assert!(parse_env_switch(Some("true")));
    assert!(!parse_env_switch(Some("false")));
    assert!(parse_env_switch(Some("FALSE")));
    let c = VoiceAssistantConfig::default_from_env(&env(None, Some("false")));
    assert_eq!(c.service_platform, "siliconflow");
    assert_eq!(c.asr_processor, ProcessorType::CloudASR);
    assert_eq!(c.translate_processor, TranslateType::Ollama);
    assert!(!c.convert_to_simplified);
    assert!(c.add_symbol);
    assert!(c.optimize_result);
}

#[test]
fn stored_configuration_decides_processors() {
    let c = VoiceAssistantConfig::from_stored(Some("cloud"), Some("siliconflow"), &env(None, None));
    assert_eq!(c.asr_processor, ProcessorType::CloudASR);
    assert_eq!(c.translate_processor, TranslateType::SiliconFlow);
    assert_eq!(c.service_platform, "cloud");
    assert_eq!(choose_asr_backend(&c), AsrBackendChoice::CloudSenseVoice);
    let g = VoiceAssistantConfig::from_stored(Some("groq"), None, &env(None, None));
    assert_eq!(g.asr_processor, ProcessorType::LocalASR);
    assert_eq!(choose_asr_backend(&g), AsrBackendChoice::Local);
    let none = VoiceAssistantConfig::from_stored(None, Some("other"), &env(None, None));
    assert_eq!(none.service_platform, "siliconflow");
    assert_eq!(none.translate_processor, TranslateType::Ollama);
    let mut groq = VoiceAssistantConfig::default_from_env(&env(Some("groq"), None));
    assert_eq!(choose_asr_backend(&groq), AsrBackendChoice::CloudWhisper);
    groq.asr_processor = ProcessorType::LocalASR;
    assert_eq!(choose_asr_backend(&groq), AsrBackendChoice::Local);
}

#[test]
fn local_recogniser_settings() {
    let configs = vec![
        StoredAsrConfig { service_provider: "cloud".to_string(), local_endpoint: Some("x".to_string()), local_api_key: None },
        StoredAsrConfig { service_provider: "local".to_string(), local_endpoint: Some("http://h:1/inference".to_string()), local_api_key: None },
    ];
    let c = local_asr_config(&configs);
    assert_eq!(c.endpoint, "http://h:1/inference");
    assert_eq!(c.api_key, "default-key");
    let d = local_asr_config(&[]);
    assert_eq!(d.endpoint, "http://192.168.8.107:5001/inference");
}

#[test]
fn events_and_labels() {
    let e = emit_voice_assistant_state_change(&InputState::StreamingFinalizing);
    assert_eq!(e.name, "voice-assistant-state-changed");
    assert_eq!(e.payload, "StreamingFinalizing");
    assert_eq!(emit_voice_assistant_state_from_keyboard(&InputState::Recording).payload, "Recording");
    assert_eq!(emit_new_history_record_event().name, "new-history-record");
    assert_eq!(emit_new_history_record_event().payload, "record_added");
    assert_eq!(emit_service_status_updated_event().payload, "status_updated");
    assert_eq!(get_voice_assistant_state(None), "Idle");
    assert_eq!(get_voice_assistant_state(Some(InputState::Idle)), "Running");
    assert_eq!(get_voice_assistant_state(Some(InputState::Translating)), "Translating");
    assert_eq!(test_asr(ProcessorType::LocalASR), Ok("✅ Local ASR processor test successful".to_string()));
    assert_eq!(test_translation(TranslateType::SiliconFlow), Ok("✅ SiliconFlow translation test successful".to_string()));
    assert_eq!(hotkeys_to_use(None), ("F4".to_string(), "Shift + F4".to_string()));
    assert_eq!(hotkeys_to_use(Some(("A".to_string(), "B".to_string()))), ("A".to_string(), "B".to_string()));
    assert_eq!(no_translator_error(), VoiceError::Other("No translation processor available".to_string()));
    assert_ne!(Mode::Transcriptions, Mode::Translations);
}

#[test]
fn input_states() {
    assert!(InputState::Recording.is_recording());
    assert!(!InputState::RecordingTranslate.can_start_recording());
    assert!(InputState::StreamingPaused.is_streaming());
    assert!(!InputState::Recording.can_start_streaming());
    assert!(InputState::Idle.can_start_streaming());
    let m: String = VoiceError::TooShort.to_message().into_iter().collect();
    assert_eq!(m, "Too short recording");
    let m2: String = VoiceError::Other("x".to_string()).to_message().into_iter().collect();
    assert_eq!(m2, "Other: x");
}

#[test]
fn greeting_counts_characters() {
    assert_eq!(greet("张三"), "你好，张三！\n你的名字有 2 个字。\n这条消息是 Rust 计算后返回的。");
    assert_eq!(greet("  "), "嘿！你没有告诉我你的名字！");
    assert_eq!(greet(" Al "), "你好， Al ！\n你的名字有 4 个字。\n这条消息是 Rust 计算后返回的。");
    assert_eq!(voicetype::assistant::add(2, 3), 5);
    assert_eq!(voicetype::assistant::add(-7, 3), -4);
}

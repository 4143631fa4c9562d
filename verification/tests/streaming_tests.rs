use voicetype::recognizer::{
    check_download, choose_model_path, decode_settings, env_flag, model_candidates, model_not_found, new_samples,
    parse_device_id, CacheDecision, ModelPreference, WhisperCache,
};
use voicetype::input::{Mode, VoiceError};
use voicetype::scan::{classify_model, lex_less, scan_models, DirEntryInfo, ModelKind};
use voicetype::streaming::{has_recent_speech, SampleSpan, StreamingVad};

#[test]
fn speech_is_cut_into_stretches() {
    let mut vad = StreamingVad::new();
    vad.append(16000 * 6);
    let positions = vad.scan_positions();
    assert_eq!(positions.len(), (96000 - 1600) / 800 + 1);
    assert_eq!(positions[1], 800);
    // loud for the first 2.5 s, then quiet
    let loud: Vec<bool> = positions.iter().map(|&p| p < 40000).collect();
    let spans = vad.detect_segments(&loud);
    assert_eq!(spans, vec![SampleSpan { start: 0, end: 40000 }]);
    let now = vad.route_segments(spans.clone(), false);
    assert_eq!(now, spans);
    vad.record_transcript(40000, &[1, 2, 3]);
    assert_eq!(vad.get_context_tokens(), vec![1, 2, 3]);
    assert_eq!(vad.scan_positions()[0], 40000);
    assert_eq!(vad.finalize(), None);
}

#[test]
fn stretches_wait_while_speech_goes_on() {
    let mut vad = StreamingVad::new();
    vad.append(100);
    let waiting = vad.route_segments(vec![SampleSpan { start: 0, end: 10 }], true);
    assert!(waiting.is_empty());
    assert_eq!(vad.take_pending(true), None);
    assert_eq!(vad.take_pending(false), Some(SampleSpan { start: 0, end: 10 }));
    assert_eq!(vad.take_pending(false), None);
    let tokens: Vec<i32> = (0..230).collect();
    vad.record_transcript(10, &tokens);
    assert_eq!(vad.get_context_tokens().len(), 118);
    assert_eq!(vad.get_context_tokens()[0], 112);
    assert!(has_recent_speech(&[true, true, true, true, false, false, false, false, false]));
    assert!(!has_recent_speech(&[true, true, false, false, false, false, false, false, false, false]));
    assert!(!has_recent_speech(&[]));
    assert_eq!(vad.recent_positions().len(), 0);
    vad.append(8000);
    assert_eq!(vad.recent_positions(), vec![100, 900, 1700, 2500, 3300, 4100, 4900, 5700, 6500]);
}

#[test]
fn the_buffer_keeps_one_minute() {
    let mut vad = StreamingVad::new();
    vad.append(1_000_000);
    vad.record_transcript(50_000, &[]);
    assert_eq!(vad.trim_buffer(), 40_000);
    assert_eq!(vad.buffer_len(), 960_000);
    assert_eq!(vad.scan_positions()[0], 10_000);
    assert_eq!(vad.trim_buffer(), 0);
}

#[test]
fn model_files_are_classified_and_sorted() {
    assert_eq!(classify_model("ggml-large-v3-turbo.bin"), ModelKind::LargeTurbo);
    assert_eq!(classify_model("ggml-base.en.bin"), ModelKind::Base);
    assert_eq!(classify_model("mine.bin"), ModelKind::Custom);
    assert_eq!(ModelKind::Tiny.label(), Some("Tiny (~39MB)"));
    assert_eq!(ModelKind::Custom.label(), None);
    assert!(lex_less("abc", "abd"));
    assert!(lex_less("ab", "abc"));
    assert!(!lex_less("b", "abc"));
    let e = |name: &str, size: u64| DirEntryInfo {
        name: name.to_string(),
        path: format!("/m/{}", name),
        has_metadata: true,
        is_file: true,
        size_bytes: size,
        modified: "Unknown".to_string(),
    };
    let models = scan_models(vec![
        e("ggml-small.bin", 200),
        e("ggml-silero-vad.bin", 900),
        e("notes.txt", 900),
        e(".bin", 900),
        e("b.bin", 500),
        e("a.bin", 500),
        e("ggml-medium.bin", 700),
    ]);
    let names: Vec<&str> = models.iter().map(|m| m.name.as_str()).collect();
    assert_eq!(names, vec!["ggml-medium.bin", "a.bin", "b.bin", "ggml-small.bin"]);
    assert_eq!(models[0].kind, ModelKind::Medium);
    assert_eq!(models[1].path, "/m/a.bin");
}

#[test]
fn recogniser_settings() {
    assert!(env_flag(Some("true"), false));
    assert!(!env_flag(Some("maybe"), false));
    assert!(env_flag(None, true));
    assert_eq!(parse_device_id(Some("2")), Some(2));
    assert_eq!(parse_device_id(Some("-1")), None);
    let c = model_candidates("/home/u", ModelPreference::BalancedFirst);
    assert_eq!(c[0], "/home/u/.local/share/com.martin.flash-input/models/ggml-small.bin");
    assert_eq!(c[3], "/home/u/.local/share/com.martin.flash-input/models/ggml-large-v3-turbo.bin");
    assert_eq!(choose_model_path(None, &c, &[false, false, true, true], "ggml-small.bin"), c[2]);
    assert_eq!(choose_model_path(None, &c, &[false, false, false, false], "ggml-small.bin"), "ggml-small.bin");
    assert_eq!(choose_model_path(Some("/x.bin".to_string()), &c, &[true, true, true, true], "f"), "/x.bin");
    let d = decode_settings(None, false, Mode::Translations);
    assert_eq!(d.language, Some("en".to_string()));
    assert!(d.translate);
    let t = decode_settings(Some("auto"), true, Mode::Transcriptions);
    assert_eq!(t.language, None);
    assert!(t.translate);
    assert_eq!(decode_settings(Some("de"), false, Mode::Transcriptions).language, Some("de".to_string()));
    let mut cache = WhisperCache::new();
    assert_eq!(cache.request("/m.bin"), CacheDecision::Load);
    assert_eq!(cache.request("/m.bin"), CacheDecision::Busy);
    cache.loaded("/m.bin", true);
    assert_eq!(cache.request("/m.bin"), CacheDecision::Reuse);
    assert_eq!(cache.request("/other.bin"), CacheDecision::Load);
    cache.loaded("/other.bin", false);
    assert_eq!(cache.current_model_path, Some("/m.bin".to_string()));
    cache.clear_processor();
    assert!(!cache.has_processor);
    assert_eq!(WhisperCache::busy_error(), VoiceError::Other("WhisperRS processor initialization in progress".to_string()));
    assert_eq!(new_samples(10, 4), Some((4, 10)));
    assert_eq!(new_samples(4, 4), None);
    assert_eq!(check_download(false, 0), Err(VoiceError::Other("Downloaded file not found".to_string())));
    assert_eq!(check_download(true, 0), Err(VoiceError::Other("Downloaded file is empty".to_string())));
    assert_eq!(check_download(true, 1), Ok(()));
    assert_eq!(model_not_found("/x"), VoiceError::Other("Whisper model file not found: /x".to_string()));
}

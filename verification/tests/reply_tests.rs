use voicetype::input::{Mode, VoiceError};
use voicetype::records::{AsrTestRequest, AsrTestResponse};
use voicetype::replies::{
    after_local_failure, after_local_test, api_error, cloud_fallback, clean_api_key, cloud_test_response, deepseek_correction, evaluate_health,
    extract_cloud_transcription, health_endpoint_for, local_api_error, local_asr_step, local_format_name,
    local_language, ollama_translation, plan_asr_test, process_json_response, process_response,
    process_srt_response, sensevoice_transcription, siliconflow_translation, whisper_model, whisper_transcription,
    whisper_result_text, whisper_url, AsrTestPlan, CloudReply, HealthReply, LocalAsrNext, LocalTestNext,
};

#[test]
fn srt_replies_keep_only_text() {
    let srt = "1\r\n00:00:00,000 --> 00:00:01,000\r\nHello there\r\n\r\n2\n00:00:01,000 --> 00:00:02,000\nworld\n";
    assert_eq!(process_srt_response(srt), Ok("Hello there world".to_string()));
    assert_eq!(
        process_srt_response("1\n00:00:00,000 --> 00:00:01,000\n\n"),
        Err(VoiceError::Other("SRT processing resulted in empty text".to_string()))
    );
}

#[test]
fn json_replies_of_the_local_recogniser() {
    assert_eq!(process_json_response("  plain text "), Ok("plain text".to_string()));
    assert_eq!(process_json_response("{\"text\":\"hi\"}"), Ok("hi".to_string()));
    assert_eq!(process_json_response("{\"code\":0,\"data\":\"d\"}"), Ok("d".to_string()));
    assert_eq!(process_json_response("{\"code\":1,\"data\":\"d\"}"), Ok("".to_string()));
    assert_eq!(process_json_response("{\"result\":[{\"text\":\"r\"}]}"), Ok("r".to_string()));
    assert_eq!(process_json_response("{\"output\":\"o\"}"), Ok("o".to_string()));
    assert_eq!(process_json_response("{broken"), Ok("".to_string()));
    assert_eq!(process_response("{\"data\":\"1\\nx --> y\\nwords\\n\"}", "srt"), Ok("words".to_string()));
    assert_eq!(process_response("  t ", "text"), Ok("t".to_string()));
    assert_eq!(process_response("  t ", "other"), Ok("t".to_string()));
}

#[test]
fn local_recogniser_tries_formats_in_turn() {
    assert_eq!(local_format_name(0), "srt");
    assert_eq!(local_format_name(2), "text");
    assert_eq!(local_language(Mode::Translations), "en");
    assert_eq!(local_language(Mode::Transcriptions), "auto");
    match local_asr_step(0, Err(VoiceError::TooShort)) {
        LocalAsrNext::TryFormat(1) => {}
        _ => panic!("expected the next format"),
    }
    match local_asr_step(1, Ok("{}".to_string())) {
        LocalAsrNext::TryFormat(2) => {}
        _ => panic!("expected the next format"),
    }
    match local_asr_step(2, Ok("".to_string())) {
        LocalAsrNext::Done(Err(e)) => assert_eq!(e, VoiceError::Other("All response formats failed".to_string())),
        _ => panic!("expected failure"),
    }
    match local_asr_step(0, Ok("1\n".to_string())) {
        LocalAsrNext::Done(Err(e)) => assert_eq!(e, VoiceError::Other("SRT processing resulted in empty text".to_string())),
        _ => panic!("expected the reading error"),
    }
    match local_asr_step(2, Ok(" done ".to_string())) {
        LocalAsrNext::Done(Ok(t)) => assert_eq!(t, "done"),
        _ => panic!("expected text"),
    }
    assert_eq!(
        local_api_error("json", "500 Internal Server Error", "oops"),
        VoiceError::Other("Local ASR API error (json format): 500 Internal Server Error - oops".to_string())
    );
}

#[test]
fn service_replies() {
    assert_eq!(ollama_translation("{\"message\":{\"content\":\"  Hallo \"}}"), Ok("Hallo".to_string()));
    assert_eq!(
        ollama_translation("{\"message\":{}}"),
        Err(VoiceError::Other("No translation content in Ollama response".to_string()))
    );
    assert_eq!(ollama_translation("nope"), Err(VoiceError::Network("error decoding response body".to_string())));
    assert_eq!(siliconflow_translation("{\"choices\":[{\"message\":{\"content\":\"x \"}}]}"), Ok("x".to_string()));
    assert_eq!(
        deepseek_correction("{\"choices\":[]}"),
        Err(VoiceError::Other("No correction content in DeepSeek response".to_string()))
    );
    assert_eq!(sensevoice_transcription("{\"text\":\" a \"}"), Ok(" a ".to_string()));
    assert_eq!(whisper_transcription("{}"), Err(VoiceError::Other("No text in Whisper response".to_string())));
    assert_eq!(api_error("Ollama", "404 Not Found", "x"), VoiceError::Other("Ollama API error: 404 Not Found - x".to_string()));
    assert_eq!(whisper_model(Mode::Translations), "whisper-large-v3");
    assert_eq!(whisper_url("https://api.groq.com", Mode::Transcriptions), "https://api.groq.com/openai/v1/audio/transcriptions");
}

#[test]
fn health_checks() {
    assert_eq!(health_endpoint_for("http://h:5001/inference"), "http://h:5001/health");
    assert_eq!(health_endpoint_for("http://h/inference/"), "http://h/inference/health");
    assert_eq!(health_endpoint_for("http://h/"), "http://h/health");
    assert_eq!(health_endpoint_for("http://h"), "http://h/health");
    assert_eq!(health_endpoint_for("http://h/inference/x/inference"), "http://h/health/x/health");
    let ok = evaluate_health(
        "e",
        HealthReply::Http { code: 200, success: true, status: "200 OK".to_string(), body: "{\"status\":\"healthy\",\"total_backends\":3}".to_string() },
        12,
        "t",
    );
    assert!(ok.healthy);
    assert_eq!(ok.message, "Service healthy - 3 backends");
    assert_eq!(ok.status_code, Some(200));
    assert_eq!(ok.response_time_ms, 12);
    let degraded = evaluate_health(
        "e",
        HealthReply::Http { code: 200, success: true, status: "200 OK".to_string(), body: "{\"status\":\"busy\"}".to_string() },
        1,
        "t",
    );
    assert!(!degraded.healthy);
    assert_eq!(degraded.message, "Service status: busy");
    let unknown = evaluate_health(
        "e",
        HealthReply::Http { code: 200, success: true, status: "200 OK".to_string(), body: "[]".to_string() },
        1,
        "t",
    );
    assert_eq!(unknown.message, "Service status: unknown");
    let bad = evaluate_health(
        "e",
        HealthReply::Http { code: 200, success: true, status: "200 OK".to_string(), body: "x".to_string() },
        1,
        "t",
    );
    assert!(bad.message.starts_with("Invalid JSON response: "));
    let err = evaluate_health(
        "e",
        HealthReply::Http { code: 503, success: false, status: "503 Service Unavailable".to_string(), body: "down".to_string() },
        1,
        "t",
    );
    assert_eq!(err.message, "HTTP 503 Service Unavailable - down");
    let net = evaluate_health("e", HealthReply::NetworkError("refused".to_string()), 1, "t");
    assert_eq!(net.message, "Network error: refused");
    assert_eq!(net.status_code, None);
}

#[test]
fn cloud_transcriptions() {
    assert_eq!(clean_api_key(Some("  API_KEY=abc ")), Some("abc".to_string()));
    assert_eq!(clean_api_key(Some(" k ")), Some("k".to_string()));
    assert_eq!(clean_api_key(None), None);
    assert_eq!(extract_cloud_transcription("{\"code\":0,\"msg\":\"ok\",\"data\":\"hello\"}"), "hello");
    assert_eq!(extract_cloud_transcription("{\"result\":{\"text\":\"r\"}}"), "r");
    assert_eq!(extract_cloud_transcription("{\"result\":{\"x\":1}}"), "Complex response: {\"result\":{\"x\":1}}");
    assert_eq!(extract_cloud_transcription("{\"other\":1}"), "{\"other\":1}");
    assert_eq!(extract_cloud_transcription("not json"), "not json");
    let r = cloud_test_response(CloudReply::Body { code: 200, body: "{\"text\":\"t\"}".to_string() }, 10, 5);
    assert!(r.success);
    assert_eq!(r.transcription, Some("t".to_string()));
    assert_eq!(r.message, "Cloud ASR transcription completed successfully");
    let f = cloud_test_response(CloudReply::HttpError { code: 401, status: "401 Unauthorized".to_string(), text: "no".to_string() }, 10, 5);
    assert_eq!(f.message, "HTTP 401 Unauthorized - no");
    assert_eq!(f.status_code, Some(401));
    let g = cloud_test_response(CloudReply::RequestFailed("timeout".to_string()), 10, 5);
    assert_eq!(g.message, "HTTP request failed: timeout");
    let h = cloud_test_response(CloudReply::ReadFailed { code: 200, error: "eof".to_string() }, 10, 5);
    assert_eq!(h.message, "Failed to read response: eof");
}

fn request(data: &str, provider: &str, endpoint: Option<&str>) -> AsrTestRequest {
    AsrTestRequest {
        audio_file_data: data.to_string(),
        file_name: "a.wav".to_string(),
        service_provider: provider.to_string(),
        endpoint: endpoint.map(|s| s.to_string()),
        api_key: None,
    }
}

#[test]
fn test_transcriptions_are_planned() {
    match plan_asr_test(request("aGVsbG8=", "local", None), 3) {
        AsrTestPlan::Local { audio, file_size } => {
            assert_eq!(audio, b"hello".to_vec());
            assert_eq!(file_size, 5);
        }
        _ => panic!("expected local"),
    }
    match plan_asr_test(request("aGVsbG8=", "cloud", Some("http://c")), 3) {
        AsrTestPlan::Cloud { endpoint, file_size, .. } => {
            assert_eq!(endpoint, "http://c");
            assert_eq!(file_size, 5);
        }
        _ => panic!("expected cloud"),
    }
    match plan_asr_test(request("aGVsbG8=", "cloud", None), 3) {
        AsrTestPlan::Reply(r) => assert_eq!(r.message, "No endpoint configured for Cloud ASR"),
        _ => panic!("expected a reply"),
    }
    match plan_asr_test(request("aGVsbG8=", "mars", None), 3) {
        AsrTestPlan::Reply(r) => {
            assert_eq!(r.message, "Unknown service provider: mars");
            assert_eq!(r.processing_time_ms, 3);
        }
        _ => panic!("expected a reply"),
    }
    match plan_asr_test(request("!!", "local", None), 3) {
        AsrTestPlan::Reply(r) => {
            assert!(r.message.starts_with("Failed to decode base64 data: "));
            assert_eq!(r.file_size, 0);
        }
        _ => panic!("expected a reply"),
    }
    let big = "A".repeat(2_796_204);
    match plan_asr_test(request(&big, "local", None), 3) {
        AsrTestPlan::Reply(r) => assert_eq!(r.message, "File too large: 2097153 bytes (max: 2097152 bytes)"),
        _ => panic!("expected a reply"),
    }
    match after_local_test(Err("boom".to_string()), Some("http://g".to_string())) {
        LocalTestNext::TryCloud(e) => assert_eq!(e, "http://g"),
        _ => panic!("expected the cloud fallback"),
    }
    match after_local_test(Err("boom".to_string()), None) {
        LocalTestNext::Fail(m) => assert_eq!(m, "boom"),
        _ => panic!("expected failure"),
    }
}

#[test]
fn whisper_text_is_tidied_when_asked() {
    assert_eq!(whisper_result_text("  hello \n  big\tworld  ", true), "hello big world");
    assert_eq!(whisper_result_text("  hello \n  big\tworld  ", false), "  hello \n  big\tworld  ");
    assert_eq!(whisper_result_text("   ", true), "");
    assert_eq!(whisper_result_text("你好\u{3000}世界", true), "你好 世界");
}

#[test]
fn local_failure_falls_back_to_cloud() {
    assert_eq!(cloud_fallback(Some("http://g".to_string()), Some("k".to_string())), Some(("http://g".to_string(), "k".to_string())));
    assert_eq!(cloud_fallback(Some("http://g".to_string()), None), None);
    assert_eq!(cloud_fallback(None, Some("k".to_string())), None);
    let ok = AsrTestResponse {
        success: true,
        transcription: Some("hi".to_string()),
        processing_time_ms: 9,
        file_size: 3,
        message: "Cloud ASR transcription completed successfully".to_string(),
        status_code: Some(200),
    };
    let r = after_local_failure("boom", Some(Ok(ok)), 3, 50);
    assert!(r.success);
    assert_eq!(r.transcription, Some("hi".to_string()));
    assert_eq!(r.processing_time_ms, 9);
    let r = after_local_failure("boom", None, 3, 50);
    assert!(!r.success);
    assert_eq!(r.message, "Local Whisper processing failed: boom. Cloud fallback unavailable.");
    assert_eq!(r.processing_time_ms, 50);
    assert_eq!(r.file_size, 3);
    let r = after_local_failure("boom", Some(Err("net".to_string())), 3, 50);
    assert_eq!(r.message, "Local Whisper processing failed: boom. Cloud fallback unavailable.");
    assert_eq!(r.status_code, None);
}

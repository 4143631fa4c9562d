use voicetype::driver::{driver_info, infer_cuda_version, DriverQuery};
use voicetype::records::{
    get_audio_devices, history_record_for, service_status_or_default, test_frontend_backend_connection, AsrResult,
    ServiceStatusResponse, TypingDelays, WhisperVadProcessor,
};
use voicetype::input::VoiceError;
use voicetype::stats::{latency_data, latency_service_name, seconds_of_use, service_status_for, stats_service_name};

#[test]
fn cuda_versions_follow_the_driver() {
    assert_eq!(infer_cuda_version("560.94"), Some("12.6".to_string()));
    assert_eq!(infer_cuda_version("570"), Some("12.8".to_string()));
    assert_eq!(infer_cuda_version("522.25"), Some("12.0".to_string()));
    assert_eq!(infer_cuda_version("516.01"), Some("11.8".to_string()));
    assert_eq!(infer_cuda_version("garbage"), Some("11.x".to_string()));
}

#[test]
fn driver_queries_are_read() {
    let ok = driver_info(DriverQuery::Output(" 560.94, NVIDIA GeForce GTX 1070 Ti\n".to_string()));
    assert!(ok.installed && ok.is_compatible);
    assert_eq!(ok.driver_version, Some("560.94".to_string()));
    assert_eq!(ok.gpu_name, Some("NVIDIA GeForce GTX 1070 Ti".to_string()));
    assert_eq!(ok.cuda_version, Some("12.6".to_string()));
    assert_eq!(ok.minimum_required, "522.xx");
    assert_eq!(ok.error_message, None);
    let old = driver_info(DriverQuery::Output("470.10, Quadro".to_string()));
    assert!(!old.is_compatible);
    assert_eq!(old.error_message, Some("Driver version 470.10 is too old. CUDA 11.8 requires version 522.xx or higher.".to_string()));
    let none = driver_info(DriverQuery::NotFound);
    assert!(!none.installed);
    assert_eq!(none.error_message, Some("NVIDIA driver not found. Please install NVIDIA GPU drivers.".to_string()));
    let bad = driver_info(DriverQuery::Output("  weird  ".to_string()));
    assert_eq!(bad.error_message, Some("Failed to parse nvidia-smi output: 'weird'".to_string()));
    let code = driver_info(DriverQuery::Failed(-1));
    assert!(code.error_message.unwrap().starts_with("nvidia-smi exited with error code: -1. "));
    let launch = driver_info(DriverQuery::LaunchFailed("denied".to_string()));
    assert_eq!(launch.error_message, Some("Failed to execute nvidia-smi: denied (driver may be corrupted)".to_string()));
}

#[test]
fn records_and_defaults() {
    let d = TypingDelays::default();
    assert_eq!((d.clipboard_update_ms, d.keyboard_events_settle_ms, d.typing_complete_ms), (100, 300, 500));
    assert_eq!((d.character_interval_ms, d.short_operation_ms), (100, 100));
    let devices = get_audio_devices().unwrap();
    assert_eq!(devices.len(), 3);
    assert!(devices[0].is_default);
    assert_eq!(devices[2].name, "USB Audio Device");
    assert_eq!(test_frontend_backend_connection(), Ok("Backend connection successful!".to_string()));
    let rec = history_record_for(AsrResult {
        success: true,
        input_text: None,
        output_text: "out".to_string(),
        processor_type: "local".to_string(),
        processing_time_ms: Some(5),
        audio_file_path: None,
        error_message: None,
    });
    assert_eq!(rec.record_type, "asr");
    assert_eq!(rec.output_text, Some("out".to_string()));
    assert_eq!(rec.processor_type, Some("local".to_string()));
    let s = service_status_or_default(None, None);
    assert_eq!((s.active_service.as_str(), s.status.as_str()), ("local_asr", "offline"));
    let t = service_status_or_default(
        Some("x".to_string()),
        Some(ServiceStatusResponse { active_service: "y".to_string(), status: "online".to_string(), endpoint: None }),
    );
    assert_eq!(t.active_service, "y");
    assert_eq!(
        WhisperVadProcessor::new("m").err(),
        Some(VoiceError::Other("WhisperVad disabled for Windows migration".to_string()))
    );
}

#[test]
fn statistics() {
    assert_eq!(stats_service_name(Some("whisper")), "whisper_asr");
    assert_eq!(stats_service_name(Some("ollama")), "ollama_translation");
    assert_eq!(stats_service_name(None), "unknown_service");
    assert_eq!(latency_service_name(Some("whisper-rs")), "local_asr");
    assert_eq!(latency_service_name(Some("cloud")), "cloud_asr");
    assert_eq!(latency_service_name(Some("zzz")), "local_asr");
    assert_eq!(service_status_for(true), "online");
    assert_eq!(service_status_for(false), "error");
    assert_eq!(seconds_of_use(Some(2500)), 2);
    assert_eq!(seconds_of_use(Some(400)), 1);
    assert_eq!(seconds_of_use(None), 1);
    assert_eq!(seconds_of_use(Some(-5000)), 1);
}

#[test]
fn latency_summary() {
    let empty = latency_data(&[], &[]);
    assert_eq!((empty.current, empty.trend.as_str(), empty.trend_value, empty.history.len()), (0, "neutral", 0, 0));
    let lat: Vec<i64> = (0..25).map(|i| if i < 10 { 200 } else { 100 }).collect();
    let labels: Vec<String> = (0..25).map(|i| format!("t{}", i)).collect();
    let r = latency_data(&lat, &labels);
    assert_eq!(r.current, 200);
    assert_eq!(r.trend, "up");
    assert_eq!(r.trend_value, 100);
    assert_eq!(r.history.len(), 12);
    assert_eq!(r.history[0].time, "t11");
    assert_eq!(r.history[11].time, "t0");
    let few = latency_data(&[10, 21], &["a".to_string(), "b".to_string()]);
    assert_eq!(few.current, 15);
    assert_eq!(few.trend, "neutral");
    assert_eq!(few.history[0].val, 21);
}

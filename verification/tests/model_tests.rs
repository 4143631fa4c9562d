use voicetype::input::VoiceError;
use voicetype::models::{catalog_paths, model_loaded, reachable_sites, DownloadSite, ModelFile, ModelManager, WhisperModel};
use voicetype::platform::Platform;

fn manager() -> ModelManager {
    ModelManager::new(
        Platform::Linux,
        "/data/models",
        &[ModelFile::Found(Some(1_600_000_000)), ModelFile::Missing, ModelFile::Found(None)],
    )
}

#[test]
fn sites_are_listed_in_order() {
    let sites = DownloadSite::get_all_sites();
    assert_eq!(sites.len(), 2);
    assert_eq!(sites[0].id, "huggingface");
    assert_eq!(sites[1].base_url, "https://hf-mirror.com/ggerganov/whisper.cpp/resolve/main");
    assert_eq!(sites[0].connectivity_test_url(), "https://huggingface.co/ggerganov/whisper.cpp/resolve/main/ggml-tiny.bin");
    let s = DownloadSite::new("x", "X", "http://x");
    assert_eq!(s.name, "X");
    let r = reachable_sites(&[false, true]);
    assert_eq!(r.len(), 1);
    assert_eq!(r[0].id, "hf-mirror");
    assert_eq!(r[0].name, "HF-Mirror (China)");
    assert_eq!(r[0].base_url, "https://hf-mirror.com/ggerganov/whisper.cpp/resolve/main");
    let both = reachable_sites(&[true, true]);
    assert_eq!(both.len(), 2);
    assert_eq!(both[0].name, "Hugging Face (Official)");
    assert_eq!(both[0].base_url, "https://huggingface.co/ggerganov/whisper.cpp/resolve/main");
    assert!(reachable_sites(&[false, false]).is_empty());
}

#[test]
fn download_urls_drop_trailing_slashes() {
    let mut m = WhisperModel::new("tiny", "Tiny", "ggml-tiny.bin", 5, "small");
    m.set_download_url("https://host/base//");
    assert_eq!(m.download_url, "https://host/base/ggml-tiny.bin");
    assert_eq!(m.size_bytes, 5);
    assert!(!m.is_downloaded);
}

#[test]
fn catalog_reflects_the_files_found() {
    let mm = manager();
    let models = mm.get_models();
    assert_eq!(models.len(), 3);
    assert_eq!(models[0].name, "large-v3-turbo");
    assert!(models[0].is_downloaded);
    assert_eq!(models[0].file_path, Some("/data/models/ggml-large-v3-turbo.bin".to_string()));
    assert_eq!(models[0].size_bytes, 1_600_000_000);
    assert_eq!(models[0].download_progress, 100);
    assert!(!models[1].is_downloaded);
    assert_eq!(models[1].size_bytes, 990 * 1048576);
    assert_eq!(models[2].size_bytes, 0);
    assert_eq!(mm.get_downloaded_models().len(), 2);
    let stats = mm.get_model_stats();
    assert_eq!(stats.total_models, 3);
    assert_eq!(stats.downloaded_models, 2);
    assert_eq!(stats.total_size_bytes, 1_600_000_000 + 990 * 1048576);
    assert_eq!(stats.downloaded_size_bytes, 1_600_000_000);
    assert_eq!(stats.models_dir, "/data/models");
}

#[test]
fn downloads_pick_a_site_and_refuse_repeats() {
    let mut mm = manager();
    assert_eq!(
        mm.download_model("nope", &[true, true]).err(),
        Some(VoiceError::Other("Model 'nope' not found".to_string()))
    );
    assert_eq!(
        mm.download_model("large-v3-turbo", &[true, true]).err(),
        Some(VoiceError::Other("Model already downloaded".to_string()))
    );
    assert_eq!(mm.get_preferred_site(), Some("huggingface".to_string()));
    assert_eq!(
        mm.download_model("large-v3-turbo-q5_0", &[false, false]).err(),
        Some(VoiceError::Other("No accessible download site found. Please check your internet connection.".to_string()))
    );
    assert_eq!(mm.get_preferred_site(), None);
    let plan = mm.download_model("large-v3-turbo-q5_0", &[false, true]).unwrap();
    assert_eq!(plan.site.id, "hf-mirror");
    assert_eq!(plan.model.download_url, "https://hf-mirror.com/ggerganov/whisper.cpp/resolve/main/ggml-large-v3-turbo-q5_0.bin");
    assert!(plan.model.is_downloading);
    assert_eq!(plan.target_path, "/data/models/ggml-large-v3-turbo-q5_0.bin");
    assert_eq!(plan.temp_path, "/data/models/ggml-large-v3-turbo-q5_0.bin.tmp");
    assert_eq!(
        mm.download_model("large-v3-turbo-q5_0", &[true, true]).err(),
        Some(VoiceError::Other("Model already downloading".to_string()))
    );
    assert_eq!(mm.get_preferred_site(), Some("hf-mirror".to_string()));
}

#[test]
fn deleting_and_activating_models() {
    let mut mm = manager();
    assert_eq!(mm.check_delete("large-v3-turbo-q5_0").err(), Some(VoiceError::Other("Model not downloaded".to_string())));
    assert_eq!(mm.check_delete("large-v2").unwrap(), Some("/data/models/ggml-large-v2.bin".to_string()));
    assert_eq!(mm.set_active_model("large-v2").unwrap(), "/data/models/ggml-large-v2.bin");
    assert_eq!(mm.get_active_model(Some("/data/models/ggml-large-v2.bin")), Some("large-v2".to_string()));
    assert_eq!(
        mm.delete_model("large-v2", Some("busy".to_string())).err(),
        Some(VoiceError::Other("Failed to delete model file: busy".to_string()))
    );
    assert_eq!(mm.delete_model("large-v2", None), Ok(()));
    assert_eq!(mm.get_active_model(Some("/data/models/ggml-large-v2.bin")), None);
    assert_eq!(
        mm.set_active_model("large-v2").err(),
        Some(VoiceError::Other("Downloaded model 'large-v2' not found".to_string()))
    );
    assert_eq!(mm.get_active_model(None), None);
}

#[test]
fn loaded_model_check() {
    assert!(model_loaded(Some("small"), "small", true, Some("/m/ggml-small.bin")));
    assert!(!model_loaded(Some("small"), "small", true, Some("/m/ggml-base.bin")));
    assert!(model_loaded(Some("small"), "small", true, None));
    assert!(!model_loaded(Some("small"), "small", false, None));
    assert!(!model_loaded(Some("base"), "small", true, None));
    assert!(!model_loaded(None, "small", true, None));
}

#[test]
fn active_model_reads_back() {
    let mm = manager();
    for name in ["large-v3-turbo", "large-v2"] {
        let path = mm.set_active_model(name).unwrap();
        assert_eq!(mm.get_active_model(Some(&path)), Some(name.to_string()));
    }
    assert_eq!(
        catalog_paths(Platform::Linux, "/data/models"),
        vec![
            "/data/models/ggml-large-v3-turbo.bin".to_string(),
            "/data/models/ggml-large-v3-turbo-q5_0.bin".to_string(),
            "/data/models/ggml-large-v2.bin".to_string(),
        ]
    );
    assert_eq!(catalog_paths(Platform::Windows, "C:\\m\\")[2], "C:\\m\\ggml-large-v2.bin");
}

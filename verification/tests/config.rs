use steno_core::config::{
    CaptureSettings, ConsentSettings, DetectionSettings, InferenceSettings, RetentionPolicy,
    StorageSettings, UiSettings,
};
use steno_core::detection::DetectionMode;
use steno_core::Config;

#[test]
fn test_config_defaults() {
    let config = Config::default();
    assert!(config.capture.mic_enabled);
    assert!(!config.capture.system_audio_enabled);
    assert_eq!(config.capture.sample_rate, 16000);
    assert_eq!(config.detection.mode, DetectionMode::Armed);
    assert_eq!(config.inference.endpoint_url, "https://openrouter.ai/api/v1");
    assert!(config.consent.require_ack);
}

#[test]
fn test_allowlist_default() {
    let config = Config::default();
    assert!(config.detection.allowlist.contains(&"zoom".to_string()));
    assert!(config.detection.allowlist.contains(&"Teams".to_string()));
}

#[test]
fn section_defaults() {
    let c = CaptureSettings::default();
    assert_eq!(c.channels, 1);
    assert_eq!(c.channel_mode, "separate");
    let d = DetectionSettings::default();
    assert_eq!(d.poll_interval_ms, 1000);
    assert_eq!(d.candidate_poll_interval_ms, 500);
    let i = InferenceSettings::default();
    assert_eq!(i.model, "openai/gpt-4o-mini-transcribe");
    assert!(!i.api_key_stored);
    assert_eq!(i.chunk_duration_secs, 55);
    assert_eq!(i.overlap_secs, 1);
    let s = StorageSettings::default();
    assert_eq!(s.retention_policy, RetentionPolicy::Keep);
    assert_eq!(s.retention_days, 30);
    assert!(s.output_dir.ends_with("sessions"));
    let k = ConsentSettings::default();
    assert_eq!(k.banner_text, "This meeting may be recorded for transcription purposes.");
    assert!(k.play_chime);
    let u = UiSettings::default();
    assert!(u.notifications_enabled && u.minimize_to_tray && u.start_minimized);
}

#[test]
fn storage_in_data_dir() {
    let dir = std::path::PathBuf::from("/data/steno");
    let s = StorageSettings::in_data_dir(&dir);
    assert_eq!(s.output_dir, std::path::PathBuf::from("/data/steno/sessions"));
    assert_eq!(StorageSettings::data_dir(None), std::path::PathBuf::from("./steno-output"));
}

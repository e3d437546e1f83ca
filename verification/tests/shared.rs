use steno_core::config::RetentionPolicy;
use steno_core::consent::{ConsentLogEntry, ConsentState};
use steno_core::detection::DetectionMode;
use steno_core::storage::{Session, SessionOutputPaths};

#[test]
fn test_consent_state_transitions() {
    let state = ConsentState::Pending;
    assert_eq!(state, ConsentState::Pending);
    assert_ne!(state, ConsentState::Acknowledged);
}

#[test]
fn test_consent_log_entry_creation() {
    let entry = ConsentLogEntry {
        session_id: uuid::Uuid::new_v4(),
        timestamp: std::time::SystemTime::now(),
        banner_text: "This meeting may be recorded".into(),
        acknowledgment_method: "click".into(),
        app_version: "0.1.0".into(),
    };
    assert_eq!(entry.app_version, "0.1.0");
    assert_eq!(entry.acknowledgment_method, "click");
}

#[test]
fn test_session_creation() {
    let session = Session {
        id: uuid::Uuid::new_v4(),
        started_at: std::time::SystemTime::now(),
        ended_at: None,
        detection_mode: DetectionMode::Armed,
        detection_app: Some("zoom.us".into()),
        mic_wav_path: None,
        system_wav_path: None,
        mixed_wav_path: None,
        md_transcript_path: None,
        json_transcript_path: None,
        consent_log: None,
        retention_policy: RetentionPolicy::Keep,
        app_version: "0.1.0".into(),
    };
    assert!(session.ended_at.is_none());
    assert_eq!(session.detection_mode, DetectionMode::Armed);
}

#[test]
fn test_session_output_paths_defaults() {
    let paths = SessionOutputPaths {
        mic_wav: Some(std::path::PathBuf::from("output/mic.wav")),
        system_wav: None,
        mixed_wav: None,
        md_transcript: None,
        json_transcript: None,
    };
    assert!(paths.mic_wav.is_some());
    assert!(paths.system_wav.is_none());
}

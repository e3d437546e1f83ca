//! Recorded meeting sessions and their output files.
use vstd::prelude::*;
use crate::config::RetentionPolicy;
use crate::detection::DetectionMode;
use crate::shared::consent::ConsentLogEntry;

verus! {

/// A recorded meeting session.
#[derive(Debug, Clone)]
pub struct Session {
    pub id: uuid::Uuid,
    pub started_at: std::time::SystemTime,
    pub ended_at: Option<std::time::SystemTime>,
    pub detection_mode: DetectionMode,
    pub detection_app: Option<String>,
    pub mic_wav_path: Option<std::path::PathBuf>,
    pub system_wav_path: Option<std::path::PathBuf>,
    pub mixed_wav_path: Option<std::path::PathBuf>,
    pub md_transcript_path: Option<std::path::PathBuf>,
    pub json_transcript_path: Option<std::path::PathBuf>,
    pub consent_log: Option<ConsentLogEntry>,
    pub retention_policy: RetentionPolicy,
    pub app_version: String,
}

/// Output paths for a finalized session.
#[derive(Debug, Clone)]
pub struct SessionOutputPaths {
    pub mic_wav: Option<std::path::PathBuf>,
    pub system_wav: Option<std::path::PathBuf>,
    pub mixed_wav: Option<std::path::PathBuf>,
    pub md_transcript: Option<std::path::PathBuf>,
    pub json_transcript: Option<std::path::PathBuf>,
}

} // verus!

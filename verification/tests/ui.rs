use steno_core::events::UiState;
use steno_core::ui::state::TrayIconState;
use steno_core::ui::tray::{setup_tray, status_text, status_text_for_secs, TrayConfig, TrayMenuAction};

#[test]
fn test_status_text_idle() {
    assert_eq!(status_text(false, None), "steno-core — idle");
}

#[test]
fn test_status_text_capturing_no_elapsed() {
    assert_eq!(status_text(true, None), "steno-core — recording");
}

#[test]
fn test_status_text_capturing_with_elapsed() {
    let dur = std::time::Duration::from_secs(125); // 2m 5s
    assert_eq!(status_text(true, Some(dur)), "steno-core — recording [02:05]");
}

#[test]
fn test_status_text_capturing_long_duration() {
    let dur = std::time::Duration::from_secs(3661); // 1h 1m 1s
    assert_eq!(status_text(true, Some(dur)), "steno-core — recording [61:01]");
}

#[test]
fn status_text_edges() {
    assert_eq!(status_text(false, Some(std::time::Duration::from_secs(5))), "steno-core — idle");
    assert_eq!(status_text(true, Some(std::time::Duration::from_millis(999))), "steno-core — recording [00:00]");
    assert_eq!(status_text_for_secs(true, Some(59)), "steno-core — recording [00:59]");
    assert_eq!(status_text_for_secs(true, Some(600)), "steno-core — recording [10:00]");
    assert_eq!(status_text_for_secs(true, Some(6000)), "steno-core — recording [100:00]");
    assert_eq!(
        status_text_for_secs(true, Some(u64::MAX)),
        format!("steno-core — recording [{:02}:{:02}]", u64::MAX / 60, u64::MAX % 60)
    );
}

#[test]
fn test_tray_config_defaults() {
    let config = TrayConfig::default();
    assert_eq!(config.tooltip, "steno-core — idle");
    assert!(config.icon_path.is_none());
}

#[test]
fn setup_tray_starts_idle() {
    let config = setup_tray();
    assert_eq!(config.tooltip, status_text(false, None));
    assert!(config.icon_path.is_none());
    assert_ne!(TrayMenuAction::Quit, TrayMenuAction::ToggleCapture);
}

#[test]
fn tray_icon_for_ui_state() {
    assert_eq!(TrayIconState::from(UiState::Idle), TrayIconState::Idle);
    assert_eq!(TrayIconState::from(UiState::MeetingDetected), TrayIconState::MeetingDetected);
    assert_eq!(TrayIconState::from(UiState::ArmingAwaitingConfirm), TrayIconState::MeetingDetected);
    assert_eq!(TrayIconState::from(UiState::Capturing), TrayIconState::Capturing);
    assert_eq!(
        TrayIconState::from(UiState::CapturingAndTranscribing),
        TrayIconState::CapturingAndTranscribing
    );
}

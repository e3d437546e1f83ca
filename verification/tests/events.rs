use steno_core::events::state::AppState;
use steno_core::events::{ErrorSeverity, UiState};

#[test]
fn test_error_severity_order() {
    assert!((ErrorSeverity::Info as u8) < (ErrorSeverity::Warning as u8));
    assert!((ErrorSeverity::Warning as u8) < (ErrorSeverity::Error as u8));
    assert!((ErrorSeverity::Error as u8) < (ErrorSeverity::Critical as u8));
}

#[test]
fn test_state_starts_idle() {
    let state = AppState::default();
    assert!(state.is_idle());
    assert!(!state.is_capturing());
    assert!(state.elapsed().is_none());
}

#[test]
fn test_transition_to_capturing() {
    let mut state = AppState::Idle;
    state.transition_to_capturing();
    assert!(state.is_capturing());
    assert!(!state.is_idle());
    assert!(state.elapsed().is_some());
}

#[test]
fn test_transition_back_to_idle() {
    let mut state = AppState::Idle;
    state.transition_to_capturing();
    state.transition_to_idle();
    assert!(state.is_idle());
    assert!(!state.is_capturing());
}

#[test]
fn candidate_and_transcribing_states() {
    let now = std::time::Instant::now();
    let candidate = AppState::MeetingCandidate { detected_at: now, app_name: "zoom.us" };
    assert!(!candidate.is_idle());
    assert!(!candidate.is_capturing());
    assert!(candidate.elapsed().is_some());
    let transcribing = AppState::CapturingAndTranscribing { started_at: now };
    assert!(transcribing.is_capturing());
    assert!(transcribing.elapsed().is_some());
}

#[test]
fn ui_states_are_distinct() {
    let states = [
        UiState::Idle,
        UiState::MeetingDetected,
        UiState::ArmingAwaitingConfirm,
        UiState::Capturing,
        UiState::CapturingAndTranscribing,
    ];
    for (i, a) in states.iter().enumerate() {
        for (j, b) in states.iter().enumerate() {
            assert_eq!(i == j, a == b);
        }
    }
}

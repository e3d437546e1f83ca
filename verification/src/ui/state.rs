//! The tray icon state derived from the application's UI state.
use vstd::prelude::*;
use crate::events::UiState;

verus! {

/// Icon state derived from the current application state.
/// Used by the system tray to update the icon.
#[derive(Debug, Clone, Copy, PartialEq, Eq, Structural)]
pub enum TrayIconState {
    Idle,
    MeetingDetected,
    Capturing,
    CapturingAndTranscribing,
}

/// The icon shown for each UI state: awaiting confirmation shows as a
/// detected meeting; every other state has an icon of its own.
pub open spec fn icon_for(state: UiState) -> TrayIconState {
    match state {
        UiState::Idle => TrayIconState::Idle,
        UiState::MeetingDetected => TrayIconState::MeetingDetected,
        UiState::ArmingAwaitingConfirm => TrayIconState::MeetingDetected,
        UiState::Capturing => TrayIconState::Capturing,
        UiState::CapturingAndTranscribing => TrayIconState::CapturingAndTranscribing,
    }
}

impl From<UiState> for TrayIconState {
    fn from(state: UiState) -> (r: TrayIconState) {
        match state {
            UiState::Idle => TrayIconState::Idle,
            UiState::MeetingDetected => TrayIconState::MeetingDetected,
            UiState::ArmingAwaitingConfirm => TrayIconState::MeetingDetected,
            UiState::Capturing => TrayIconState::Capturing,
            UiState::CapturingAndTranscribing => TrayIconState::CapturingAndTranscribing,
        }
    }
}

impl vstd::std_specs::convert::FromSpecImpl<UiState> for TrayIconState {
    open spec fn obeys_from_spec() -> bool {
        true
    }

    open spec fn from_spec(state: UiState) -> TrayIconState {
        icon_for(state)
    }
}

} // verus!

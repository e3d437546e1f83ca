//! The application's UI states, error severities and lifecycle state.
pub mod state;

use vstd::prelude::*;

verus! {

/// How serious an error surfaced to the UI is, from least to most.
#[derive(Debug, Clone, Copy, PartialEq, Eq, Structural)]
pub enum ErrorSeverity {
    Info,
    Warning,
    Error,
    Critical,
}

/// Top-level UI state the application can be in.
#[derive(Debug, Clone, Copy, PartialEq, Eq, Structural)]
pub enum UiState {
    Idle,
    MeetingDetected,
    ArmingAwaitingConfirm,
    Capturing,
    CapturingAndTranscribing,
}

} // verus!

//! Application state machine for the capture lifecycle.
use vstd::prelude::*;
use crate::std_types::{instant_elapsed, instant_now};

verus! {

/// High-level application state describing what the app is doing.
#[derive(Debug, Clone, Copy, PartialEq, Eq)]
pub enum AppState {
    /// Initially idle — no meeting detected, not capturing.
    Idle,

    /// A meeting candidate was detected (foreground app match + optional audio activity).
    /// In `armed` mode, the app pauses here and waits for user confirmation.
    MeetingCandidate {
        detected_at: std::time::Instant,
        app_name: &'static str,
    },

    /// Actively capturing audio (mic + system audio if available).
    Capturing {
        started_at: std::time::Instant,
    },

    /// Capturing and simultaneously transcribing.
    CapturingAndTranscribing {
        started_at: std::time::Instant,
    },
}

/// The state is idle.
pub open spec fn idle(s: AppState) -> bool {
    s is Idle
}

/// The state is one of the two capturing states.
pub open spec fn capturing(s: AppState) -> bool {
    s is Capturing || s is CapturingAndTranscribing
}

impl AppState {
    /// Whether the app is idle.
    pub fn is_idle(&self) -> (r: bool)
        ensures
            r == idle(*self),
    {
        matches!(self, AppState::Idle)
    }

    /// Whether the app is capturing, with or without transcription.
    pub fn is_capturing(&self) -> (r: bool)
        ensures
            r == capturing(*self),
    {
        matches!(self, AppState::Capturing { .. } | AppState::CapturingAndTranscribing { .. })
    }

    /// The time since the state began: `None` when idle, else the time
    /// passed since the candidate was detected or capture started (its
    /// value depends on the clock).
    pub fn elapsed(&self) -> (r: Option<std::time::Duration>)
        ensures
            r is None <==> idle(*self),
    {
        match self {
            AppState::Capturing { started_at }
            | AppState::CapturingAndTranscribing { started_at }
            | AppState::MeetingCandidate { detected_at: started_at, .. } => {
                Some(instant_elapsed(started_at))
            },
            _ => None,
        }
    }

    /// Start capturing now.
    pub fn transition_to_capturing(&mut self)
        ensures
            *final(self) is Capturing,
    {
        *self = AppState::Capturing { started_at: instant_now() };
    }

    /// Return to idle.
    pub fn transition_to_idle(&mut self)
        ensures
            *final(self) == AppState::Idle,
    {
        *self = AppState::Idle;
    }
}

impl Default for AppState {
    /// The initial state is idle.
    fn default() -> (r: AppState)
        ensures
            r == AppState::Idle,
    {
        AppState::Idle
    }
}

/// No state is both idle and capturing; after starting to capture the app
/// is capturing and not idle, and after returning to idle it is idle and not
/// capturing.
pub proof fn lemma_idle_and_capturing_exclusive(s: AppState)
    ensures
        !(idle(s) && capturing(s)),
        s is Capturing ==> capturing(s) && !idle(s),
        s == AppState::Idle ==> idle(s) && !capturing(s),
{
}

} // verus!

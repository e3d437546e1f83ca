//! Core library for automatic meeting audio capture: capture configuration
//! and capabilities, meeting detection decisions, the WAV writer's
//! decisions, application state, configuration defaults and tray status
//! text.

pub mod audio;
pub mod config;
pub mod detection;
pub mod error;
pub mod events;
pub mod shared;
pub mod std_types;
pub mod ui;

pub use audio::{CaptureCapabilities, CaptureConfig, StreamId};
pub use config::Config;
pub use detection::{DetectionEngine, DetectionEvent, DetectionManager, DetectionMode};
pub use error::CaptureError;
pub use events::UiState;
pub use shared::{consent, storage};

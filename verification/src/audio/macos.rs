//! macOS system audio capture (CoreAudio process taps, ScreenCaptureKit fallback):
//! the backend's identity and capabilities.
use vstd::prelude::*;
use crate::audio::{CapabilitiesView, CaptureCapabilities, ChannelMode};
use crate::error::CaptureError;

verus! {

/// macOS system audio capture backend.
#[derive(Default)]
pub struct MacAudioCapture;

/// What the macOS backend reports: system audio with device-change events,
/// up to 48 kHz, at 16, 44.1 or 48 kHz, separate channels.
pub open spec fn macos_capabilities() -> CapabilitiesView {
    CapabilitiesView {
        mic_available: false,
        system_audio_available: true,
        device_change_events: true,
        max_sample_rate: 48000,
        supported_sample_rates: seq![16000u32, 44100, 48000],
        supported_channel_modes: seq![ChannelMode::Separate],
    }
}

impl MacAudioCapture {
    pub fn new() -> Self {
        MacAudioCapture
    }

    /// The capabilities of this backend.
    pub fn capabilities(&self) -> (r: CaptureCapabilities)
        ensures
            r@ == macos_capabilities(),
    {
        let r = CaptureCapabilities {
            mic_available: false,
            system_audio_available: true,
            device_change_events: true,
            max_sample_rate: 48000,
            supported_sample_rates: vec![16000, 44100, 48000],
            supported_channel_modes: vec![ChannelMode::Separate],
        };
        assert(r.supported_sample_rates@ =~= seq![16000u32, 44100, 48000]);
        assert(r.supported_channel_modes@ =~= seq![ChannelMode::Separate]);
        r
    }
}

/// Why system audio capture cannot start with this backend: it needs
/// entitlements and runtime permissions.
pub open spec fn macos_unavailable_message() -> Seq<char> {
    "macOS system audio capture requires platform-specific entitlements and runtime permissions. Enable via `cargo build --features macos-audio` with the proper code signing entitlements."@
}

impl MacAudioCapture {
    /// The error a capture start gives.
    pub fn start_error(&self) -> (r: CaptureError)
        ensures
            r matches CaptureError::SystemAudioUnavailable(m) && m@ == macos_unavailable_message(),
    {
        CaptureError::SystemAudioUnavailable(String::from_str("macOS system audio capture requires platform-specific entitlements and runtime permissions. Enable via `cargo build --features macos-audio` with the proper code signing entitlements."))
    }
}

} // verus!

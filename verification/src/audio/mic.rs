//! Cross-platform microphone capture: the backend's identity and
//! capabilities.
use vstd::prelude::*;
use crate::audio::{CapabilitiesView, CaptureCapabilities, ChannelMode};
use crate::error::CaptureError;

verus! {

/// Microphone capture backend. Whether a microphone is present is found
/// by asking the platform's default audio host for an input device.
#[derive(Default)]
pub struct MicCapture;

/// What the microphone backend reports, given whether an input device is
/// present: no system audio, no device-change events, up to 48 kHz, at
/// 8, 16, 44.1 or 48 kHz, separate channels.
pub open spec fn mic_capabilities(mic_available: bool) -> CapabilitiesView {
    CapabilitiesView {
        mic_available,
        system_audio_available: false,
        device_change_events: false,
        max_sample_rate: 48000,
        supported_sample_rates: seq![8000u32, 16000, 44100, 48000],
        supported_channel_modes: seq![ChannelMode::Separate],
    }
}

impl MicCapture {
    pub fn new() -> Self {
        MicCapture
    }

    /// The capabilities of this backend, given whether the default host has
    /// an input device.
    pub fn capabilities_for(&self, mic_available: bool) -> (r: CaptureCapabilities)
        ensures
            r@ == mic_capabilities(mic_available),
    {
        let r = CaptureCapabilities {
            mic_available,
            system_audio_available: false,
            device_change_events: false,
            max_sample_rate: 48000,
            supported_sample_rates: vec![8000, 16000, 44100, 48000],
            supported_channel_modes: vec![ChannelMode::Separate],
        };
        assert(r.supported_sample_rates@ =~= seq![8000u32, 16000, 44100, 48000]);
        assert(r.supported_channel_modes@ =~= seq![ChannelMode::Separate]);
        r
    }
}

/// Why microphone capture cannot start: it needs a running audio system.
pub open spec fn mic_unavailable_message() -> Seq<char> {
    "cpal mic capture requires a running audio system and is platform-dependent. Enable via the 'mic-capture' feature flag."@
}

impl MicCapture {
    /// The error a capture start gives.
    pub fn start_error(&self) -> (r: CaptureError)
        ensures
            r matches CaptureError::MicUnavailable(m) && m@ == mic_unavailable_message(),
    {
        CaptureError::MicUnavailable(String::from_str("cpal mic capture requires a running audio system and is platform-dependent. Enable via the 'mic-capture' feature flag."))
    }
}

} // verus!

//! Windows system audio capture via WASAPI loopback:
//! the backend's identity and capabilities.
use vstd::prelude::*;
use crate::audio::{CapabilitiesView, CaptureCapabilities, ChannelMode};
use crate::error::CaptureError;

verus! {

/// Windows system audio capture via WASAPI loopback.
pub struct WindowsAudioCapture;

/// What the Windows backend reports: system audio with device-change events,
/// up to 48 kHz, at 16, 44.1, 48 or 96 kHz, separate channels.
pub open spec fn windows_capabilities() -> CapabilitiesView {
    CapabilitiesView {
        mic_available: false,
        system_audio_available: true,
        device_change_events: true,
        max_sample_rate: 48000,
        supported_sample_rates: seq![16000u32, 44100, 48000, 96000],
        supported_channel_modes: seq![ChannelMode::Separate],
    }
}

impl WindowsAudioCapture {
    pub fn new() -> Self {
        WindowsAudioCapture
    }

    /// The capabilities of this backend.
    pub fn capabilities(&self) -> (r: CaptureCapabilities)
        ensures
            r@ == windows_capabilities(),
    {
        let r = CaptureCapabilities {
            mic_available: false,
            system_audio_available: true,
            device_change_events: true,
            max_sample_rate: 48000,
            supported_sample_rates: vec![16000, 44100, 48000, 96000],
            supported_channel_modes: vec![ChannelMode::Separate],
        };
        assert(r.supported_sample_rates@ =~= seq![16000u32, 44100, 48000, 96000]);
        assert(r.supported_channel_modes@ =~= seq![ChannelMode::Separate]);
        r
    }
}

/// Why system audio capture cannot start with this backend: its
/// implementation needs the Windows audio graph API (on Windows), or the
/// platform is not Windows.
pub open spec fn windows_unavailable_message(on_windows: bool) -> Seq<char> {
    if on_windows {
        "WASAPI loopback capture requires Windows-specific implementation via the windows crate's AudioGraph API. Enable via `--cfg windows_wasapi`."@
    } else {
        "WASAPI loopback is only available on Windows"@
    }
}

impl WindowsAudioCapture {
    /// The error a capture start gives, on Windows (`on_windows`) or
    /// elsewhere.
    pub fn start_error(&self, on_windows: bool) -> (r: CaptureError)
        ensures
            r matches CaptureError::SystemAudioUnavailable(m) && m@ == windows_unavailable_message(on_windows),
    {
        if on_windows {
            CaptureError::SystemAudioUnavailable(String::from_str("WASAPI loopback capture requires Windows-specific implementation via the windows crate's AudioGraph API. Enable via `--cfg windows_wasapi`."))
        } else {
            CaptureError::SystemAudioUnavailable(String::from_str("WASAPI loopback is only available on Windows"))
        }
    }
}

} // verus!

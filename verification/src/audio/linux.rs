//! Linux system audio capture (PipeWire preferred, PulseAudio fallback):
//! the backend's identity and capabilities.
use vstd::prelude::*;
use crate::audio::{CapabilitiesView, CaptureCapabilities, ChannelMode};
use crate::error::CaptureError;

verus! {

/// Linux system audio capture backend.
///
/// Uses PipeWire's monitor port on the default sink (preferred).
/// Falls back to PulseAudio .monitor source when PipeWire is absent.
pub struct LinuxAudioCapture;

/// What the Linux backend reports: system audio with device-change events,
/// up to 48 kHz, at 16, 44.1 or 48 kHz, separate channels.
pub open spec fn linux_capabilities() -> CapabilitiesView {
    CapabilitiesView {
        mic_available: false,
        system_audio_available: true,
        device_change_events: true,
        max_sample_rate: 48000,
        supported_sample_rates: seq![16000u32, 44100, 48000],
        supported_channel_modes: seq![ChannelMode::Separate],
    }
}

impl LinuxAudioCapture {
    pub fn new() -> Self {
        LinuxAudioCapture
    }

    /// The capabilities of this backend.
    pub fn capabilities(&self) -> (r: CaptureCapabilities)
        ensures
            r@ == linux_capabilities(),
    {
        let r = CaptureCapabilities {
            mic_available: false,
            system_audio_available: true,
            device_change_events: true,
            max_sample_rate: 48000,
            supported_sample_rates: vec![16000, 44100, 48000],
            supported_channel_modes: vec![ChannelMode::Separate],
        };
        assert(r.supported_sample_rates@ =~= seq![16000u32, 44100, 48000]);
        assert(r.supported_channel_modes@ =~= seq![ChannelMode::Separate]);
        r
    }
}

/// Why system audio capture cannot start with this backend: its
/// implementation needs platform packages (on Linux), or the platform is
/// not Linux.
pub open spec fn linux_unavailable_message(on_linux: bool) -> Seq<char> {
    if on_linux {
        "PipeWire/PulseAudio capture requires platform-specific implementation. Enable via `cargo build --features linux-audio` with the appropriate system packages."@
    } else {
        "PipeWire/PulseAudio is only available on Linux"@
    }
}

impl LinuxAudioCapture {
    /// The error a capture start gives, on Linux (`on_linux`) or elsewhere.
    pub fn start_error(&self, on_linux: bool) -> (r: CaptureError)
        ensures
            r matches CaptureError::SystemAudioUnavailable(m) && m@ == linux_unavailable_message(on_linux),
    {
        if on_linux {
            CaptureError::SystemAudioUnavailable(String::from_str("PipeWire/PulseAudio capture requires platform-specific implementation. Enable via `cargo build --features linux-audio` with the appropriate system packages."))
        } else {
            CaptureError::SystemAudioUnavailable(String::from_str("PipeWire/PulseAudio is only available on Linux"))
        }
    }
}

} // verus!

//! The answers the desktop shell's commands give when no capture or
//! detection is running.
use vstd::prelude::*;
use crate::audio::{CapabilitiesView, CaptureCapabilities};
use crate::detection::DetectionMode;

verus! {

/// The capabilities reported with no capture manager: nothing available,
/// no rates and no channel modes.
pub open spec fn idle_capabilities() -> CapabilitiesView {
    CapabilitiesView {
        mic_available: false,
        system_audio_available: false,
        device_change_events: false,
        max_sample_rate: 0,
        supported_sample_rates: Seq::empty(),
        supported_channel_modes: Seq::empty(),
    }
}

/// The capabilities the shell reports: the running manager's, or none.
pub fn reported_capabilities(manager_caps: Option<CaptureCapabilities>) -> (r: CaptureCapabilities)
    ensures
        r@ == match manager_caps { Some(c) => c@, None => idle_capabilities() },
{
    match manager_caps {
        Some(c) => c,
        None => {
            let r = CaptureCapabilities {
                mic_available: false,
                system_audio_available: false,
                device_change_events: false,
                max_sample_rate: 0,
                supported_sample_rates: Vec::new(),
                supported_channel_modes: Vec::new(),
            };
            assert(r@.supported_sample_rates =~= Seq::<u32>::empty());
            r
        },
    }
}

/// The detection mode the shell reports: the running manager's, or
/// `Armed` when detection is not running.
pub fn reported_detection_mode(manager_mode: Option<DetectionMode>) -> (r: DetectionMode)
    ensures
        r == match manager_mode { Some(m) => m, None => DetectionMode::Armed },
{
    match manager_mode {
        Some(m) => m,
        None => DetectionMode::Armed,
    }
}

} // verus!

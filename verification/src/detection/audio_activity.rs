//! The audio activity sensor's answer from what the default input device
//! query found.
use vstd::prelude::*;
use crate::error::DetectionError;

verus! {

/// What asking the platform's default audio host for its input device found.
#[derive(Debug)]
pub enum InputProbe {
    /// No default input device.
    NoDevice,
    /// A device, but its default input configuration could not be read; the
    /// reason's text.
    NoConfig(String),
    /// A device with an input configuration.
    Ready,
}

/// The sensor's answer for a probe: an `AudioSensor` error naming what is
/// missing, or, for a device with an input configuration, possibly active.
pub open spec fn input_activity_spec(probe: &InputProbe) -> Result<bool, Seq<char>> {
    match probe {
        InputProbe::NoDevice => Err("no input device"@),
        InputProbe::NoConfig(reason) => Err("no input config: "@ + reason@),
        InputProbe::Ready => Ok(true),
    }
}

/// Whether an audio input device appears to be active, from what the probe
/// found. A device with an input configuration is taken as possibly active.
pub fn input_activity(probe: InputProbe) -> (r: Result<bool, DetectionError>)
    ensures
        match input_activity_spec(&probe) {
            Ok(b) => r == Ok::<bool, DetectionError>(b),
            Err(m) => r matches Err(DetectionError::AudioSensor(t)) && t@ == m,
        },
{
    match probe {
        InputProbe::NoDevice => Err(DetectionError::AudioSensor(String::from_str("no input device"))),
        InputProbe::NoConfig(reason) => {
            let mut t = String::from_str("no input config: ");
            t.append(reason.as_str());
            Err(DetectionError::AudioSensor(t))
        },
        InputProbe::Ready => Ok(true),
    }
}

} // verus!

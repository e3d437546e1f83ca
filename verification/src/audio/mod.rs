//! Audio capture: capabilities, configuration, stream identities, and the
//! decisions the capture manager makes about its backends.
pub mod linux;
pub mod macos;
pub mod mic;
pub mod wav_writer;
pub mod windows;

use vstd::prelude::*;
use crate::error::CaptureError;
use crate::std_types::{path_from_str, path_of};

verus! {

/// The channel layouts a capture can be written in.
#[derive(Debug, Clone, Copy, PartialEq, Eq, Structural)]
pub enum ChannelMode {
    /// Mic + system as independent WAVs
    Separate,
    /// Single mixed WAV
    Mixed,
    /// Both separate and mixed
    Both,
}

/// Capability flags returned by each platform backend.
#[derive(Debug, Clone)]
pub struct CaptureCapabilities {
    pub mic_available: bool,
    pub system_audio_available: bool,
    pub device_change_events: bool,
    pub max_sample_rate: u32,
    pub supported_sample_rates: Vec<u32>,
    pub supported_channel_modes: Vec<ChannelMode>,
}

/// The contents of a set of capability flags.
pub struct CapabilitiesView {
    pub mic_available: bool,
    pub system_audio_available: bool,
    pub device_change_events: bool,
    pub max_sample_rate: u32,
    pub supported_sample_rates: Seq<u32>,
    pub supported_channel_modes: Seq<ChannelMode>,
}

impl View for CaptureCapabilities {
    type V = CapabilitiesView;

    open spec fn view(&self) -> CapabilitiesView {
        CapabilitiesView {
            mic_available: self.mic_available,
            system_audio_available: self.system_audio_available,
            device_change_events: self.device_change_events,
            max_sample_rate: self.max_sample_rate,
            supported_sample_rates: self.supported_sample_rates@,
            supported_channel_modes: self.supported_channel_modes@,
        }
    }
}

impl CaptureCapabilities {
    /// An exact copy.
    pub fn copy(&self) -> (r: CaptureCapabilities)
        ensures
            r@ == self@,
    {
        CaptureCapabilities {
            mic_available: self.mic_available,
            system_audio_available: self.system_audio_available,
            device_change_events: self.device_change_events,
            max_sample_rate: self.max_sample_rate,
            supported_sample_rates: copy_u32s(&self.supported_sample_rates),
            supported_channel_modes: copy_modes(&self.supported_channel_modes),
        }
    }
}

/// A copy of a list of sample rates.
fn copy_u32s(v: &Vec<u32>) -> (r: Vec<u32>)
    ensures
        r@ == v@,
{
    let mut r: Vec<u32> = Vec::new();
    let mut i: usize = 0;
    while i < v.len()
        invariant
            i <= v.len(),
            r@ == v@.subrange(0, i as int),
        decreases v.len() - i,
    {
        r.push(v[i]);
        i = i + 1;
    }
    assert(v@.subrange(0, v.len() as int) =~= v@);
    r
}

/// A copy of a list of channel modes.
fn copy_modes(v: &Vec<ChannelMode>) -> (r: Vec<ChannelMode>)
    ensures
        r@ == v@,
{
    let mut r: Vec<ChannelMode> = Vec::new();
    let mut i: usize = 0;
    while i < v.len()
        invariant
            i <= v.len(),
            r@ == v@.subrange(0, i as int),
        decreases v.len() - i,
    {
        r.push(v[i]);
        i = i + 1;
    }
    assert(v@.subrange(0, v.len() as int) =~= v@);
    r
}

/// The capabilities reported with no backend registered.
pub open spec fn no_capabilities() -> CapabilitiesView {
    CapabilitiesView {
        mic_available: false,
        system_audio_available: false,
        device_change_events: false,
        max_sample_rate: 0,
        supported_sample_rates: Seq::empty(),
        supported_channel_modes: seq![ChannelMode::Separate],
    }
}

/// The larger of two sample rates.
pub open spec fn max_rate(a: u32, b: u32) -> u32 {
    if a >= b { a } else { b }
}

/// The maximum sample rate a backend reports, 0 for an absent backend.
pub open spec fn backend_max_rate(b: Option<CapabilitiesView>) -> u32 {
    match b {
        Some(c) => c.max_sample_rate,
        None => 0,
    }
}

/// The combined capabilities of a manager's backends: the microphone
/// backend decides microphone availability and (when it lists any) the
/// supported sample rates; the system backend decides system-audio
/// availability and device-change events; the maximum sample rate is the
/// largest either backend reports (0 with none); the channel modes are
/// always just `Separate`.
pub open spec fn combined_capabilities(mic: Option<CapabilitiesView>, system: Option<CapabilitiesView>) -> CapabilitiesView {
    let base = no_capabilities();
    let with_mic = match mic {
        Some(m) => CapabilitiesView {
            mic_available: m.mic_available,
            supported_sample_rates: if m.supported_sample_rates.len() == 0 {
                base.supported_sample_rates
            } else {
                m.supported_sample_rates
            },
            ..base
        },
        None => base,
    };
    let with_both = match system {
        Some(s) => CapabilitiesView {
            system_audio_available: s.system_audio_available,
            device_change_events: s.device_change_events,
            ..with_mic
        },
        None => with_mic,
    };
    CapabilitiesView { max_sample_rate: max_rate(backend_max_rate(mic), backend_max_rate(system)), ..with_both }
}

/// Combined capabilities report microphone availability and the rates from
/// the microphone backend, system audio and device-change events from the
/// system backend, whatever the other backend reports, and the larger of
/// the two backends' maximum sample rates.
pub proof fn lemma_combined_reports_each_backend(mic: CapabilitiesView, system: CapabilitiesView)
    ensures
        ({
            let c = combined_capabilities(Some(mic), Some(system));
            &&& c.mic_available == mic.mic_available
            &&& c.max_sample_rate >= mic.max_sample_rate
            &&& c.max_sample_rate >= system.max_sample_rate
            &&& (c.max_sample_rate == mic.max_sample_rate || c.max_sample_rate == system.max_sample_rate)
            &&& (mic.supported_sample_rates.len() > 0 ==> c.supported_sample_rates == mic.supported_sample_rates)
            &&& c.system_audio_available == system.system_audio_available
            &&& c.device_change_events == system.device_change_events
            &&& c.supported_channel_modes == seq![ChannelMode::Separate]
        }),
        ({
            let c = combined_capabilities(None, Some(system));
            &&& !c.mic_available && c.max_sample_rate == system.max_sample_rate && c.supported_sample_rates.len() == 0
        }),
        ({
            let c = combined_capabilities(Some(mic), None);
            &&& !c.system_audio_available && !c.device_change_events
            &&& c.max_sample_rate == mic.max_sample_rate
        }),
{
}

/// Whatever the other backend (present or not): a microphone backend that
/// lists sample rates decides the combined rates, one that lists none (or
/// none at all) leaves them empty; the microphone backend decides microphone
/// availability and the system backend system audio and device-change
/// events (false when absent); the maximum rate is the larger of the
/// present backends' (0 with none); the channel modes are just `Separate`.
pub proof fn lemma_combined_each_source(mic: Option<CapabilitiesView>, system: Option<CapabilitiesView>)
    ensures
        ({
            let c = combined_capabilities(mic, system);
            &&& (mic matches Some(m) ==> (m.supported_sample_rates.len() > 0 ==> c.supported_sample_rates == m.supported_sample_rates))
            &&& (!(mic matches Some(m) && m.supported_sample_rates.len() > 0) ==> c.supported_sample_rates.len() == 0)
            &&& c.mic_available == (mic matches Some(m) && m.mic_available)
            &&& c.system_audio_available == (system matches Some(s) && s.system_audio_available)
            &&& c.device_change_events == (system matches Some(s) && s.device_change_events)
            &&& (mic matches Some(m) ==> c.max_sample_rate >= m.max_sample_rate)
            &&& (system matches Some(s) ==> c.max_sample_rate >= s.max_sample_rate)
            &&& ((mic matches Some(m) && c.max_sample_rate == m.max_sample_rate)
                || (system matches Some(s) && c.max_sample_rate == s.max_sample_rate)
                || (mic is None && system is None && c.max_sample_rate == 0))
            &&& c.supported_channel_modes == seq![ChannelMode::Separate]
        }),
{
}

/// Combine the capabilities reported by the microphone backend and the
/// system-audio backend, either of which may be absent.
pub fn combine_capabilities(mic: Option<&CaptureCapabilities>, system: Option<&CaptureCapabilities>) -> (r: CaptureCapabilities)
    ensures
        r@ == combined_capabilities(
            match mic { Some(m) => Some(m@), None => None },
            match system { Some(s) => Some(s@), None => None },
        ),
        mic matches Some(m) ==> (m.supported_sample_rates@.len() > 0 ==> r.supported_sample_rates@ == m.supported_sample_rates@),
        !(mic matches Some(m) && m.supported_sample_rates@.len() > 0) ==> r.supported_sample_rates@.len() == 0,
        r.mic_available == (mic matches Some(m) && m.mic_available),
        r.system_audio_available == (system matches Some(s) && s.system_audio_available),
        r.device_change_events == (system matches Some(s) && s.device_change_events),
        mic matches Some(m) ==> r.max_sample_rate >= m.max_sample_rate,
        system matches Some(s) ==> r.max_sample_rate >= s.max_sample_rate,
{
    proof {
        lemma_combined_each_source(
            match mic { Some(m) => Some(m@), None => None },
            match system { Some(s) => Some(s@), None => None },
        );
    }
    let mut modes: Vec<ChannelMode> = Vec::new();
    modes.push(ChannelMode::Separate);
    let mut caps = CaptureCapabilities {
        mic_available: false,
        system_audio_available: false,
        device_change_events: false,
        max_sample_rate: 0,
        supported_sample_rates: Vec::new(),
        supported_channel_modes: modes,
    };
    assert(caps.supported_channel_modes@ =~= seq![ChannelMode::Separate]);
    if let Some(bcaps) = mic {
        caps.mic_available = bcaps.mic_available;
        caps.max_sample_rate = if caps.max_sample_rate >= bcaps.max_sample_rate {
            caps.max_sample_rate
        } else {
            bcaps.max_sample_rate
        };
        if !bcaps.supported_sample_rates.is_empty() {
            caps.supported_sample_rates = copy_u32s(&bcaps.supported_sample_rates);
        }
    }
    if let Some(bcaps) = system {
        caps.system_audio_available = bcaps.system_audio_available;
        caps.device_change_events = bcaps.device_change_events;
        caps.max_sample_rate = if caps.max_sample_rate >= bcaps.max_sample_rate {
            caps.max_sample_rate
        } else {
            bcaps.max_sample_rate
        };
    }
    caps
}

/// Configuration for starting a capture session.
#[derive(Debug, Clone)]
pub struct CaptureConfig {
    pub mic_enabled: bool,
    pub system_audio_enabled: bool,
    pub sample_rate: u32,
    pub channels: u16,
    pub channel_mode: ChannelMode,
    pub output_dir: std::path::PathBuf,
}

impl Default for CaptureConfig {
    /// Microphone only, 16 kHz mono, separate files, in the current
    /// directory.
    fn default() -> (r: CaptureConfig)
        ensures
            r.mic_enabled,
            !r.system_audio_enabled,
            r.sample_rate == 16000,
            r.channels == 1,
            r.channel_mode == ChannelMode::Separate,
            r.output_dir == path_of("."@),
    {
        CaptureConfig {
            mic_enabled: true,
            system_audio_enabled: false,
            sample_rate: 16000,
            channels: 1,
            channel_mode: ChannelMode::Separate,
            output_dir: path_from_str("."),
        }
    }
}

/// Identifier for a capture stream.
#[derive(Debug, Clone, Copy, PartialEq, Eq, Hash, Structural)]
pub enum StreamId {
    Mic,
    System,
    Mixed,
}

/// The two backends a capture manager can hold.
#[derive(Debug, Clone, Copy, PartialEq, Eq, Structural)]
pub enum BackendSlot {
    Mic,
    System,
}

/// The backends a capture start starts, in order: the microphone backend
/// when microphone capture is enabled and one is registered, then the
/// system-audio backend likewise.
pub open spec fn start_order(mic_enabled: bool, system_enabled: bool, has_mic: bool, has_system: bool) -> Seq<BackendSlot> {
    (if mic_enabled && has_mic { seq![BackendSlot::Mic] } else { Seq::empty() })
        + (if system_enabled && has_system { seq![BackendSlot::System] } else { Seq::empty() })
}

/// The backends a capture stop stops, in order: every registered one,
/// microphone first.
pub open spec fn stop_order(has_mic: bool, has_system: bool) -> Seq<BackendSlot> {
    (if has_mic { seq![BackendSlot::Mic] } else { Seq::empty() })
        + (if has_system { seq![BackendSlot::System] } else { Seq::empty() })
}

/// The message of the error a start gives once the packet sender is gone.
pub open spec fn sender_taken_message() -> Seq<char> {
    "packet sender already taken"@
}

/// A capture start starts the microphone backend exactly when microphone
/// capture is enabled and one is registered, and the system backend exactly
/// when system audio is enabled and one is registered, each whatever the
/// other's flags are; each at most once, microphone first. A stop stops
/// exactly the registered backends, each once, microphone first.
pub proof fn lemma_start_stop_order(mic_enabled: bool, system_enabled: bool, has_mic: bool, has_system: bool)
    ensures
        start_order(mic_enabled, system_enabled, has_mic, has_system).contains(BackendSlot::Mic) <==> (mic_enabled && has_mic),
        start_order(mic_enabled, system_enabled, has_mic, has_system).contains(BackendSlot::System) <==> (system_enabled && has_system),
        start_order(mic_enabled, system_enabled, has_mic, has_system).no_duplicates(),
        start_order(mic_enabled, system_enabled, has_mic, has_system).len()
            == (if mic_enabled && has_mic { 1int } else { 0 }) + (if system_enabled && has_system { 1int } else { 0 }),
        mic_enabled && has_mic ==> start_order(mic_enabled, system_enabled, has_mic, has_system)[0] == BackendSlot::Mic,
        stop_order(has_mic, has_system).contains(BackendSlot::Mic) <==> has_mic,
        stop_order(has_mic, has_system).contains(BackendSlot::System) <==> has_system,
        stop_order(has_mic, has_system).no_duplicates(),
        stop_order(has_mic, has_system).len() == (if has_mic { 1int } else { 0 }) + (if has_system { 1int } else { 0 }),
        has_mic ==> stop_order(has_mic, has_system)[0] == BackendSlot::Mic,
{
    let st = start_order(mic_enabled, system_enabled, has_mic, has_system);
    let sp = stop_order(has_mic, has_system);
    if mic_enabled && has_mic {
        assert(st[0] == BackendSlot::Mic);
    }
    if system_enabled && has_system {
        assert(st[st.len() - 1] == BackendSlot::System);
    }
    if has_mic {
        assert(sp[0] == BackendSlot::Mic);
    }
    if has_system {
        assert(sp[sp.len() - 1] == BackendSlot::System);
    }
}

/// Decide which backends a capture start starts, and in which order. The
/// start fails with `ChannelClosed` when the packet sender is no longer
/// available.
pub fn start_plan(config: &CaptureConfig, has_mic: bool, has_system: bool, sender_available: bool) -> (r: Result<Vec<BackendSlot>, CaptureError>)
    ensures
        sender_available ==> (r matches Ok(v) && v@ == start_order(config.mic_enabled, config.system_audio_enabled, has_mic, has_system)),
        sender_available ==> (r matches Ok(v)
            && (v@.contains(BackendSlot::Mic) <==> (config.mic_enabled && has_mic))
            && (v@.contains(BackendSlot::System) <==> (config.system_audio_enabled && has_system))
            && v@.no_duplicates()),
        !sender_available ==> (r matches Err(CaptureError::ChannelClosed(m)) && m@ == sender_taken_message()),
{
    if !sender_available {
        return Err(CaptureError::ChannelClosed(String::from_str("packet sender already taken")));
    }
    let mut v: Vec<BackendSlot> = Vec::new();
    if config.mic_enabled && has_mic {
        v.push(BackendSlot::Mic);
    }
    if config.system_audio_enabled && has_system {
        v.push(BackendSlot::System);
    }
    assert(v@ =~= start_order(config.mic_enabled, config.system_audio_enabled, has_mic, has_system));
    proof { lemma_start_stop_order(config.mic_enabled, config.system_audio_enabled, has_mic, has_system); }
    Ok(v)
}

/// Decide which backends a capture stop stops, and in which order.
pub fn stop_plan(has_mic: bool, has_system: bool) -> (r: Vec<BackendSlot>)
    ensures
        r@ == stop_order(has_mic, has_system),
        r@.contains(BackendSlot::Mic) <==> has_mic,
        r@.contains(BackendSlot::System) <==> has_system,
        r@.no_duplicates(),
{
    proof { lemma_start_stop_order(false, false, has_mic, has_system); }
    let mut v: Vec<BackendSlot> = Vec::new();
    if has_mic {
        v.push(BackendSlot::Mic);
    }
    if has_system {
        v.push(BackendSlot::System);
    }
    assert(v@ =~= stop_order(has_mic, has_system));
    v
}

} // verus!

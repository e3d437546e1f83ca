use steno_core::audio::linux::LinuxAudioCapture;
use steno_core::audio::macos::MacAudioCapture;
use steno_core::audio::mic::MicCapture;
use steno_core::audio::wav_writer::{
    decode_pcm16_le, sink_streams, sinks_for_stream, wav_file_name, wav_format, writer_open,
    WavFormat,
};
use steno_core::audio::windows::WindowsAudioCapture;
use steno_core::audio::{
    combine_capabilities, start_plan, stop_plan, BackendSlot, CaptureCapabilities, CaptureConfig,
    ChannelMode, StreamId,
};
use steno_core::error::CaptureError;

fn test_caps() -> CaptureCapabilities {
    CaptureCapabilities {
        mic_available: true,
        system_audio_available: false,
        device_change_events: false,
        max_sample_rate: 48000,
        supported_sample_rates: vec![16000, 48000],
        supported_channel_modes: vec![ChannelMode::Separate],
    }
}

fn system_caps() -> CaptureCapabilities {
    CaptureCapabilities {
        mic_available: false,
        system_audio_available: true,
        device_change_events: true,
        max_sample_rate: 48000,
        supported_sample_rates: vec![16000, 48000],
        supported_channel_modes: vec![ChannelMode::Separate],
    }
}

#[test]
fn test_mic_capabilities() {
    let mic = MicCapture::new();
    let caps = mic.capabilities_for(false);
    assert!(!caps.system_audio_available);
    assert_eq!(caps.max_sample_rate, 48000);
}

#[test]
fn test_capture_config_defaults() {
    let config = CaptureConfig::default();
    assert!(config.mic_enabled);
    assert!(!config.system_audio_enabled);
    assert_eq!(config.sample_rate, 16000);
    assert_eq!(config.channels, 1);
}

#[test]
fn capture_config_default_dir_and_mode() {
    let config = CaptureConfig::default();
    assert_eq!(config.channel_mode, ChannelMode::Separate);
    assert_eq!(config.output_dir, std::path::PathBuf::from("."));
}

#[test]
fn test_capabilities_query() {
    let mic = test_caps();
    let caps = combine_capabilities(Some(&mic), None);
    assert!(caps.mic_available);
    assert!(!caps.system_audio_available);
    assert_eq!(caps.max_sample_rate, 48000);
}

#[test]
fn test_capture_manager_capabilities_aggregation() {
    let mic = test_caps();
    let system = system_caps();
    let caps = combine_capabilities(Some(&mic), Some(&system));
    assert!(caps.mic_available, "mic should be available");
    assert!(caps.system_audio_available, "system audio should be available");
    assert!(caps.device_change_events, "system backend supports device changes");
    assert_eq!(caps.max_sample_rate, 48000);
    assert!(caps.supported_sample_rates.contains(&16000));
    assert!(caps.supported_sample_rates.contains(&48000));
}

#[test]
fn combined_capabilities_without_backends() {
    let caps = combine_capabilities(None, None);
    assert!(!caps.mic_available);
    assert!(!caps.system_audio_available);
    assert!(!caps.device_change_events);
    assert_eq!(caps.max_sample_rate, 0);
    assert!(caps.supported_sample_rates.is_empty());
    assert_eq!(caps.supported_channel_modes, vec![ChannelMode::Separate]);
}

#[test]
fn combined_capabilities_ignore_system_rates_and_mic_events_but_take_the_highest_rate() {
    let mut mic = test_caps();
    mic.device_change_events = true;
    mic.system_audio_available = true;
    mic.supported_channel_modes = vec![ChannelMode::Both];
    let mut system = system_caps();
    system.max_sample_rate = 96000;
    system.supported_sample_rates = vec![96000];
    system.mic_available = true;
    let caps = combine_capabilities(Some(&mic), Some(&system));
    assert_eq!(caps.max_sample_rate, 96000);
    assert_eq!(caps.supported_sample_rates, vec![16000, 48000]);
    assert_eq!(caps.supported_channel_modes, vec![ChannelMode::Separate]);
    assert!(caps.device_change_events);
    assert!(caps.system_audio_available);
    assert!(caps.mic_available);
}

#[test]
fn combined_capabilities_with_system_backend_only() {
    let system = system_caps();
    let caps = combine_capabilities(None, Some(&system));
    assert_eq!(caps.max_sample_rate, 48000);
    assert!(!caps.mic_available);
    assert!(caps.supported_sample_rates.is_empty());
    assert!(caps.system_audio_available);
}

#[test]
fn combined_capabilities_keep_empty_rates_when_mic_lists_none() {
    let mut mic = test_caps();
    mic.supported_sample_rates = vec![];
    mic.mic_available = false;
    let caps = combine_capabilities(Some(&mic), None);
    assert!(caps.supported_sample_rates.is_empty());
    assert!(!caps.mic_available);
    assert_eq!(caps.max_sample_rate, 48000);
}

#[test]
fn platform_backend_capabilities() {
    let linux = LinuxAudioCapture::new().capabilities();
    assert!(linux.system_audio_available && !linux.mic_available && linux.device_change_events);
    assert_eq!(linux.supported_sample_rates, vec![16000, 44100, 48000]);
    let mac = MacAudioCapture::new().capabilities();
    assert_eq!(mac.supported_sample_rates, vec![16000, 44100, 48000]);
    assert_eq!(mac.max_sample_rate, 48000);
    let win = WindowsAudioCapture::new().capabilities();
    assert_eq!(win.supported_sample_rates, vec![16000, 44100, 48000, 96000]);
    assert_eq!(win.max_sample_rate, 48000);
    let mic = MicCapture::new().capabilities_for(true);
    assert!(mic.mic_available);
    assert_eq!(mic.supported_sample_rates, vec![8000, 16000, 44100, 48000]);
}

#[test]
fn start_plan_follows_config_and_backends() {
    let mut config = CaptureConfig::default();
    config.system_audio_enabled = true;
    let plan = start_plan(&config, true, true, true).unwrap();
    assert_eq!(plan, vec![BackendSlot::Mic, BackendSlot::System]);
    let plan = start_plan(&config, false, true, true).unwrap();
    assert_eq!(plan, vec![BackendSlot::System]);
    config.mic_enabled = false;
    config.system_audio_enabled = false;
    let plan = start_plan(&config, true, true, true).unwrap();
    assert!(plan.is_empty());
}

#[test]
fn start_plan_fails_without_sender() {
    let config = CaptureConfig::default();
    match start_plan(&config, true, false, false) {
        Err(CaptureError::ChannelClosed(m)) => assert_eq!(m, "packet sender already taken"),
        other => panic!("unexpected: {:?}", other),
    }
}

#[test]
fn stop_plan_stops_every_registered_backend() {
    assert_eq!(stop_plan(true, true), vec![BackendSlot::Mic, BackendSlot::System]);
    assert_eq!(stop_plan(false, true), vec![BackendSlot::System]);
    assert!(stop_plan(false, false).is_empty());
}

#[test]
fn wav_file_names_per_stream() {
    assert_eq!(wav_file_name("test-session-1", StreamId::Mic), "test-session-1_mic.wav");
    assert_eq!(wav_file_name("multi-test", StreamId::System), "multi-test_system.wav");
    assert_eq!(wav_file_name("s", StreamId::Mixed), "s_mixed.wav");
    assert_eq!(wav_file_name("crash-safe", StreamId::Mic), "crash-safe_mic.wav");
}

#[test]
fn sink_streams_follow_flags() {
    assert_eq!(sink_streams(true, true, false), vec![StreamId::Mic, StreamId::System]);
    assert_eq!(sink_streams(false, false, true), vec![StreamId::Mixed]);
    assert_eq!(sink_streams(true, true, true).len(), 3);
    assert!(sink_streams(false, false, false).is_empty());
}

#[test]
fn wav_format_is_16_bit() {
    assert_eq!(
        wav_format(16000, 1),
        WavFormat { channels: 1, sample_rate: 16000, bits_per_sample: 16 }
    );
}

#[test]
fn decode_pcm_little_endian() {
    let samples: Vec<i16> = vec![0, 100, -1, i16::MIN, i16::MAX, 12345, -30000];
    let mut bytes = Vec::new();
    for s in &samples {
        bytes.extend_from_slice(&s.to_le_bytes());
    }
    assert_eq!(decode_pcm16_le(&bytes), samples);
    bytes.push(7);
    assert_eq!(decode_pcm16_le(&bytes), samples);
    assert_eq!(decode_pcm16_le(&[0x34, 0x12]), vec![0x1234]);
    assert_eq!(decode_pcm16_le(&[0xff, 0xff]), vec![-1]);
    assert!(decode_pcm16_le(&[9]).is_empty());
    assert!(decode_pcm16_le(&[]).is_empty());
}

#[test]
fn packets_route_to_matching_sinks() {
    let sinks = [StreamId::Mic, StreamId::System, StreamId::Mic];
    assert_eq!(sinks_for_stream(&sinks, StreamId::Mic), vec![0, 2]);
    assert_eq!(sinks_for_stream(&sinks, StreamId::System), vec![1]);
    assert!(sinks_for_stream(&sinks, StreamId::Mixed).is_empty());
}

#[test]
fn writes_need_an_open_writer() {
    assert!(writer_open(true).is_ok());
    match writer_open(false) {
        Err(CaptureError::ChannelClosed(m)) => assert_eq!(m, "writer already finalized"),
        other => panic!("unexpected: {:?}", other),
    }
}

use steno_core::detection::audio_activity::{input_activity, InputProbe};
use steno_core::error::DetectionError;
use steno_core::detection::mode::DetectionMode as SettingsMode;
use steno_core::detection::process_monitor::{contains_str, matches_allowlist, ProcessMonitor};
use steno_core::detection::{
    default_allowlist, CheckStep, DetectionEngine, DetectionEvent, DetectionManager, DetectionMode,
};

/// Drive one check the way the application does: ask the engine (here: the
/// answer given), then, when asked for, the foreground application.
fn check(
    manager: &mut DetectionManager<ProcessMonitor, ()>,
    meeting: Option<bool>,
    app: &str,
) -> Option<DetectionEvent> {
    match manager.observe(meeting) {
        CheckStep::NoChange => None,
        CheckStep::Emitted(ev) => Some(ev),
        CheckStep::QueryForegroundApp => Some(manager.record_start(Some(app.to_string()))),
    }
}

fn new_manager() -> DetectionManager<ProcessMonitor, ()> {
    DetectionManager::new(ProcessMonitor::new(DetectionMode::Auto), (), default_allowlist())
}

#[test]
fn test_default_allowlist() {
    let list = default_allowlist();
    assert!(!list.is_empty());
    assert!(list.contains(&"zoom".to_string()));
    assert!(list.contains(&"Teams".to_string()));
}

#[test]
fn default_allowlist_is_complete() {
    let list = default_allowlist();
    assert_eq!(list.len(), 15);
    assert_eq!(list[0], "zoom");
    assert_eq!(list[14], "Firefox");
    assert!(list.contains(&"Google Meet".to_string()));
}

#[test]
fn test_detection_mode_display() {
    assert_eq!(DetectionMode::Manual.to_string(), "manual");
    assert_eq!(DetectionMode::Auto.to_string(), "auto");
    assert_eq!(DetectionMode::Armed.to_string(), "armed");
}

#[test]
fn test_detection_mode_equality() {
    assert_eq!(DetectionMode::Manual, DetectionMode::Manual);
    assert_ne!(DetectionMode::Manual, DetectionMode::Auto);
}

#[test]
fn test_auto_starts() {
    assert!(SettingsMode::Auto.auto_starts());
    assert!(!SettingsMode::Manual.auto_starts());
    assert!(!SettingsMode::Armed.auto_starts());
}

#[test]
fn test_requires_confirmation() {
    assert!(SettingsMode::Armed.requires_confirmation());
    assert!(!SettingsMode::Auto.requires_confirmation());
    assert!(!SettingsMode::Manual.requires_confirmation());
}

#[test]
fn mode_is_manual() {
    assert!(SettingsMode::Manual.is_manual());
    assert!(!SettingsMode::Auto.is_manual());
    assert!(!SettingsMode::Armed.is_manual());
}

#[test]
fn test_display() {
    assert_eq!(SettingsMode::Manual.to_string(), "manual");
    assert_eq!(SettingsMode::Auto.to_string(), "auto");
    assert_eq!(SettingsMode::Armed.to_string(), "armed");
}

#[test]
fn test_default_is_armed() {
    assert_eq!(SettingsMode::default(), SettingsMode::Armed);
}

#[test]
fn test_process_monitor_creation() {
    let monitor = ProcessMonitor::new(DetectionMode::Auto);
    assert_eq!(monitor.mode(), DetectionMode::Auto);
}

#[test]
fn test_process_monitor_mode_switch() {
    let mut monitor = ProcessMonitor::new(DetectionMode::Manual);
    assert_eq!(monitor.mode(), DetectionMode::Manual);
    monitor.set_mode(DetectionMode::Armed);
    assert_eq!(monitor.mode(), DetectionMode::Armed);
}

#[test]
fn test_process_monitor_no_foreground() {
    let monitor = ProcessMonitor::new(DetectionMode::Auto);
    assert!(monitor.foreground_app().is_none());
    assert_eq!(monitor.is_meeting_active(&default_allowlist()), None);
}

#[test]
fn allowlist_matching_ignores_case_and_finds_substrings() {
    let list = default_allowlist();
    assert!(matches_allowlist("zoom.us", &list));
    assert!(matches_allowlist("ZOOM Meeting", &list));
    assert!(matches_allowlist("Microsoft Teams (work)", &list));
    assert!(!matches_allowlist("terminal", &list));
    assert!(!matches_allowlist("zoom", &[]));
    assert_eq!(ProcessMonitor::meeting_status(Some("google meet - chrome".into()), &list), Some(true));
    assert_eq!(ProcessMonitor::meeting_status(Some("terminal".into()), &list), Some(false));
    assert_eq!(ProcessMonitor::meeting_status(None, &list), None);
}

#[test]
fn test_detection_manager_detects_meeting() {
    let mut manager = new_manager();
    let answer = ProcessMonitor::meeting_status(Some("zoom.us".into()), manager.allowlist());
    let event = check(&mut manager, answer, "zoom.us");
    assert!(event.is_some());
    match event.unwrap() {
        DetectionEvent::MeetingStarted { app_name, detection_mode, .. } => {
            assert_eq!(app_name, "zoom.us");
            assert_eq!(detection_mode, DetectionMode::Auto);
        }
        _ => panic!("expected MeetingStarted"),
    }
    assert!(manager.is_meeting_active());
}

#[test]
fn test_detection_manager_no_false_positive() {
    let mut manager = new_manager();
    let answer = ProcessMonitor::meeting_status(Some("terminal".into()), manager.allowlist());
    let event = check(&mut manager, answer, "terminal");
    assert!(event.is_none());
    assert!(!manager.is_meeting_active());
}

#[test]
fn test_detection_manager_meeting_end() {
    let mut manager = new_manager();
    let event1 = check(&mut manager, Some(true), "zoom.us");
    assert!(matches!(event1, Some(DetectionEvent::MeetingStarted { .. })));
    let event2 = check(&mut manager, Some(true), "zoom.us");
    assert!(event2.is_none());
    let event3 = check(&mut manager, Some(false), "zoom.us");
    match event3 {
        Some(DetectionEvent::MeetingEnded { app_name, .. }) => assert_eq!(app_name, "zoom.us"),
        other => panic!("expected MeetingEnded, got {:?}", other),
    }
    assert!(!manager.is_meeting_active());
}

#[test]
fn test_multiple_detection_checks() {
    let mut manager = new_manager();
    let e1 = check(&mut manager, Some(true), "zoom.us");
    assert!(matches!(e1, Some(DetectionEvent::MeetingStarted { .. })));
    assert!(manager.is_meeting_active());
    let e2 = check(&mut manager, Some(false), "zoom.us");
    assert!(matches!(e2, Some(DetectionEvent::MeetingEnded { .. })));
    let e3 = check(&mut manager, Some(true), "zoom.us");
    assert!(matches!(e3, Some(DetectionEvent::MeetingStarted { .. })));
    let e4 = check(&mut manager, Some(false), "zoom.us");
    assert!(matches!(e4, Some(DetectionEvent::MeetingEnded { .. })));
    assert!(!manager.is_meeting_active(), "should end as inactive");
}

#[test]
fn uncertain_answers_change_nothing() {
    let mut manager = new_manager();
    assert!(check(&mut manager, None, "zoom.us").is_none());
    assert!(!manager.is_meeting_active());
    assert!(check(&mut manager, Some(true), "zoom.us").is_some());
    assert!(check(&mut manager, None, "x").is_none());
    assert!(manager.is_meeting_active());
    assert!(check(&mut manager, Some(false), "x").is_some());
    assert!(check(&mut manager, Some(false), "x").is_none());
}

#[test]
fn unknown_app_names() {
    let mut manager = new_manager();
    assert!(check(&mut manager, Some(false), "x").is_none());
    assert!(matches!(manager.observe(Some(true)), CheckStep::QueryForegroundApp));
    match manager.record_start(None) {
        DetectionEvent::MeetingStarted { app_name, .. } => assert_eq!(app_name, "unknown"),
        _ => panic!("expected MeetingStarted"),
    }
    match manager.observe(Some(false)) {
        CheckStep::Emitted(DetectionEvent::MeetingEnded { app_name, .. }) => assert_eq!(app_name, "unknown"),
        other => panic!("unexpected {:?}", other),
    }
    // A meeting whose start was never reported leaves the manager idle.
    let mut manager = new_manager();
    assert!(matches!(manager.observe(Some(true)), CheckStep::QueryForegroundApp));
    assert!(!manager.is_meeting_active());
    assert!(matches!(manager.observe(Some(false)), CheckStep::NoChange));
    assert!(!manager.is_meeting_active());
}

#[test]
fn manager_mode_and_allowlist() {
    let mut manager = new_manager();
    assert_eq!(manager.mode(), DetectionMode::Auto);
    manager.set_mode(DetectionMode::Armed);
    assert_eq!(manager.mode(), DetectionMode::Armed);
    assert_eq!(manager.engine().mode(), DetectionMode::Armed);
    manager.set_allowlist(vec!["webex".to_string()]);
    assert_eq!(manager.allowlist(), &vec!["webex".to_string()]);
    match check(&mut manager, Some(true), "Webex") {
        Some(DetectionEvent::MeetingStarted { detection_mode, .. }) => {
            assert_eq!(detection_mode, DetectionMode::Armed)
        }
        other => panic!("unexpected {:?}", other),
    }
    let m2 = DetectionManager::with_mode(ProcessMonitor::new(DetectionMode::Auto), (), vec![], DetectionMode::Manual);
    assert_eq!(m2.mode(), DetectionMode::Manual);
    assert!(!m2.is_meeting_active());
}

#[test]
fn substring_search() {
    assert!(contains_str("zoom.us", "zoom"));
    assert!(contains_str("abc", ""));
    assert!(contains_str("", ""));
    assert!(!contains_str("", "a"));
    assert!(contains_str("xxabcab", "abcab"));
    assert!(!contains_str("zoo", "zoom"));
    assert!(contains_str("google meet — chrome", "meet — c"));
}

#[test]
fn input_activity_answers() {
    match input_activity(InputProbe::NoDevice) {
        Err(DetectionError::AudioSensor(m)) => assert_eq!(m, "no input device"),
        other => panic!("unexpected {:?}", other),
    }
    match input_activity(InputProbe::NoConfig("busy".into())) {
        Err(DetectionError::AudioSensor(m)) => assert_eq!(m, "no input config: busy"),
        other => panic!("unexpected {:?}", other),
    }
    assert!(matches!(input_activity(InputProbe::Ready), Ok(true)));
}

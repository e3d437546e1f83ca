//! Meeting detection: the detection mode, the events a detection run emits,
//! and the decisions that turn the engine's answers into those events.
pub mod audio_activity;
pub mod laws;
pub mod mode;
pub mod process_monitor;

use vstd::prelude::*;
use crate::std_types::system_time_now;

verus! {

/// Events emitted by the detection engine.
#[derive(Debug, Clone)]
pub enum DetectionEvent {
    MeetingStarted {
        app_name: String,
        detected_at: std::time::SystemTime,
        detection_mode: DetectionMode,
    },
    MeetingEnded {
        app_name: String,
        ended_at: std::time::SystemTime,
    },
}

/// What an event says, without its time stamp.
pub enum EventView {
    Started { app: Seq<char>, mode: DetectionMode },
    Ended { app: Seq<char> },
}

impl View for DetectionEvent {
    type V = EventView;

    open spec fn view(&self) -> EventView {
        match self {
            DetectionEvent::MeetingStarted { app_name, detection_mode, .. } => EventView::Started {
                app: app_name@,
                mode: *detection_mode,
            },
            DetectionEvent::MeetingEnded { app_name, .. } => EventView::Ended { app: app_name@ },
        }
    }
}

/// The detection modes.
#[derive(Debug, Clone, Copy, PartialEq, Eq, Structural)]
pub enum DetectionMode {
    /// User starts/stops capture explicitly.
    Manual,
    /// Capture begins automatically when criteria are met.
    Auto,
    /// Auto-detect but require one click to confirm.
    Armed,
}

impl DetectionMode {
    /// The lower-case name of the mode: "manual", "auto" or "armed".
    pub fn to_string(&self) -> (r: String)
        ensures
            r@ == detection_mode_name(*self),
    {
        match self {
            DetectionMode::Manual => {
                proof { reveal_strlit("manual"); }
                String::from_str("manual")
            },
            DetectionMode::Auto => {
                proof { reveal_strlit("auto"); }
                String::from_str("auto")
            },
            DetectionMode::Armed => {
                proof { reveal_strlit("armed"); }
                String::from_str("armed")
            },
        }
    }
}

/// The name of each detection mode.
pub open spec fn detection_mode_name(m: DetectionMode) -> Seq<char> {
    match m {
        DetectionMode::Manual => seq!['m', 'a', 'n', 'u', 'a', 'l'],
        DetectionMode::Auto => seq!['a', 'u', 't', 'o'],
        DetectionMode::Armed => seq!['a', 'r', 'm', 'e', 'd'],
    }
}

/// The name used for an application that could not be identified.
pub open spec fn unknown_app() -> Seq<char> {
    seq!['u', 'n', 'k', 'n', 'o', 'w', 'n']
}

/// Platform-specific process/foreground-window detection: the part of an
/// engine that holds the detection mode. Engines also answer whether a
/// meeting is active and which application is in the foreground; those
/// queries are asynchronous and are made by the caller of
/// [`DetectionManager::observe`].
pub trait DetectionEngine {
    /// The mode the engine is in.
    spec fn engine_mode(&self) -> DetectionMode;

    /// Set the detection mode.
    fn set_mode(&mut self, mode: DetectionMode)
        ensures
            final(self).engine_mode() == mode,
    ;

    /// Current detection mode.
    fn mode(&self) -> (r: DetectionMode)
        ensures
            r == self.engine_mode(),
    ;
}

/// The state of a detection run, as the decisions see it.
pub struct DetectionState {
    pub mode: DetectionMode,
    pub allowlist: Seq<Seq<char>>,
    pub meeting_active: bool,
    pub last_event: Option<EventView>,
}

/// What the manager asks for after seeing the engine's answer.
#[derive(Debug)]
pub enum CheckStep {
    /// Nothing changed; no event.
    NoChange,
    /// A meeting has just begun: the foreground application's name is
    /// needed to report it (see [`DetectionManager::record_start`]). The
    /// manager is unchanged until it is reported.
    QueryForegroundApp,
    /// A meeting has just ended; this event reports it.
    Emitted(DetectionEvent),
}

/// The decision part of a check, on the abstract state: the new state, and
/// whether the foreground application must be asked for (`Ok(true)`), the
/// event to emit (`Err(event)`) or nothing (`Ok(false)`). A meeting that
/// begins changes nothing yet: the state changes together with its
/// `MeetingStarted` event, in `record_start_spec`.
pub open spec fn observe_spec(s: DetectionState, meeting: Option<bool>) -> (DetectionState, Result<bool, EventView>) {
    match meeting {
        Some(true) => if !s.meeting_active {
            (s, Ok(true))
        } else {
            (s, Ok(false))
        },
        Some(false) => if s.meeting_active {
            let ev = EventView::Ended { app: ended_app_name(s.last_event) };
            (DetectionState { meeting_active: false, last_event: Some(ev), ..s }, Err(ev))
        } else {
            (s, Ok(false))
        },
        None => (s, Ok(false)),
    }
}

/// The name a `MeetingEnded` event reports: that of the last
/// `MeetingStarted` event if the last event was one, else "unknown".
pub open spec fn ended_app_name(last: Option<EventView>) -> Seq<char> {
    match last {
        Some(EventView::Started { app, .. }) => app,
        _ => unknown_app(),
    }
}

/// The state and event after the foreground application was reported as
/// `app` (`None`: not identifiable) for a meeting that has begun.
pub open spec fn record_start_spec(s: DetectionState, app: Option<Seq<char>>) -> (DetectionState, EventView) {
    let name = match app {
        Some(a) => a,
        None => unknown_app(),
    };
    let ev = EventView::Started { app: name, mode: s.mode };
    (DetectionState { meeting_active: true, last_event: Some(ev), ..s }, ev)
}

/// One whole check: the engine answered `meeting`, and, where the manager
/// asks for it, reported the foreground application as `app`.
pub open spec fn check_spec(s: DetectionState, meeting: Option<bool>, app: Option<Seq<char>>) -> (DetectionState, Option<EventView>) {
    let (s1, step) = observe_spec(s, meeting);
    match step {
        Ok(true) => {
            let (s2, ev) = record_start_spec(s1, app);
            (s2, Some(ev))
        },
        Ok(false) => (s1, None),
        Err(ev) => (s1, Some(ev)),
    }
}

/// Orchestrates the detection lifecycle: takes the engine's answers and
/// decides which events to emit.
pub struct DetectionManager<E, S> {
    engine: E,
    sensor: S,
    mode: DetectionMode,
    allowlist: Vec<String>,
    meeting_active: bool,
    last_event_sent: Option<DetectionEvent>,
}

/// The abstract view of an optional event.
pub open spec fn opt_event_view(e: Option<DetectionEvent>) -> Option<EventView> {
    match e {
        Some(ev) => Some(ev@),
        None => None,
    }
}

/// The abstract view of a list of strings.
pub open spec fn strings_view(v: Seq<String>) -> Seq<Seq<char>> {
    v.map_values(|s: String| s@)
}

impl<E, S> DetectionManager<E, S> {
    /// The abstract state of the manager.
    pub closed spec fn state(&self) -> DetectionState {
        DetectionState {
            mode: self.mode,
            allowlist: strings_view(self.allowlist@),
            meeting_active: self.meeting_active,
            last_event: opt_event_view(self.last_event_sent),
        }
    }

    /// The engine held by the manager.
    pub closed spec fn engine_spec(&self) -> E {
        self.engine
    }

    /// Create a manager whose mode is `mode` (the mode its engine reports):
    /// no meeting active and no event sent yet.
    pub fn with_mode(engine: E, sensor: S, allowlist: Vec<String>, mode: DetectionMode) -> (m: Self)
        ensures
            m.state() == (DetectionState {
                mode,
                allowlist: strings_view(allowlist@),
                meeting_active: false,
                last_event: None,
            }),
            m.engine_spec() == engine,
    {
        DetectionManager { engine, sensor, mode, allowlist, meeting_active: false, last_event_sent: None }
    }

    /// Run the decision part of a check on the engine's answer: `Some(true)`
    /// if a meeting is active, `Some(false)` if not, `None` if uncertain
    /// (the state is then kept).
    pub fn observe(&mut self, meeting: Option<bool>) -> (step: CheckStep)
        ensures
            final(self).engine_spec() == old(self).engine_spec(),
            final(self).state() == observe_spec(old(self).state(), meeting).0,
            match observe_spec(old(self).state(), meeting).1 {
                Ok(true) => step is QueryForegroundApp,
                Ok(false) => step is NoChange,
                Err(ev) => step matches CheckStep::Emitted(e) && e@ == ev,
            },
    {
        match meeting {
            Some(true) => {
                if !self.meeting_active {
                    return CheckStep::QueryForegroundApp;
                }
                CheckStep::NoChange
            },
            Some(false) => {
                if self.meeting_active {
                    self.meeting_active = false;
                    let app = match &self.last_event_sent {
                        Some(DetectionEvent::MeetingStarted { app_name, .. }) => app_name.clone(),
                        _ => {
                            proof { reveal_strlit("unknown"); }
                            String::from_str("unknown")
                        },
                    };
                    assert(app@ == ended_app_name(self.state().last_event));
                    let ended_at = system_time_now();
                    let kept = app.clone();
                    assert(kept@ == app@);
                    self.last_event_sent = Some(DetectionEvent::MeetingEnded { app_name: kept, ended_at });
                    return CheckStep::Emitted(DetectionEvent::MeetingEnded { app_name: app, ended_at });
                }
                CheckStep::NoChange
            },
            None => CheckStep::NoChange,
        }
    }

    /// Report the start of a meeting in the foreground application `app`
    /// (`None`: not identifiable, reported as "unknown"), detected now in the
    /// manager's mode.
    pub fn record_start(&mut self, app: Option<String>) -> (ev: DetectionEvent)
        ensures
            final(self).engine_spec() == old(self).engine_spec(),
            final(self).state() == record_start_spec(old(self).state(), opt_string_view(app)).0,
            ev@ == record_start_spec(old(self).state(), opt_string_view(app)).1,
    {
        let name = match app {
            Some(a) => a,
            None => {
                proof { reveal_strlit("unknown"); }
                String::from_str("unknown")
            },
        };
        assert(name@ == record_start_spec(self.state(), opt_string_view(app)).1->Started_app);
        let detected_at = system_time_now();
        let kept = name.clone();
        assert(kept@ == name@);
        self.meeting_active = true;
        self.last_event_sent = Some(DetectionEvent::MeetingStarted {
            app_name: kept,
            detected_at,
            detection_mode: self.mode,
        });
        DetectionEvent::MeetingStarted { app_name: name, detected_at, detection_mode: self.mode }
    }

    /// Update the allowlist.
    pub fn set_allowlist(&mut self, allowlist: Vec<String>)
        ensures
            final(self).engine_spec() == old(self).engine_spec(),
            final(self).state() == (DetectionState { allowlist: strings_view(allowlist@), ..old(self).state() }),
    {
        self.allowlist = allowlist;
    }

    /// The allowlist of meeting applications.
    pub fn allowlist(&self) -> (r: &Vec<String>)
        ensures
            strings_view(r@) == self.state().allowlist,
    {
        &self.allowlist
    }

    /// Current detection mode.
    pub fn mode(&self) -> (r: DetectionMode)
        ensures
            r == self.state().mode,
    {
        self.mode
    }

    /// Whether a meeting is currently detected as active.
    pub fn is_meeting_active(&self) -> (r: bool)
        ensures
            r == self.state().meeting_active,
    {
        self.meeting_active
    }

    /// Get a reference to the underlying engine.
    pub fn engine(&self) -> (r: &E)
        ensures
            *r == self.engine_spec(),
    {
        &self.engine
    }
}

impl<E: DetectionEngine, S> DetectionManager<E, S> {
    /// Create a new detection manager, in the mode its engine reports.
    pub fn new(engine: E, sensor: S, allowlist: Vec<String>) -> (m: Self)
        ensures
            m.engine_spec() == engine,
            m.state().mode == engine.engine_mode(),
            m.state().allowlist == strings_view(allowlist@),
            !m.state().meeting_active,
            m.state().last_event is None,
    {
        let mode = engine.mode();
        Self::with_mode(engine, sensor, allowlist, mode)
    }

    /// Set the detection mode on both manager and engine.
    pub fn set_mode(&mut self, mode: DetectionMode)
        ensures
            final(self).state() == (DetectionState { mode, ..old(self).state() }),
            final(self).engine_spec().engine_mode() == mode,
    {
        self.mode = mode;
        self.engine.set_mode(mode);
    }
}

/// The default allowlist of meeting applications, in order.
pub open spec fn default_allowlist_spec() -> Seq<Seq<char>> {
    seq![
        "zoom"@,
        "zoom.us"@,
        "Teams"@,
        "ms-teams"@,
        "Webex"@,
        "slack"@,
        "Slack"@,
        "Google Meet"@,
        "discord"@,
        "Discord"@,
        "Skype"@,
        "telegram"@,
        "WhatsApp"@,
        "Chrome"@,
        "Firefox"@,
    ]
}

/// Default allowlist for meeting applications.
pub fn default_allowlist() -> (r: Vec<String>)
    ensures
        strings_view(r@) == default_allowlist_spec(),
{
    let mut v: Vec<String> = Vec::new();
    v.push(String::from_str("zoom"));
    v.push(String::from_str("zoom.us"));
    v.push(String::from_str("Teams"));
    v.push(String::from_str("ms-teams"));
    v.push(String::from_str("Webex"));
    v.push(String::from_str("slack"));
    v.push(String::from_str("Slack"));
    v.push(String::from_str("Google Meet"));
    v.push(String::from_str("discord"));
    v.push(String::from_str("Discord"));
    v.push(String::from_str("Skype"));
    v.push(String::from_str("telegram"));
    v.push(String::from_str("WhatsApp"));
    v.push(String::from_str("Chrome"));
    v.push(String::from_str("Firefox"));
    v
}

/// The abstract view of an optional string.
pub open spec fn opt_string_view(s: Option<String>) -> Option<Seq<char>> {
    match s {
        Some(x) => Some(x@),
        None => None,
    }
}

} // verus!

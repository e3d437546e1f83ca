//! Properties of detection checks that hold over every sequence of engine
//! answers.
use vstd::prelude::*;
use crate::detection::{check_spec, ended_app_name, observe_spec, DetectionState, EventView};

verus! {

/// A detection state is consistent when, while a meeting is active, the last
/// event sent is the `MeetingStarted` that reported it, and otherwise the last
/// event, if there was one, is a `MeetingEnded`.
pub open spec fn consistent(s: DetectionState) -> bool {
    if s.meeting_active {
        s.last_event matches Some(EventView::Started { .. })
    } else {
        s.last_event is None || s.last_event matches Some(EventView::Ended { .. })
    }
}

/// The state after a sequence of checks, and the events they emitted in
/// order. Each input is the engine's answer and the foreground application
/// it reports when asked.
pub open spec fn run_checks(s: DetectionState, inputs: Seq<(Option<bool>, Option<Seq<char>>)>) -> (DetectionState, Seq<EventView>)
    decreases inputs.len(),
{
    if inputs.len() == 0 {
        (s, Seq::empty())
    } else {
        let (s1, e) = check_spec(s, inputs[0].0, inputs[0].1);
        let (s2, rest) = run_checks(s1, inputs.drop_first());
        match e {
            Some(ev) => (s2, seq![ev] + rest),
            None => (s2, rest),
        }
    }
}

/// Events alternate: a `MeetingStarted` only while no meeting is active, a
/// `MeetingEnded` only while one is, and each `MeetingEnded` names the
/// application of the `MeetingStarted` before it (`last_app`).
pub open spec fn alternating(events: Seq<EventView>, active: bool, last_app: Seq<char>) -> bool
    decreases events.len(),
{
    if events.len() == 0 {
        true
    } else {
        match events[0] {
            EventView::Started { app, .. } => !active && alternating(events.drop_first(), true, app),
            EventView::Ended { app } => active && app == last_app && alternating(events.drop_first(), false, app),
        }
    }
}

/// While no meeting is active, whether events alternate does not depend on
/// the application last named.
proof fn lemma_alternating_inactive(events: Seq<EventView>, a: Seq<char>, b: Seq<char>)
    ensures
        alternating(events, false, a) == alternating(events, false, b),
{
    if events.len() > 0 {
        reveal_with_fuel(alternating, 2);
    }
}

/// An uncertain answer (`None`) changes nothing and emits nothing.
pub proof fn lemma_uncertain_keeps_state(s: DetectionState, app: Option<Seq<char>>)
    ensures
        check_spec(s, None, app) == (s, None::<EventView>),
{
}

/// A check emits an event exactly when it changes whether a meeting is
/// active: `MeetingStarted` when one begins, in the manager's mode, and
/// `MeetingEnded` when it ends, naming the application of the
/// `MeetingStarted` that began it. Consistency is kept.
pub proof fn lemma_check_step(s: DetectionState, meeting: Option<bool>, app: Option<Seq<char>>)
    requires
        consistent(s),
    ensures
        ({
            let (s2, e) = check_spec(s, meeting, app);
            &&& consistent(s2)
            &&& s2.mode == s.mode
            &&& s2.allowlist == s.allowlist
            &&& (e is Some <==> s2.meeting_active != s.meeting_active)
            &&& (e matches Some(EventView::Started { mode, .. }) ==> !s.meeting_active && s2.meeting_active && mode == s.mode)
            &&& (e matches Some(EventView::Ended { app: a }) ==> s.meeting_active && !s2.meeting_active
                && a == ended_app_name(s.last_event) && s.last_event matches Some(EventView::Started { .. }))
            &&& (s2.meeting_active <==> (meeting == Some(true) || (meeting is None && s.meeting_active)))
        }),
{
}

/// A newly created manager's state is consistent.
pub proof fn lemma_initial_consistent(s: DetectionState)
    requires
        !s.meeting_active,
        s.last_event is None,
    ensures
        consistent(s),
{
}

/// Over any sequence of checks from a consistent state, the events emitted
/// alternate between `MeetingStarted` and `MeetingEnded`, starting with the
/// kind the current state allows, and each `MeetingEnded` names the
/// application of the `MeetingStarted` before it. The state stays
/// consistent.
pub proof fn lemma_events_alternate(s: DetectionState, inputs: Seq<(Option<bool>, Option<Seq<char>>)>)
    requires
        consistent(s),
    ensures
        consistent(run_checks(s, inputs).0),
        alternating(run_checks(s, inputs).1, s.meeting_active, ended_app_name(s.last_event)),
    decreases inputs.len(),
{
    if inputs.len() > 0 {
        let (s1, e) = check_spec(s, inputs[0].0, inputs[0].1);
        lemma_check_step(s, inputs[0].0, inputs[0].1);
        lemma_events_alternate(s1, inputs.drop_first());
        let rest = run_checks(s1, inputs.drop_first()).1;
        match e {
            Some(ev) => {
                assert((seq![ev] + rest)[0] == ev);
                assert((seq![ev] + rest).drop_first() =~= rest);
                if let EventView::Ended { app } = ev {
                    lemma_alternating_inactive(rest, ended_app_name(s1.last_event), app);
                }
            },
            None => {
                assert(s1.meeting_active == s.meeting_active);
                let _ = observe_spec(s, inputs[0].0);
                assert(ended_app_name(s1.last_event) == ended_app_name(s.last_event));
            },
        }
    }
}

} // verus!

//! Session events: an audit trail of session activities for debugging and
//! recovery.

use vstd::prelude::*;
use crate::clock::now_micros;
use crate::ids::new_v4;
use crate::session::status::SessionEventType;
use crate::text::owned;

verus! {

/// The data recorded with an event, one shape per kind of event that carries data.
#[derive(Debug, Clone)]
pub enum EventData {
    /// The project before and after a switch
    ProjectSwitched { old_project_id: Option<u128>, new_project_id: Option<u128> },
    /// The feature before and after a switch
    FeatureSwitched { old_feature_id: Option<u128>, new_feature_id: Option<u128> },
    /// The phase before and after a change
    PhaseChanged { old_phase: String, new_phase: String },
    /// The checkpoint that was created
    CheckpointCreated { checkpoint_id: u128 },
    /// An error message and its optional code
    Error { message: String, code: Option<String> },
    /// The status a session had before it was recovered, and whether the
    /// shutdown before it was unclean
    Recovered { previous_status: String, was_unclean_shutdown: bool },
    /// A named custom event with optional JSON data
    Custom { name: String, data: Option<String> },
}

/// A session event representing an action or state change.
///
/// Identifiers are UUID values; the time is in microseconds since the Unix epoch.
#[derive(Debug, Clone)]
pub struct SessionEvent {
    /// Unique event identifier
    pub id: u128,
    /// Session this event belongs to
    pub session_id: u128,
    /// Type of event
    pub event_type: SessionEventType,
    /// Event data
    pub data: Option<EventData>,
    /// When the event occurred
    pub created_at: i64,
}

/// An event of `session_id` of the given type and data.
pub open spec fn event_is(
    e: SessionEvent,
    session_id: u128,
    event_type: SessionEventType,
    data: Option<EventData>,
) -> bool {
    &&& e.session_id == session_id
    &&& e.event_type == event_type
    &&& e.data == data
}

/// A copy of an optional string.
fn copy_opt(s: Option<&str>) -> (r: Option<String>)
    ensures
        match s {
            Some(t) => r.is_some() && r->0@ == t@,
            None => r.is_none(),
        },
{
    match s {
        Some(t) => Some(owned(t)),
        None => None,
    }
}

impl SessionEvent {
    /// Create a new session event.
    pub fn new(session_id: u128, event_type: SessionEventType, data: Option<EventData>) -> (r: SessionEvent)
        ensures
            event_is(r, session_id, event_type, data),
    {
        SessionEvent { id: new_v4(), session_id, event_type, data, created_at: now_micros() }
    }

    /// Create a started event.
    pub fn started(session_id: u128) -> (r: SessionEvent)
        ensures
            event_is(r, session_id, SessionEventType::Started, None),
    {
        SessionEvent::new(session_id, SessionEventType::Started, None)
    }

    /// Create a paused event.
    pub fn paused(session_id: u128) -> (r: SessionEvent)
        ensures
            event_is(r, session_id, SessionEventType::Paused, None),
    {
        SessionEvent::new(session_id, SessionEventType::Paused, None)
    }

    /// Create a resumed event.
    pub fn resumed(session_id: u128) -> (r: SessionEvent)
        ensures
            event_is(r, session_id, SessionEventType::Resumed, None),
    {
        SessionEvent::new(session_id, SessionEventType::Resumed, None)
    }

    /// Create a completed event.
    pub fn completed(session_id: u128) -> (r: SessionEvent)
        ensures
            event_is(r, session_id, SessionEventType::Completed, None),
    {
        SessionEvent::new(session_id, SessionEventType::Completed, None)
    }

    /// Create an abandoned event.
    pub fn abandoned(session_id: u128) -> (r: SessionEvent)
        ensures
            event_is(r, session_id, SessionEventType::Abandoned, None),
    {
        SessionEvent::new(session_id, SessionEventType::Abandoned, None)
    }

    /// Create a project switched event.
    pub fn project_switched(
        session_id: u128,
        old_project_id: Option<u128>,
        new_project_id: Option<u128>,
    ) -> (r: SessionEvent)
        ensures
            event_is(
                r,
                session_id,
                SessionEventType::ProjectSwitched,
                Some(EventData::ProjectSwitched { old_project_id, new_project_id }),
            ),
    {
        SessionEvent::new(
            session_id,
            SessionEventType::ProjectSwitched,
            Some(EventData::ProjectSwitched { old_project_id, new_project_id }),
        )
    }

    /// Create a feature switched event.
    pub fn feature_switched(
        session_id: u128,
        old_feature_id: Option<u128>,
        new_feature_id: Option<u128>,
    ) -> (r: SessionEvent)
        ensures
            event_is(
                r,
                session_id,
                SessionEventType::FeatureSwitched,
                Some(EventData::FeatureSwitched { old_feature_id, new_feature_id }),
            ),
    {
        SessionEvent::new(
            session_id,
            SessionEventType::FeatureSwitched,
            Some(EventData::FeatureSwitched { old_feature_id, new_feature_id }),
        )
    }

    /// Create a phase changed event.
    pub fn phase_changed(session_id: u128, old_phase: &str, new_phase: &str) -> (r: SessionEvent)
        ensures
            r.session_id == session_id,
            r.event_type == SessionEventType::PhaseChanged,
            r.data matches Some(EventData::PhaseChanged { old_phase: o, new_phase: n })
                && o@ == old_phase@ && n@ == new_phase@,
    {
        SessionEvent::new(
            session_id,
            SessionEventType::PhaseChanged,
            Some(EventData::PhaseChanged { old_phase: owned(old_phase), new_phase: owned(new_phase) }),
        )
    }

    /// Create a checkpoint created event.
    pub fn checkpoint_created(session_id: u128, checkpoint_id: u128) -> (r: SessionEvent)
        ensures
            event_is(
                r,
                session_id,
                SessionEventType::CheckpointCreated,
                Some(EventData::CheckpointCreated { checkpoint_id }),
            ),
    {
        SessionEvent::new(
            session_id,
            SessionEventType::CheckpointCreated,
            Some(EventData::CheckpointCreated { checkpoint_id }),
        )
    }

    /// Create an error event.
    pub fn error(session_id: u128, error_message: &str, error_code: Option<&str>) -> (r: SessionEvent)
        ensures
            r.session_id == session_id,
            r.event_type == SessionEventType::Error,
            r.data matches Some(EventData::Error { message: m, code: c })
                && m@ == error_message@
                && (match error_code {
                    Some(ec) => c.is_some() && c->0@ == ec@,
                    None => c.is_none(),
                }),
    {
        SessionEvent::new(
            session_id,
            SessionEventType::Error,
            Some(EventData::Error { message: owned(error_message), code: copy_opt(error_code) }),
        )
    }

    /// Create a recovered event.
    pub fn recovered(session_id: u128, previous_status: &str, was_unclean_shutdown: bool) -> (r: SessionEvent)
        ensures
            r.session_id == session_id,
            r.event_type == SessionEventType::Recovered,
            r.data matches Some(EventData::Recovered { previous_status: p, was_unclean_shutdown: u })
                && p@ == previous_status@ && u == was_unclean_shutdown,
    {
        SessionEvent::new(
            session_id,
            SessionEventType::Recovered,
            Some(EventData::Recovered { previous_status: owned(previous_status), was_unclean_shutdown }),
        )
    }

    /// Create a custom event; `data` is JSON text.
    pub fn custom(session_id: u128, event_name: &str, data: Option<String>) -> (r: SessionEvent)
        ensures
            r.session_id == session_id,
            r.event_type == SessionEventType::Custom,
            r.data matches Some(EventData::Custom { name: n, data: d }) && n@ == event_name@ && d == data,
    {
        SessionEvent::new(
            session_id,
            SessionEventType::Custom,
            Some(EventData::Custom { name: owned(event_name), data }),
        )
    }
}

} // verus!

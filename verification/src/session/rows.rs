//! Stored rows of sessions and session events, and their conversion into
//! entities. Identifiers are stored as UUID text and statuses, phases and
//! event types as their text; times are microseconds since the Unix epoch.

use vstd::prelude::*;
use crate::ids::{parse_id, uuid_parsed};
use crate::session::entity::{Session, SessionInfo};
use crate::session::event::{EventData, SessionEvent};
use crate::session::status::{
    event_type_from_text, phase_from_text, status_from_text, SessionEventType, SessionPhase,
    SessionStatus,
};
use crate::ids::{id_to_string, parsed_id, uuid_text};
use crate::session::status::{event_type_text, phase_text, status_text};
use crate::text::{ascii_lower, is_ascii_text, lemma_lower_text_is_its_lower_case, lowercase_of, owned, push_str};

verus! {

/// What `serde_json` reports when a text is not valid JSON: `None` when it is.
pub uninterp spec fn json_error(s: Seq<char>) -> Option<Seq<char>>;

/// Calls `serde_json::from_str::<serde_json::Value>` and keeps only whether it
/// failed, with the `Display` text of the error.
/// The contract claims only that the outcome is a function of the text (`json_error`).
#[verifier::external_body]
pub(crate) fn check_json(s: &str) -> (r: Option<String>)
    ensures
        match r {
            Some(e) => json_error(s@) == Some(e@),
            None => json_error(s@).is_none(),
        },
{
    match serde_json::from_str::<serde_json::Value>(s) {
        Ok(_) => None,
        Err(e) => Some(e.to_string()),
    }
}

/// A stored session.
#[derive(Debug, Clone)]
pub struct SessionRow {
    pub id: String,
    pub created_at: i64,
    pub updated_at: i64,
    pub last_activity: i64,
    pub current_project_id: Option<String>,
    pub current_feature_id: Option<String>,
    pub status: String,
    pub phase: String,
    pub description: Option<String>,
    pub last_checkpoint_id: Option<String>,
    pub metadata: Option<String>,
}

/// A stored session, in its listing form.
#[derive(Debug, Clone)]
pub struct SessionInfoRow {
    pub id: String,
    pub status: String,
    pub phase: String,
    pub current_project_id: Option<String>,
    pub description: Option<String>,
    pub created_at: i64,
    pub last_activity: i64,
}

/// A stored session event, whose JSON data has already been decoded.
#[derive(Debug, Clone)]
pub struct SessionEventRow {
    pub id: String,
    pub session_id: String,
    pub event_type: String,
    pub data: Option<EventData>,
    pub created_at: i64,
}

/// The ID in a stored optional ID, or the text of its parse error.
pub open spec fn parse_opt_id_spec(s: Option<String>) -> Result<Option<u128>, Seq<char>> {
    match s {
        None => Ok(None),
        Some(t) => match uuid_parsed(t@) {
            Ok(v) => Ok(Some(v)),
            Err(e) => Err(e),
        },
    }
}

/// Parse a stored optional ID; an error carries the text of the parse error.
pub fn parse_opt_id(s: &Option<String>) -> (r: Result<Option<u128>, String>)
    ensures
        match r {
            Ok(v) => parse_opt_id_spec(*s) == Ok::<Option<u128>, Seq<char>>(v),
            Err(e) => parse_opt_id_spec(*s) == Err::<Option<u128>, Seq<char>>(e@),
        },
{
    match s {
        None => Ok(None),
        Some(t) => match parse_id(t.as_str()) {
            Ok(v) => Ok(Some(v)),
            Err(e) => Err(e),
        },
    }
}

/// `prefix` followed by `detail`, as a new string.
fn message(prefix: &str, detail: &str) -> (r: String)
    ensures
        r@ == prefix@ + detail@,
{
    let mut s = String::new();
    push_str(&mut s, prefix);
    push_str(&mut s, detail);
    assert(s@ =~= prefix@ + detail@);
    s
}

/// The status stored text reads back as: its lower case names it, and for
/// ASCII text that lower case is the ASCII one.
pub open spec fn status_read(t: Seq<char>) -> Option<SessionStatus> {
    if is_ascii_text(t) {
        status_from_text(t.map_values(|c: char| ascii_lower(c)))
    } else {
        status_from_text(lowercase_of(t))
    }
}

/// The phase stored text reads back as.
pub open spec fn phase_read(t: Seq<char>) -> Option<SessionPhase> {
    if is_ascii_text(t) {
        phase_from_text(t.map_values(|c: char| ascii_lower(c)))
    } else {
        phase_from_text(lowercase_of(t))
    }
}

/// `t` is the stored text of `id`: its UUID text, which parses back to it.
pub open spec fn stored_id(t: Seq<char>, id: u128) -> bool {
    t == uuid_text(id) && uuid_parsed(t) == parsed_id(id)
}

/// `t` is the stored form of an optional ID.
pub open spec fn stored_opt_id(t: Option<String>, id: Option<u128>) -> bool {
    match (t, id) {
        (Some(x), Some(v)) => stored_id(x@, v),
        (None, None) => true,
        _ => false,
    }
}

/// `row` is the row that `s` is written as.
pub open spec fn session_row_describes(row: SessionRow, s: Session) -> bool {
    &&& stored_id(row.id@, s.id)
    &&& row.created_at == s.created_at && row.updated_at == s.updated_at && row.last_activity == s.last_activity
    &&& stored_opt_id(row.current_project_id, s.current_project_id)
    &&& stored_opt_id(row.current_feature_id, s.current_feature_id)
    &&& row.status@ == status_text(s.status)
    &&& row.phase@ == phase_text(s.phase)
    &&& row.description == s.description
    &&& stored_opt_id(row.last_checkpoint_id, s.last_checkpoint_id)
    &&& row.metadata == s.metadata
}

/// The stored text of an optional ID.
fn opt_id_string(id: Option<u128>) -> (r: Option<String>)
    ensures
        stored_opt_id(r, id),
{
    match id {
        Some(v) => Some(id_to_string(v)),
        None => None,
    }
}

/// The event type stored text reads back as.
pub open spec fn event_type_read(t: Seq<char>) -> Option<SessionEventType> {
    if is_ascii_text(t) {
        event_type_from_text(t.map_values(|c: char| ascii_lower(c)))
    } else {
        event_type_from_text(lowercase_of(t))
    }
}

/// `row` is the row that event `e` is written as.
pub open spec fn event_row_describes(row: SessionEventRow, e: SessionEvent) -> bool {
    &&& stored_id(row.id@, e.id)
    &&& stored_id(row.session_id@, e.session_id)
    &&& row.event_type@ == event_type_text(e.event_type)
    &&& row.data == e.data
    &&& row.created_at == e.created_at
}

/// What converting a stored session gives: the session, or the message of
/// the first field that does not parse.
pub open spec fn row_to_session(row: SessionRow) -> Result<Session, Seq<char>> {
    match uuid_parsed(row.id@) {
        Err(e) => Err("Invalid session ID: "@ + e),
        Ok(id) => match parse_opt_id_spec(row.current_project_id) {
            Err(e) => Err("Invalid project ID: "@ + e),
            Ok(project) => match parse_opt_id_spec(row.current_feature_id) {
                Err(e) => Err("Invalid feature ID: "@ + e),
                Ok(feature) => match parse_opt_id_spec(row.last_checkpoint_id) {
                    Err(e) => Err("Invalid checkpoint ID: "@ + e),
                    Ok(checkpoint) => match status_read(row.status@) {
                        None => Err("Invalid session status: "@ + row.status@),
                        Some(status) => match phase_read(row.phase@) {
                            None => Err("Invalid session phase: "@ + row.phase@),
                            Some(phase) => match row.metadata {
                                Some(m) if json_error(m@).is_some() => Err(
                                    "Invalid metadata JSON: "@ + json_error(m@)->0,
                                ),
                                _ => Ok(
                                    Session {
                                        id,
                                        created_at: row.created_at,
                                        updated_at: row.updated_at,
                                        last_activity: row.last_activity,
                                        current_project_id: project,
                                        current_feature_id: feature,
                                        status,
                                        phase,
                                        description: row.description,
                                        last_checkpoint_id: checkpoint,
                                        metadata: row.metadata,
                                    },
                                ),
                            },
                        },
                    },
                },
            },
        },
    }
}

impl SessionRow {
    /// The row a session is written as.
    pub fn from_session(s: Session) -> (r: SessionRow)
        ensures
            session_row_describes(r, s),
    {
        SessionRow {
            id: id_to_string(s.id),
            created_at: s.created_at,
            updated_at: s.updated_at,
            last_activity: s.last_activity,
            current_project_id: opt_id_string(s.current_project_id),
            current_feature_id: opt_id_string(s.current_feature_id),
            status: owned(s.status.as_str()),
            phase: owned(s.phase.as_str()),
            description: s.description,
            last_checkpoint_id: opt_id_string(s.last_checkpoint_id),
            metadata: s.metadata,
        }
    }

    /// Convert a stored session into a session.
    pub fn into_session(self) -> (r: Result<Session, String>)
        ensures
            match r {
                Ok(s) => row_to_session(self) == Ok::<Session, Seq<char>>(s),
                Err(e) => row_to_session(self) == Err::<Session, Seq<char>>(e@),
            },
    {
        let id = match parse_id(self.id.as_str()) {
            Ok(v) => v,
            Err(e) => return Err(message("Invalid session ID: ", e.as_str())),
        };
        let current_project_id = match parse_opt_id(&self.current_project_id) {
            Ok(v) => v,
            Err(e) => return Err(message("Invalid project ID: ", e.as_str())),
        };
        let current_feature_id = match parse_opt_id(&self.current_feature_id) {
            Ok(v) => v,
            Err(e) => return Err(message("Invalid feature ID: ", e.as_str())),
        };
        let last_checkpoint_id = match parse_opt_id(&self.last_checkpoint_id) {
            Ok(v) => v,
            Err(e) => return Err(message("Invalid checkpoint ID: ", e.as_str())),
        };
        let status = match SessionStatus::from_str(self.status.as_str()) {
            Some(s) => s,
            None => return Err(message("Invalid session status: ", self.status.as_str())),
        };
        let phase = match SessionPhase::from_str(self.phase.as_str()) {
            Some(p) => p,
            None => return Err(message("Invalid session phase: ", self.phase.as_str())),
        };
        match &self.metadata {
            Some(m) => match check_json(m.as_str()) {
                Some(e) => return Err(message("Invalid metadata JSON: ", e.as_str())),
                None => {},
            },
            None => {},
        }
        Ok(Session {
            id,
            created_at: self.created_at,
            updated_at: self.updated_at,
            last_activity: self.last_activity,
            current_project_id,
            current_feature_id,
            status,
            phase,
            description: self.description,
            last_checkpoint_id,
            metadata: self.metadata,
        })
    }
}

/// What converting a stored listing row gives.
pub open spec fn row_to_session_info(row: SessionInfoRow) -> Result<SessionInfo, Seq<char>> {
    match uuid_parsed(row.id@) {
        Err(e) => Err("Invalid session ID: "@ + e),
        Ok(id) => match parse_opt_id_spec(row.current_project_id) {
            Err(e) => Err("Invalid project ID: "@ + e),
            Ok(project) => match status_read(row.status@) {
                None => Err("Invalid session status: "@ + row.status@),
                Some(status) => match phase_read(row.phase@) {
                    None => Err("Invalid session phase: "@ + row.phase@),
                    Some(phase) => Ok(
                        SessionInfo {
                            id,
                            status,
                            phase,
                            current_project_id: project,
                            description: row.description,
                            created_at: row.created_at,
                            last_activity: row.last_activity,
                        },
                    ),
                },
            },
        },
    }
}

impl SessionInfoRow {
    /// Convert a stored listing row into session info.
    pub fn into_session_info(self) -> (r: Result<SessionInfo, String>)
        ensures
            match r {
                Ok(s) => row_to_session_info(self) == Ok::<SessionInfo, Seq<char>>(s),
                Err(e) => row_to_session_info(self) == Err::<SessionInfo, Seq<char>>(e@),
            },
    {
        let id = match parse_id(self.id.as_str()) {
            Ok(v) => v,
            Err(e) => return Err(message("Invalid session ID: ", e.as_str())),
        };
        let current_project_id = match parse_opt_id(&self.current_project_id) {
            Ok(v) => v,
            Err(e) => return Err(message("Invalid project ID: ", e.as_str())),
        };
        let status = match SessionStatus::from_str(self.status.as_str()) {
            Some(s) => s,
            None => return Err(message("Invalid session status: ", self.status.as_str())),
        };
        let phase = match SessionPhase::from_str(self.phase.as_str()) {
            Some(p) => p,
            None => return Err(message("Invalid session phase: ", self.phase.as_str())),
        };
        Ok(SessionInfo {
            id,
            status,
            phase,
            current_project_id,
            description: self.description,
            created_at: self.created_at,
            last_activity: self.last_activity,
        })
    }
}

/// What converting a stored event row gives.
pub open spec fn row_to_event(row: SessionEventRow) -> Result<SessionEvent, Seq<char>> {
    match uuid_parsed(row.id@) {
        Err(e) => Err("Invalid event ID: "@ + e),
        Ok(id) => match uuid_parsed(row.session_id@) {
            Err(e) => Err("Invalid session ID: "@ + e),
            Ok(session_id) => match event_type_read(row.event_type@) {
                None => Err("Invalid event type: "@ + row.event_type@),
                Some(event_type) => Ok(
                    SessionEvent { id, session_id, event_type, data: row.data, created_at: row.created_at },
                ),
            },
        },
    }
}

impl SessionEventRow {
    /// The row an event is written as.
    pub fn from_event(e: SessionEvent) -> (r: SessionEventRow)
        ensures
            event_row_describes(r, e),
    {
        SessionEventRow {
            id: id_to_string(e.id),
            session_id: id_to_string(e.session_id),
            event_type: owned(e.event_type.as_str()),
            data: e.data,
            created_at: e.created_at,
        }
    }

    /// Convert a stored event row into an event.
    pub fn into_event(self) -> (r: Result<SessionEvent, String>)
        ensures
            match r {
                Ok(s) => row_to_event(self) == Ok::<SessionEvent, Seq<char>>(s),
                Err(e) => row_to_event(self) == Err::<SessionEvent, Seq<char>>(e@),
            },
    {
        let id = match parse_id(self.id.as_str()) {
            Ok(v) => v,
            Err(e) => return Err(message("Invalid event ID: ", e.as_str())),
        };
        let session_id = match parse_id(self.session_id.as_str()) {
            Ok(v) => v,
            Err(e) => return Err(message("Invalid session ID: ", e.as_str())),
        };
        let event_type = match SessionEventType::from_str(self.event_type.as_str()) {
            Some(t) => t,
            None => return Err(message("Invalid event type: ", self.event_type.as_str())),
        };
        Ok(SessionEvent { id, session_id, event_type, data: self.data, created_at: self.created_at })
    }
}


/// A session written to the store reads back as the same session, when its
/// metadata is valid JSON (as the store's metadata always is).
pub proof fn lemma_stored_session_reads_back(s: Session, row: SessionRow)
    requires
        session_row_describes(row, s),
        match s.metadata {
            Some(m) => json_error(m@).is_none(),
            None => true,
        },
    ensures
        row_to_session(row) == Ok::<Session, Seq<char>>(s),
{
    reveal_strlit("active");
    reveal_strlit("paused");
    reveal_strlit("completed");
    reveal_strlit("abandoned");
    reveal_strlit("discovery");
    reveal_strlit("planning");
    reveal_strlit("building");
    reveal_strlit("testing");
    reveal_strlit("review");
    reveal_strlit("unknown");
    lemma_lower_text_is_its_lower_case(status_text(s.status));
    lemma_lower_text_is_its_lower_case(phase_text(s.phase));
    assert("active"@[0] == 'a' && "paused"@[0] == 'p' && "completed"@[0] == 'c');
    assert("discovery"@[0] == 'd' && "planning"@[0] == 'p' && "building"@[0] == 'b' && "testing"@[0] == 't'
        && "review"@[0] == 'r');
    assert(status_read(row.status@) == Some(s.status));
    assert(phase_read(row.phase@) == Some(s.phase));
}


/// An event written to the store reads back as the same event.
pub proof fn lemma_stored_event_reads_back(e: SessionEvent, row: SessionEventRow)
    requires
        event_row_describes(row, e),
    ensures
        row_to_event(row) == Ok::<SessionEvent, Seq<char>>(e),
{
    reveal_strlit("started");
    reveal_strlit("paused");
    reveal_strlit("resumed");
    reveal_strlit("completed");
    reveal_strlit("abandoned");
    reveal_strlit("recovered");
    reveal_strlit("project_switched");
    reveal_strlit("feature_switched");
    reveal_strlit("phase_changed");
    reveal_strlit("checkpoint_created");
    reveal_strlit("error");
    reveal_strlit("custom");
    lemma_lower_text_is_its_lower_case(event_type_text(e.event_type));
    assert("started"@[0] == 's' && "paused"@[0] == 'p' && "resumed"@[0] == 'r' && "completed"@[0] == 'c');
    assert("abandoned"@[0] == 'a' && "recovered"@[0] == 'r' && "project_switched"@[0] == 'p');
    assert("feature_switched"@[0] == 'f' && "phase_changed"@[0] == 'p' && "checkpoint_created"@[0] == 'c');
    assert("error"@[0] == 'e' && "custom"@[0] == 'c' && "recovered"@[2] == 'c' && "resumed"@[2] == 's');
    assert("paused"@[1] == 'a' && "project_switched"@[1] == 'r' && "phase_changed"@[1] == 'h');
    assert("completed"@[1] == 'o' && "checkpoint_created"@[1] == 'h' && "custom"@[1] == 'u');
    assert(event_type_read(row.event_type@) == Some(e.event_type));
}

} // verus!

//! Status and phase of a session, and the kinds of session events.

use vstd::prelude::*;
use crate::text::{ascii_lower, is_ascii_text, lowercase_of, owned, str_eq, to_lowercase};

verus! {

/// Session status indicating the current state of a session.
#[derive(Debug, Clone, Copy, PartialEq, Eq, Structural)]
pub enum SessionStatus {
    /// Session is active and being used
    Active,
    /// Session is temporarily paused
    Paused,
    /// Session has been completed successfully
    Completed,
    /// Session was abandoned without completion
    Abandoned,
}

/// The text of a status.
pub open spec fn status_text(s: SessionStatus) -> Seq<char> {
    match s {
        SessionStatus::Active => "active"@,
        SessionStatus::Paused => "paused"@,
        SessionStatus::Completed => "completed"@,
        SessionStatus::Abandoned => "abandoned"@,
    }
}

/// The status whose text is `s`, if any.
pub open spec fn status_from_text(s: Seq<char>) -> Option<SessionStatus> {
    if s == "active"@ {
        Some(SessionStatus::Active)
    } else if s == "paused"@ {
        Some(SessionStatus::Paused)
    } else if s == "completed"@ {
        Some(SessionStatus::Completed)
    } else if s == "abandoned"@ {
        Some(SessionStatus::Abandoned)
    } else {
        None
    }
}

impl SessionStatus {
    /// Parse a status from text that is already in lower case.
    pub fn from_lowercase(s: &str) -> (r: Option<SessionStatus>)
        ensures
            r == status_from_text(s@),
    {
        if str_eq(s, "active") {
            Some(SessionStatus::Active)
        } else if str_eq(s, "paused") {
            Some(SessionStatus::Paused)
        } else if str_eq(s, "completed") {
            Some(SessionStatus::Completed)
        } else if str_eq(s, "abandoned") {
            Some(SessionStatus::Abandoned)
        } else {
            None
        }
    }

    /// Create from string representation (case-insensitive).
    pub fn from_str(s: &str) -> (r: Option<SessionStatus>)
        ensures
            r == status_from_text(lowercase_of(s@)),
            is_ascii_text(s@) ==> r == status_from_text(s@.map_values(|c: char| ascii_lower(c))),
    {
        let lower = to_lowercase(s);
        SessionStatus::from_lowercase(lower.as_str())
    }

    /// Convert to string representation.
    pub fn as_str(&self) -> (r: &'static str)
        ensures
            r@ == status_text(*self),
    {
        match self {
            SessionStatus::Active => "active",
            SessionStatus::Paused => "paused",
            SessionStatus::Completed => "completed",
            SessionStatus::Abandoned => "abandoned",
        }
    }

    /// The text of this value, as an owned string (what its display shows).
    pub fn to_string(&self) -> (r: String)
        ensures
            r@ == status_text(*self),
    {
        owned(self.as_str())
    }

    /// Check if session is still ongoing (active or paused).
    #[verifier::allow_in_spec]
    pub fn is_ongoing(&self) -> bool
        returns
            (*self == SessionStatus::Active || *self == SessionStatus::Paused),
    {
        matches!(self, SessionStatus::Active | SessionStatus::Paused)
    }

    /// Check if session has ended (completed or abandoned).
    #[verifier::allow_in_spec]
    pub fn has_ended(&self) -> bool
        returns
            (*self == SessionStatus::Completed || *self == SessionStatus::Abandoned),
    {
        matches!(self, SessionStatus::Completed | SessionStatus::Abandoned)
    }
}

/// Parsing the text of a status gives that status back.
pub proof fn lemma_status_text_round_trip(s: SessionStatus)
    ensures
        status_from_text(status_text(s)) == Some(s),
{
    reveal_strlit("active");
    reveal_strlit("paused");
    reveal_strlit("completed");
    reveal_strlit("abandoned");
    assert("active"@[0] != "paused"@[0]);
    assert("active"@[0] != "completed"@[0]);
    assert("paused"@[0] != "completed"@[0]);
    assert("active"@.len() != "abandoned"@.len());
    assert("paused"@[0] != "abandoned"@[0]);
    assert("completed"@[0] != "abandoned"@[0]);
}

} // verus!

verus! {

/// Session phase indicating the current workflow phase.
#[derive(Debug, Clone, Copy, PartialEq, Eq, Structural)]
pub enum SessionPhase {
    /// Discovery and requirements gathering
    Discovery,
    /// Technical planning and architecture
    Planning,
    /// Implementation and development
    Building,
    /// Testing and validation
    Testing,
    /// Review and refinement
    Review,
    /// Phase not yet determined
    Unknown,
}

/// The text of a phase.
pub open spec fn phase_text(p: SessionPhase) -> Seq<char> {
    match p {
        SessionPhase::Discovery => "discovery"@,
        SessionPhase::Planning => "planning"@,
        SessionPhase::Building => "building"@,
        SessionPhase::Testing => "testing"@,
        SessionPhase::Review => "review"@,
        SessionPhase::Unknown => "unknown"@,
    }
}

/// The phase whose text is `s`, if any.
pub open spec fn phase_from_text(s: Seq<char>) -> Option<SessionPhase> {
    if s == "discovery"@ {
        Some(SessionPhase::Discovery)
    } else if s == "planning"@ {
        Some(SessionPhase::Planning)
    } else if s == "building"@ {
        Some(SessionPhase::Building)
    } else if s == "testing"@ {
        Some(SessionPhase::Testing)
    } else if s == "review"@ {
        Some(SessionPhase::Review)
    } else if s == "unknown"@ {
        Some(SessionPhase::Unknown)
    } else {
        None
    }
}

impl SessionPhase {
    /// Parse a phase from text that is already in lower case.
    pub fn from_lowercase(s: &str) -> (r: Option<SessionPhase>)
        ensures
            r == phase_from_text(s@),
    {
        if str_eq(s, "discovery") {
            Some(SessionPhase::Discovery)
        } else if str_eq(s, "planning") {
            Some(SessionPhase::Planning)
        } else if str_eq(s, "building") {
            Some(SessionPhase::Building)
        } else if str_eq(s, "testing") {
            Some(SessionPhase::Testing)
        } else if str_eq(s, "review") {
            Some(SessionPhase::Review)
        } else if str_eq(s, "unknown") {
            Some(SessionPhase::Unknown)
        } else {
            None
        }
    }

    /// Create from string representation (case-insensitive).
    pub fn from_str(s: &str) -> (r: Option<SessionPhase>)
        ensures
            r == phase_from_text(lowercase_of(s@)),
            is_ascii_text(s@) ==> r == phase_from_text(s@.map_values(|c: char| ascii_lower(c))),
    {
        let lower = to_lowercase(s);
        SessionPhase::from_lowercase(lower.as_str())
    }

    /// Convert to string representation.
    pub fn as_str(&self) -> (r: &'static str)
        ensures
            r@ == phase_text(*self),
    {
        match self {
            SessionPhase::Discovery => "discovery",
            SessionPhase::Planning => "planning",
            SessionPhase::Building => "building",
            SessionPhase::Testing => "testing",
            SessionPhase::Review => "review",
            SessionPhase::Unknown => "unknown",
        }
    }

    /// The text of this value, as an owned string (what its display shows).
    pub fn to_string(&self) -> (r: String)
        ensures
            r@ == phase_text(*self),
    {
        owned(self.as_str())
    }
}

impl Default for SessionPhase {
    /// The phase of a session that has not been classified yet.
    fn default() -> (r: Self)
        ensures
            r == SessionPhase::Unknown,
    {
        SessionPhase::Unknown
    }
}

/// Parsing the text of a phase gives that phase back.
pub proof fn lemma_phase_text_round_trip(p: SessionPhase)
    ensures
        phase_from_text(phase_text(p)) == Some(p),
{
    reveal_strlit("discovery");
    reveal_strlit("planning");
    reveal_strlit("building");
    reveal_strlit("testing");
    reveal_strlit("review");
    reveal_strlit("unknown");
    assert("discovery"@[0] == 'd');
    assert("planning"@[0] == 'p');
    assert("building"@[0] == 'b');
    assert("testing"@[0] == 't');
    assert("review"@[0] == 'r');
    assert("unknown"@[0] == 'u');
}

/// Type of session event.
#[derive(Debug, Clone, Copy, PartialEq, Eq, Structural)]
pub enum SessionEventType {
    /// Session was created/started
    Started,
    /// Session was paused
    Paused,
    /// Session was resumed
    Resumed,
    /// Session was completed
    Completed,
    /// Session was abandoned
    Abandoned,
    /// Session was recovered after a restart
    Recovered,
    /// Project was switched
    ProjectSwitched,
    /// Feature was switched
    FeatureSwitched,
    /// Phase was changed
    PhaseChanged,
    /// Checkpoint was created
    CheckpointCreated,
    /// An error occurred
    Error,
    /// Custom event
    Custom,
}

/// The text of an event type.
pub open spec fn event_type_text(t: SessionEventType) -> Seq<char> {
    match t {
        SessionEventType::Started => "started"@,
        SessionEventType::Paused => "paused"@,
        SessionEventType::Resumed => "resumed"@,
        SessionEventType::Completed => "completed"@,
        SessionEventType::Abandoned => "abandoned"@,
        SessionEventType::Recovered => "recovered"@,
        SessionEventType::ProjectSwitched => "project_switched"@,
        SessionEventType::FeatureSwitched => "feature_switched"@,
        SessionEventType::PhaseChanged => "phase_changed"@,
        SessionEventType::CheckpointCreated => "checkpoint_created"@,
        SessionEventType::Error => "error"@,
        SessionEventType::Custom => "custom"@,
    }
}

/// The event type whose text is `s`, if any.
pub open spec fn event_type_from_text(s: Seq<char>) -> Option<SessionEventType> {
    if s == "started"@ {
        Some(SessionEventType::Started)
    } else if s == "paused"@ {
        Some(SessionEventType::Paused)
    } else if s == "resumed"@ {
        Some(SessionEventType::Resumed)
    } else if s == "completed"@ {
        Some(SessionEventType::Completed)
    } else if s == "abandoned"@ {
        Some(SessionEventType::Abandoned)
    } else if s == "recovered"@ {
        Some(SessionEventType::Recovered)
    } else if s == "project_switched"@ {
        Some(SessionEventType::ProjectSwitched)
    } else if s == "feature_switched"@ {
        Some(SessionEventType::FeatureSwitched)
    } else if s == "phase_changed"@ {
        Some(SessionEventType::PhaseChanged)
    } else if s == "checkpoint_created"@ {
        Some(SessionEventType::CheckpointCreated)
    } else if s == "error"@ {
        Some(SessionEventType::Error)
    } else if s == "custom"@ {
        Some(SessionEventType::Custom)
    } else {
        None
    }
}

impl SessionEventType {
    /// Parse an event type from text that is already in lower case.
    pub fn from_lowercase(s: &str) -> (r: Option<SessionEventType>)
        ensures
            r == event_type_from_text(s@),
    {
        if str_eq(s, "started") {
            Some(SessionEventType::Started)
        } else if str_eq(s, "paused") {
            Some(SessionEventType::Paused)
        } else if str_eq(s, "resumed") {
            Some(SessionEventType::Resumed)
        } else if str_eq(s, "completed") {
            Some(SessionEventType::Completed)
        } else if str_eq(s, "abandoned") {
            Some(SessionEventType::Abandoned)
        } else if str_eq(s, "recovered") {
            Some(SessionEventType::Recovered)
        } else if str_eq(s, "project_switched") {
            Some(SessionEventType::ProjectSwitched)
        } else if str_eq(s, "feature_switched") {
            Some(SessionEventType::FeatureSwitched)
        } else if str_eq(s, "phase_changed") {
            Some(SessionEventType::PhaseChanged)
        } else if str_eq(s, "checkpoint_created") {
            Some(SessionEventType::CheckpointCreated)
        } else if str_eq(s, "error") {
            Some(SessionEventType::Error)
        } else if str_eq(s, "custom") {
            Some(SessionEventType::Custom)
        } else {
            None
        }
    }

    /// Create from string representation (case-insensitive).
    pub fn from_str(s: &str) -> (r: Option<SessionEventType>)
        ensures
            r == event_type_from_text(lowercase_of(s@)),
            is_ascii_text(s@) ==> r == event_type_from_text(s@.map_values(|c: char| ascii_lower(c))),
    {
        let lower = to_lowercase(s);
        SessionEventType::from_lowercase(lower.as_str())
    }

    /// Convert to string representation.
    pub fn as_str(&self) -> (r: &'static str)
        ensures
            r@ == event_type_text(*self),
    {
        match self {
            SessionEventType::Started => "started",
            SessionEventType::Paused => "paused",
            SessionEventType::Resumed => "resumed",
            SessionEventType::Completed => "completed",
            SessionEventType::Abandoned => "abandoned",
            SessionEventType::Recovered => "recovered",
            SessionEventType::ProjectSwitched => "project_switched",
            SessionEventType::FeatureSwitched => "feature_switched",
            SessionEventType::PhaseChanged => "phase_changed",
            SessionEventType::CheckpointCreated => "checkpoint_created",
            SessionEventType::Error => "error",
            SessionEventType::Custom => "custom",
        }
    }

    /// The text of this value, as an owned string (what its display shows).
    pub fn to_string(&self) -> (r: String)
        ensures
            r@ == event_type_text(*self),
    {
        owned(self.as_str())
    }
}

/// Parsing the text of an event type gives that event type back.
pub proof fn lemma_event_type_text_round_trip(t: SessionEventType)
    ensures
        event_type_from_text(event_type_text(t)) == Some(t),
{
    reveal_strlit("started");
    reveal_strlit("paused");
    reveal_strlit("resumed");
    reveal_strlit("completed");
    reveal_strlit("abandoned");
    reveal_strlit("recovered");
    reveal_strlit("project_switched");
    reveal_strlit("feature_switched");
    reveal_strlit("phase_changed");
    reveal_strlit("checkpoint_created");
    reveal_strlit("error");
    reveal_strlit("custom");
    assert("started"@[0] == 's');
    assert("paused"@[0] == 'p');
    assert("resumed"@[0] == 'r');
    assert("resumed"@[2] == 's');
    assert("recovered"@[2] == 'c');
    assert("completed"@[0] == 'c');
    assert("abandoned"@[0] == 'a');
    assert("recovered"@[0] == 'r');
    assert("project_switched"@[0] == 'p');
    assert("feature_switched"@[0] == 'f');
    assert("phase_changed"@[0] == 'p');
    assert("phase_changed"@[1] == 'h');
    assert("project_switched"@[1] == 'r');
    assert("paused"@[1] == 'a');
    assert("checkpoint_created"@[0] == 'c');
    assert("checkpoint_created"@[1] == 'h');
    assert("completed"@[1] == 'o');
    assert("custom"@[1] == 'u');
    assert("error"@[0] == 'e');
    assert("custom"@[0] == 'c');
}

} // verus!

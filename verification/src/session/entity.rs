//! The session entity: a global session tracking work across projects,
//! its lightweight listing form, and what is known when one is recovered.

use vstd::prelude::*;
use crate::clock::now_micros;
use crate::ids::{id_to_string, new_v4, uuid_text};
use crate::session::status::{SessionPhase, SessionStatus};
use crate::text::{push_signed_decimal, push_str, signed_decimal_text};

verus! {

/// A global session tracking work across multiple projects.
///
/// Identifiers are UUID values; times are microseconds since the Unix epoch.
#[derive(Debug, Clone)]
pub struct Session {
    /// Unique session identifier
    pub id: u128,
    /// When the session was created
    pub created_at: i64,
    /// When the session was last updated
    pub updated_at: i64,
    /// When the session was last active
    pub last_activity: i64,
    /// Current project being worked on (if any)
    pub current_project_id: Option<u128>,
    /// Current feature being worked on (if any)
    pub current_feature_id: Option<u128>,
    /// Current session status
    pub status: SessionStatus,
    /// Current workflow phase
    pub phase: SessionPhase,
    /// Human-readable description of what's being worked on
    pub description: Option<String>,
    /// Last checkpoint ID for recovery
    pub last_checkpoint_id: Option<u128>,
    /// Metadata for extensibility (JSON text)
    pub metadata: Option<String>,
}

/// `new` equals `old` but for the two activity times, which were set to one instant.
pub open spec fn touched(old: Session, new: Session) -> bool {
    &&& new.last_activity == new.updated_at
    &&& new.id == old.id
    &&& new.created_at == old.created_at
    &&& new.current_project_id == old.current_project_id
    &&& new.current_feature_id == old.current_feature_id
    &&& new.status == old.status
    &&& new.phase == old.phase
    &&& new.description == old.description
    &&& new.last_checkpoint_id == old.last_checkpoint_id
    &&& new.metadata == old.metadata
}

/// A fresh session: active, phase unknown, no checkpoint or metadata, all
/// three times equal.
pub open spec fn fresh_session(
    s: Session,
    project: Option<u128>,
    feature: Option<u128>,
    description: Option<String>,
) -> bool {
    &&& s.created_at == s.updated_at
    &&& s.updated_at == s.last_activity
    &&& s.current_project_id == project
    &&& s.current_feature_id == feature
    &&& s.status == SessionStatus::Active
    &&& s.phase == SessionPhase::Unknown
    &&& s.description == description
    &&& s.last_checkpoint_id.is_none()
    &&& s.metadata.is_none()
}

/// A copy of an optional string.
pub fn copy_opt_string(s: &Option<String>) -> (r: Option<String>)
    ensures
        r == *s,
{
    match s {
        Some(t) => Some(t.clone()),
        None => None,
    }
}

impl Session {
    /// Create a new active session.
    pub fn new(
        current_project_id: Option<u128>,
        current_feature_id: Option<u128>,
        description: Option<String>,
    ) -> (r: Session)
        ensures
            fresh_session(r, current_project_id, current_feature_id, description),
    {
        let id = new_v4();
        Session::with_id(id, current_project_id, current_feature_id, description)
    }

    /// Create a new session with a specific ID (for testing or recovery).
    pub fn with_id(
        id: u128,
        current_project_id: Option<u128>,
        current_feature_id: Option<u128>,
        description: Option<String>,
    ) -> (r: Session)
        ensures
            r.id == id,
            fresh_session(r, current_project_id, current_feature_id, description),
    {
        let now = now_micros();
        Session {
            id,
            created_at: now,
            updated_at: now,
            last_activity: now,
            current_project_id,
            current_feature_id,
            status: SessionStatus::Active,
            phase: SessionPhase::Unknown,
            description,
            last_checkpoint_id: None,
            metadata: None,
        }
    }

    /// A field-by-field copy of the session.
    pub fn duplicate(&self) -> (r: Session)
        ensures
            r == *self,
    {
        Session {
            id: self.id,
            created_at: self.created_at,
            updated_at: self.updated_at,
            last_activity: self.last_activity,
            current_project_id: self.current_project_id,
            current_feature_id: self.current_feature_id,
            status: self.status,
            phase: self.phase,
            description: copy_opt_string(&self.description),
            last_checkpoint_id: self.last_checkpoint_id,
            metadata: copy_opt_string(&self.metadata),
        }
    }

    /// Update the last activity timestamp.
    pub fn touch(&mut self)
        ensures
            touched(*old(self), *final(self)),
    {
        let now = now_micros();
        self.last_activity = now;
        self.updated_at = now;
    }

    /// Set the current project.
    pub fn set_project(&mut self, project_id: Option<u128>)
        ensures
            touched(
                Session { current_project_id: project_id, ..*old(self) },
                *final(self),
            ),
    {
        self.current_project_id = project_id;
        self.touch();
    }

    /// Set the current feature.
    pub fn set_feature(&mut self, feature_id: Option<u128>)
        ensures
            touched(
                Session { current_feature_id: feature_id, ..*old(self) },
                *final(self),
            ),
    {
        self.current_feature_id = feature_id;
        self.touch();
    }

    /// Set the session phase.
    pub fn set_phase(&mut self, phase: SessionPhase)
        ensures
            touched(Session { phase: phase, ..*old(self) }, *final(self)),
    {
        self.phase = phase;
        self.touch();
    }

    /// Pause the session.
    pub fn pause(&mut self)
        ensures
            touched(Session { status: SessionStatus::Paused, ..*old(self) }, *final(self)),
    {
        self.status = SessionStatus::Paused;
        self.touch();
    }

    /// Resume the session.
    pub fn resume(&mut self)
        ensures
            touched(Session { status: SessionStatus::Active, ..*old(self) }, *final(self)),
    {
        self.status = SessionStatus::Active;
        self.touch();
    }

    /// Complete the session.
    pub fn complete(&mut self)
        ensures
            touched(Session { status: SessionStatus::Completed, ..*old(self) }, *final(self)),
    {
        self.status = SessionStatus::Completed;
        self.touch();
    }

    /// Abandon the session.
    pub fn abandon(&mut self)
        ensures
            touched(Session { status: SessionStatus::Abandoned, ..*old(self) }, *final(self)),
    {
        self.status = SessionStatus::Abandoned;
        self.touch();
    }

    /// Set the last checkpoint ID.
    pub fn set_checkpoint(&mut self, checkpoint_id: u128)
        ensures
            touched(
                Session { last_checkpoint_id: Some(checkpoint_id), ..*old(self) },
                *final(self),
            ),
    {
        self.last_checkpoint_id = Some(checkpoint_id);
        self.touch();
    }

    /// Duration of a session that ended at its last update, or that is
    /// measured up to `now`, in microseconds.
    pub fn duration_until(&self, now: i64) -> (r: i128)
        ensures
            r == (if self.status.has_ended() { self.updated_at as int } else { now as int })
                - self.created_at as int,
    {
        let end_time: i64 = if self.status.has_ended() {
            self.updated_at
        } else {
            now
        };
        end_time as i128 - self.created_at as i128
    }

    /// Get the duration of the session in microseconds: up to its last
    /// update once it has ended, up to the current time otherwise.
    pub fn duration(&self) -> (r: i128)
        ensures
            self.status.has_ended() ==> r == self.updated_at - self.created_at,
    {
        let now = now_micros();
        self.duration_until(now)
    }

    /// Check if session is active.
    pub fn is_active(&self) -> (r: bool)
        ensures
            r == (self.status == SessionStatus::Active),
    {
        self.status == SessionStatus::Active
    }

    /// Check if session is paused.
    pub fn is_paused(&self) -> (r: bool)
        ensures
            r == (self.status == SessionStatus::Paused),
    {
        self.status == SessionStatus::Paused
    }
}

/// Lightweight session info for listing.
#[derive(Debug, Clone)]
pub struct SessionInfo {
    /// Session ID
    pub id: u128,
    /// Current session status
    pub status: SessionStatus,
    /// Current workflow phase
    pub phase: SessionPhase,
    /// Current project ID
    pub current_project_id: Option<u128>,
    /// Human-readable description
    pub description: Option<String>,
    /// When created
    pub created_at: i64,
    /// Last activity timestamp
    pub last_activity: i64,
}

/// The listing form of a session.
pub open spec fn info_of(s: Session) -> SessionInfo {
    SessionInfo {
        id: s.id,
        status: s.status,
        phase: s.phase,
        current_project_id: s.current_project_id,
        description: s.description,
        created_at: s.created_at,
        last_activity: s.last_activity,
    }
}

impl SessionInfo {
    /// The listing form of a session.
    pub fn from_session(session: &Session) -> (r: SessionInfo)
        ensures
            r == info_of(*session),
    {
        SessionInfo {
            id: session.id,
            status: session.status,
            phase: session.phase,
            current_project_id: session.current_project_id,
            description: copy_opt_string(&session.description),
            created_at: session.created_at,
            last_activity: session.last_activity,
        }
    }
}

/// Microseconds in one minute.
pub const MICROS_PER_MINUTE: i128 = 60_000_000;

/// Microseconds in one hour.
pub const MICROS_PER_HOUR: i128 = 3_600_000_000;

/// Integer division that truncates toward zero, as Rust's `/` does.
pub open spec fn div_trunc(a: int, d: int) -> int
    recommends
        d > 0,
{
    if a >= 0 { a / d } else { -((-a) / d) }
}

/// Remainder with the sign of the dividend, as Rust's `%` does.
pub open spec fn rem_trunc(a: int, d: int) -> int
    recommends
        d > 0,
{
    if a >= 0 { a % d } else { -((-a) % d) }
}

/// Information about a recovered session.
///
/// Tells whether the shutdown was clean (the session was paused) or unclean
/// (the session was still active: a crash or a forced quit).
#[derive(Debug, Clone)]
pub struct RecoveryInfo {
    /// The recovered session
    pub session: Session,
    /// The status the session had before recovery
    pub previous_status: SessionStatus,
    /// Whether this was an unclean shutdown (session was Active, not Paused)
    pub was_unclean_shutdown: bool,
    /// Time since last activity before recovery, in microseconds
    pub idle_duration: i128,
    /// Whether the session has a checkpoint available for code recovery
    pub has_checkpoint: bool,
}

/// The recovery information for a session recovered at time `now`.
pub open spec fn recovery_info_at(
    session: Session,
    previous_status: SessionStatus,
    now: int,
) -> RecoveryInfo {
    RecoveryInfo {
        session: session,
        previous_status: previous_status,
        was_unclean_shutdown: previous_status == SessionStatus::Active,
        idle_duration: (now - session.last_activity) as i128,
        has_checkpoint: session.last_checkpoint_id.is_some(),
    }
}

/// The idle part of a recovery summary: hours and minutes, or minutes alone.
pub open spec fn idle_text(idle: int) -> Seq<char> {
    let hours = div_trunc(idle, MICROS_PER_HOUR as int);
    let minutes = rem_trunc(div_trunc(idle, MICROS_PER_MINUTE as int), 60);
    if hours > 0 {
        signed_decimal_text(hours) + "h "@ + signed_decimal_text(minutes) + "m"@
    } else {
        signed_decimal_text(minutes) + "m"@
    }
}

/// The human-readable summary of a recovery.
pub open spec fn recovery_summary_text(info: RecoveryInfo) -> Seq<char> {
    "Recovered session "@ + uuid_text(info.session.id) + " after "@ + (if info.was_unclean_shutdown {
        "unclean shutdown (crash/force quit)"@
    } else {
        "clean shutdown"@
    }) + " (idle for "@ + idle_text(info.idle_duration as int) + ")"@
}

fn div_trunc_exec(a: i128, d: i128) -> (r: i128)
    requires
        d >= 2,
    ensures
        r == div_trunc(a as int, d as int),
{
    if a >= 0 {
        a / d
    } else if a == i128::MIN {
        let big: u128 = 0x8000_0000_0000_0000_0000_0000_0000_0000;
        let du: u128 = d as u128;
        let q: u128 = big / du;
        assert(q <= big / 2) by (nonlinear_arith)
            requires
                q == big / du,
                du >= 2,
                big == 0x8000_0000_0000_0000_0000_0000_0000_0000u128,
        ;
        assert(-(a as int) == big as int);
        -(q as i128)
    } else {
        -((-a) / d)
    }
}

fn rem_trunc_exec(a: i128, d: i128) -> (r: i128)
    requires
        d > 0,
        a > i128::MIN,
    ensures
        r == rem_trunc(a as int, d as int),
{
    if a >= 0 {
        a % d
    } else {
        -((-a) % d)
    }
}

impl RecoveryInfo {
    /// Recovery information for a session, measured at time `now`.
    pub fn at(session: Session, previous_status: SessionStatus, now: i64) -> (r: RecoveryInfo)
        ensures
            r == recovery_info_at(session, previous_status, now as int),
    {
        let was_unclean_shutdown = previous_status == SessionStatus::Active;
        let idle_duration = now as i128 - session.last_activity as i128;
        let has_checkpoint = session.last_checkpoint_id.is_some();
        RecoveryInfo {
            session,
            previous_status,
            was_unclean_shutdown,
            idle_duration,
            has_checkpoint,
        }
    }

    /// Create recovery info for a recovered session, measured now.
    pub fn new(session: Session, previous_status: SessionStatus) -> (r: RecoveryInfo)
        ensures
            exists|now: i64| r == recovery_info_at(session, previous_status, now as int),
    {
        let now = now_micros();
        RecoveryInfo::at(session, previous_status, now)
    }

    /// Check if the session was idle for longer than the given duration (microseconds).
    pub fn was_idle_longer_than(&self, duration: i128) -> (r: bool)
        ensures
            r == (self.idle_duration > duration),
    {
        self.idle_duration > duration
    }

    /// Get a human-readable summary of the recovery.
    pub fn summary(&self) -> (r: String)
        ensures
            r@ == recovery_summary_text(*self),
    {
        let mut s = String::new();
        push_str(&mut s, "Recovered session ");
        let id = id_to_string(self.session.id);
        push_str(&mut s, id.as_str());
        push_str(&mut s, " after ");
        if self.was_unclean_shutdown {
            push_str(&mut s, "unclean shutdown (crash/force quit)");
        } else {
            push_str(&mut s, "clean shutdown");
        }
        push_str(&mut s, " (idle for ");
        let idle = self.idle_duration;
        let hours = div_trunc_exec(idle, MICROS_PER_HOUR);
        let total_minutes = div_trunc_exec(idle, MICROS_PER_MINUTE);
        let minutes = rem_trunc_exec(total_minutes, 60);
        if hours > 0 {
            push_signed_decimal(&mut s, hours);
            push_str(&mut s, "h ");
            push_signed_decimal(&mut s, minutes);
            push_str(&mut s, "m");
        } else {
            push_signed_decimal(&mut s, minutes);
            push_str(&mut s, "m");
        }
        push_str(&mut s, ")");
        assert(s@ =~= recovery_summary_text(*self));
        s
    }
}

/// Result of attempting session recovery on restart.
#[derive(Debug, Clone)]
pub enum RecoveryResult {
    /// A session was recovered
    Recovered(RecoveryInfo),
    /// No session needed recovery (none existed or all were properly ended)
    NoneToRecover,
    /// A new session was created (no recoverable session found)
    CreatedNew(Session),
}

} // verus!

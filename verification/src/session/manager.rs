//! Decisions of the session manager.
//!
//! The manager reads sessions from its repository, decides, and writes
//! sessions and events back. Each operation here takes what the repository
//! returned and gives the sessions and events to write, so the rules of the
//! session lifecycle are stated and proved apart from storage.

use vstd::prelude::*;
use crate::ids::{id_to_string, uuid_text};
use crate::session::entity::{
    recovery_info_at, touched, fresh_session, RecoveryInfo, Session,
};
use crate::session::event::{event_is, EventData, SessionEvent};
use crate::session::status::{
    phase_text, status_text, SessionEventType, SessionPhase, SessionStatus,
};
use crate::text::{decimal_text, push_decimal, push_signed_decimal, push_str, signed_decimal_text};

verus! {

/// Errors of session operations.
#[derive(Debug, Clone)]
pub enum SessionError {
    /// No session has the given ID
    NotFound { session_id: u128 },
    /// The operation is not allowed; the message says why
    InvalidInput { message: String },
}

/// Operations that an ended session refuses.
#[derive(Debug, Clone, Copy, PartialEq, Eq, Structural)]
pub enum RefusedAction {
    /// Pausing
    Pause,
    /// Resuming
    Resume,
    /// Switching the project
    SwitchProject,
    /// Switching the feature
    SwitchFeature,
    /// Changing the phase
    SetPhase,
}

/// The text that opens the refusal of an action on an ended session.
pub open spec fn refusal_prefix(a: RefusedAction) -> Seq<char> {
    match a {
        RefusedAction::Pause => "Cannot pause session with status: "@,
        RefusedAction::Resume => "Cannot resume session with status: "@,
        RefusedAction::SwitchProject => "Cannot switch project in session with status: "@,
        RefusedAction::SwitchFeature => "Cannot switch feature in session with status: "@,
        RefusedAction::SetPhase => "Cannot update phase in session with status: "@,
    }
}

/// The message of the refusal of `a` on a session with status `s`.
pub open spec fn refusal_text(a: RefusedAction, s: SessionStatus) -> Seq<char> {
    refusal_prefix(a) + status_text(s)
}

/// `e` refuses `a` on a session with status `s`.
pub open spec fn is_refusal(e: SessionError, a: RefusedAction, s: SessionStatus) -> bool {
    e matches SessionError::InvalidInput { message } && message@ == refusal_text(a, s)
}

/// The message of a missing session.
pub open spec fn not_found_text(id: u128) -> Seq<char> {
    "Session "@ + uuid_text(id) + " not found"@
}

/// The message of an error.
pub open spec fn error_text(e: SessionError) -> Seq<char> {
    match e {
        SessionError::NotFound { session_id } => not_found_text(session_id),
        SessionError::InvalidInput { message } => message@,
    }
}

impl SessionError {
    /// The message of the error.
    pub fn message(&self) -> (r: String)
        ensures
            r@ == error_text(*self),
    {
        match self {
            SessionError::NotFound { session_id } => {
                let mut s = String::new();
                push_str(&mut s, "Session ");
                let id = id_to_string(*session_id);
                push_str(&mut s, id.as_str());
                push_str(&mut s, " not found");
                assert(s@ =~= not_found_text(*session_id));
                s
            },
            SessionError::InvalidInput { message } => message.clone(),
        }
    }
}

/// The refusal of `action` on an ended session with status `status`.
pub fn refusal(action: RefusedAction, status: SessionStatus) -> (r: SessionError)
    ensures
        is_refusal(r, action, status),
{
    let mut s = String::new();
    match action {
        RefusedAction::Pause => push_str(&mut s, "Cannot pause session with status: "),
        RefusedAction::Resume => push_str(&mut s, "Cannot resume session with status: "),
        RefusedAction::SwitchProject => push_str(&mut s, "Cannot switch project in session with status: "),
        RefusedAction::SwitchFeature => push_str(&mut s, "Cannot switch feature in session with status: "),
        RefusedAction::SetPhase => push_str(&mut s, "Cannot update phase in session with status: "),
    }
    push_str(&mut s, status.as_str());
    assert(s@ =~= refusal_text(action, status));
    SessionError::InvalidInput { message: s }
}

// ---------------------------------------------------------------------------
// The repository, as far as the laws need it: sessions keyed by ID.

/// Every session is stored under its own ID.
pub open spec fn well_keyed(repo: Map<u128, Session>) -> bool {
    forall|k: u128| #[trigger] repo.contains_key(k) ==> repo[k].id == k
}

/// At most one stored session is active.
pub open spec fn at_most_one_active(repo: Map<u128, Session>) -> bool {
    forall|a: u128, b: u128|
        #![trigger repo[a], repo[b]]
        repo.contains_key(a) && repo.contains_key(b) && repo[a].status == SessionStatus::Active
            && repo[b].status == SessionStatus::Active ==> a == b
}

/// `found` is what looking up `id` in the repository gives.
pub open spec fn lookup_gives(repo: Map<u128, Session>, id: u128, found: Option<Session>) -> bool {
    match found {
        Some(s) => s.id == id && repo.contains_key(id) && repo[id] == s,
        None => !repo.contains_key(id),
    }
}

/// `active` is what asking the repository for its active session gives.
pub open spec fn active_lookup_gives(repo: Map<u128, Session>, active: Option<Session>) -> bool {
    match active {
        Some(s) => repo.contains_key(s.id) && repo[s.id] == s && s.status == SessionStatus::Active,
        None => forall|k: u128| #[trigger] repo.contains_key(k) ==> repo[k].status != SessionStatus::Active,
    }
}

/// Writing a session stores it under its ID.
pub open spec fn write(repo: Map<u128, Session>, s: Session) -> Map<u128, Session> {
    repo.insert(s.id, s)
}

// ---------------------------------------------------------------------------
// Lookups

/// The session that a lookup of `session_id` found, or the not-found error.
pub fn require_found(found: Option<Session>, session_id: u128) -> (r: Result<Session, SessionError>)
    ensures
        match found {
            Some(s) => r == Ok::<Session, SessionError>(s),
            None => r == Err::<Session, SessionError>(SessionError::NotFound { session_id }),
        },
{
    match found {
        Some(s) => Ok(s),
        None => Err(SessionError::NotFound { session_id }),
    }
}

// ---------------------------------------------------------------------------
// Creation

/// What creating a session writes: the previously active session paused (with
/// its paused event), then the new session and its started event.
#[derive(Debug)]
pub struct CreatePlan {
    /// The previously active session, paused, and its paused event
    pub paused: Option<(Session, SessionEvent)>,
    /// The new session
    pub session: Session,
    /// The started event of the new session
    pub started: SessionEvent,
}

/// `plan` is a correct creation plan given the active session `active`.
pub open spec fn create_plan_ok(
    active: Option<Session>,
    project: Option<u128>,
    feature: Option<u128>,
    description: Option<String>,
    plan: CreatePlan,
) -> bool {
    &&& match active {
        Some(a) => plan.paused matches Some((p, e)) && touched(
            Session { status: SessionStatus::Paused, ..a },
            p,
        ) && event_is(e, a.id, SessionEventType::Paused, None),
        None => plan.paused.is_none(),
    }
    &&& fresh_session(plan.session, project, feature, description)
    &&& event_is(plan.started, plan.session.id, SessionEventType::Started, None)
}

/// The repository after a creation plan is written.
pub open spec fn after_create(repo: Map<u128, Session>, plan: CreatePlan) -> Map<u128, Session> {
    let r1 = match plan.paused {
        Some((p, _)) => write(repo, p),
        None => repo,
    };
    write(r1, plan.session)
}

/// Create a new session; any existing active session is paused first.
pub fn plan_create(
    active: Option<Session>,
    project_id: Option<u128>,
    feature_id: Option<u128>,
    description: Option<String>,
) -> (plan: CreatePlan)
    ensures
        create_plan_ok(active, project_id, feature_id, description, plan),
{
    let paused = match active {
        Some(mut a) => {
            a.pause();
            let e = SessionEvent::paused(a.id);
            Some((a, e))
        },
        None => None,
    };
    let session = Session::new(project_id, feature_id, description);
    let started = SessionEvent::started(session.id);
    CreatePlan { paused, session, started }
}

/// After a session is created, it is active and no other stored session is.
pub proof fn lemma_create_keeps_one_active(
    repo: Map<u128, Session>,
    active: Option<Session>,
    project: Option<u128>,
    feature: Option<u128>,
    description: Option<String>,
    plan: CreatePlan,
)
    requires
        at_most_one_active(repo),
        active_lookup_gives(repo, active),
        create_plan_ok(active, project, feature, description, plan),
    ensures
        at_most_one_active(after_create(repo, plan)),
        after_create(repo, plan)[plan.session.id].status == SessionStatus::Active,
{
    let r1 = match plan.paused {
        Some((p, _)) => write(repo, p),
        None => repo,
    };
    assert forall|k: u128| #[trigger] r1.contains_key(k) implies r1[k].status != SessionStatus::Active by {
        match active {
            Some(a) => {
                if k != a.id {
                    assert(repo.contains_key(k));
                    if repo[k].status == SessionStatus::Active {
                        assert(repo[a.id].status == SessionStatus::Active);
                    }
                }
            },
            None => {},
        }
    }
    let r2 = write(r1, plan.session);
    assert forall|a: u128, b: u128|
        #![trigger r2[a], r2[b]]
        r2.contains_key(a) && r2.contains_key(b) && r2[a].status == SessionStatus::Active
            && r2[b].status == SessionStatus::Active implies a == b by {
        if a != plan.session.id {
            assert(r1.contains_key(a));
        }
        if b != plan.session.id {
            assert(r1.contains_key(b));
        }
    }
}

// ---------------------------------------------------------------------------
// Get or create

/// What `get_or_create` does.
#[derive(Debug)]
pub enum GetOrCreate {
    /// Use the active session as it is
    UseActive(Session),
    /// Resume the ongoing (paused) session: write it and its resumed event
    ResumeOngoing(Session, SessionEvent),
    /// No ongoing session: create a new one
    CreateNew,
}

/// Decide `get_or_create` from the active session and the most recent ongoing one.
pub fn decide_get_or_create(active: Option<Session>, ongoing: Option<Session>) -> (r: GetOrCreate)
    ensures
        match active {
            Some(a) => r == GetOrCreate::UseActive(a),
            None => match ongoing {
                Some(o) => r matches GetOrCreate::ResumeOngoing(s, e) && touched(
                    Session { status: SessionStatus::Active, ..o },
                    s,
                ) && event_is(e, o.id, SessionEventType::Resumed, None),
                None => r == GetOrCreate::CreateNew,
            },
        },
{
    match active {
        Some(a) => GetOrCreate::UseActive(a),
        None => match ongoing {
            Some(mut o) => {
                o.resume();
                let e = SessionEvent::resumed(o.id);
                GetOrCreate::ResumeOngoing(o, e)
            },
            None => GetOrCreate::CreateNew,
        },
    }
}

/// Making a session active while no other stored session is active leaves
/// it the only active session. This covers `get_or_create` resuming the
/// ongoing session when none is active, and recovery when the recovered
/// session is the only one that may be active.
pub proof fn lemma_sole_activation_keeps_one_active(repo: Map<u128, Session>, s: Session)
    requires
        forall|k: u128| #[trigger] repo.contains_key(k) && k != s.id ==> repo[k].status != SessionStatus::Active,
    ensures
        at_most_one_active(write(repo, s)),
{
    let repo2 = write(repo, s);
    assert forall|a: u128, b: u128|
        #![trigger repo2[a], repo2[b]]
        repo2.contains_key(a) && repo2.contains_key(b) && repo2[a].status == SessionStatus::Active
            && repo2[b].status == SessionStatus::Active implies a == b by {
        if a != s.id {
            assert(repo.contains_key(a) && repo[a] == repo2[a]);
        }
        if b != s.id {
            assert(repo.contains_key(b) && repo[b] == repo2[b]);
        }
    }
}

/// When no session is active, resuming the ongoing session as
/// `get_or_create` decides (the session it gives back) leaves it the only
/// active session.
pub proof fn lemma_get_or_create_keeps_one_active(repo: Map<u128, Session>, ongoing: Session, resumed: Session)
    requires
        active_lookup_gives(repo, None),
        touched(Session { status: SessionStatus::Active, ..ongoing }, resumed),
    ensures
        at_most_one_active(write(repo, resumed)),
        write(repo, resumed)[resumed.id].status == SessionStatus::Active,
{
    lemma_sole_activation_keeps_one_active(repo, resumed);
}

// ---------------------------------------------------------------------------
// Recovery

/// What recovering an ongoing session writes and reports.
#[derive(Debug)]
pub struct RecoverPlan {
    /// The recovered session, resumed
    pub session: Session,
    /// The recovered event
    pub event: SessionEvent,
    /// What is known about the recovery
    pub info: RecoveryInfo,
}

/// Recover the most recent ongoing session after a restart: resume it and
/// report whether the shutdown before was clean. `None` when there is no
/// ongoing session.
pub fn plan_recover(ongoing: Option<Session>) -> (r: Option<RecoverPlan>)
    ensures
        match ongoing {
            None => r.is_none(),
            Some(o) => r matches Some(p) && {
                &&& touched(Session { status: SessionStatus::Active, ..o }, p.session)
                &&& p.event.session_id == o.id
                &&& p.event.event_type == SessionEventType::Recovered
                &&& p.event.data matches Some(EventData::Recovered { previous_status: ps, was_unclean_shutdown: u })
                    && ps@ == status_text(o.status) && u == (o.status == SessionStatus::Active)
                &&& exists|now: i64| p.info == recovery_info_at(p.session, o.status, now as int)
            },
        },
{
    match ongoing {
        None => None,
        Some(mut session) => {
            let previous_status = session.status;
            let was_unclean = previous_status == SessionStatus::Active;
            session.resume();
            let event = SessionEvent::recovered(session.id, previous_status.as_str(), was_unclean);
            let info = RecoveryInfo::new(session.duplicate(), previous_status);
            Some(RecoverPlan { session, event, info })
        },
    }
}

/// Whether there is a recoverable session, without recovering it.
pub fn check_recoverable(ongoing: Option<Session>) -> (r: Option<RecoveryInfo>)
    ensures
        match ongoing {
            None => r.is_none(),
            Some(o) => r matches Some(info) && exists|now: i64|
                info == recovery_info_at(o, o.status, now as int),
        },
{
    match ongoing {
        None => None,
        Some(session) => {
            let previous_status = session.status;
            Some(RecoveryInfo::new(session, previous_status))
        },
    }
}

// ---------------------------------------------------------------------------
// Lifecycle transitions of one session

/// Pause a session. An ended session is refused.
pub fn plan_pause(found: Option<Session>, session_id: u128) -> (r: Result<(Session, SessionEvent), SessionError>)
    ensures
        match found {
            None => r == Err::<(Session, SessionEvent), SessionError>(SessionError::NotFound { session_id }),
            Some(s) => if s.status.has_ended() {
                r matches Err(e) && is_refusal(e, RefusedAction::Pause, s.status)
            } else {
                r matches Ok((p, e)) && touched(Session { status: SessionStatus::Paused, ..s }, p)
                    && event_is(e, session_id, SessionEventType::Paused, None)
            },
        },
{
    let mut session = match require_found(found, session_id) {
        Ok(s) => s,
        Err(e) => return Err(e),
    };
    if session.status.has_ended() {
        return Err(refusal(RefusedAction::Pause, session.status));
    }
    session.pause();
    Ok((session, SessionEvent::paused(session_id)))
}


/// Pausing a session never makes a second session active.
pub proof fn lemma_pause_keeps_one_active(repo: Map<u128, Session>, s: Session, p: Session)
    requires
        at_most_one_active(repo),
        repo.contains_key(s.id),
        repo[s.id] == s,
        touched(Session { status: SessionStatus::Paused, ..s }, p),
    ensures
        at_most_one_active(write(repo, p)),
        write(repo, p)[s.id].status == SessionStatus::Paused,
{
    let repo2 = write(repo, p);
    assert forall|a: u128, b: u128|
        #![trigger repo2[a], repo2[b]]
        repo2.contains_key(a) && repo2.contains_key(b) && repo2[a].status == SessionStatus::Active
            && repo2[b].status == SessionStatus::Active implies a == b by {
        assert(repo.contains_key(a) && repo.contains_key(b));
        assert(repo[a] == repo2[a] && repo[b] == repo2[b]);
    }
}

/// Writing back a session that does not newly become active keeps at most
/// one session active: completing, abandoning, switching its project or
/// feature, changing its phase, recording a checkpoint or touching it.
pub proof fn lemma_update_keeps_one_active(repo: Map<u128, Session>, s: Session)
    requires
        at_most_one_active(repo),
        s.status != SessionStatus::Active || (repo.contains_key(s.id) && repo[s.id].status == SessionStatus::Active),
    ensures
        at_most_one_active(write(repo, s)),
{
    let repo2 = write(repo, s);
    assert forall|a: u128, b: u128|
        #![trigger repo2[a], repo2[b]]
        repo2.contains_key(a) && repo2.contains_key(b) && repo2[a].status == SessionStatus::Active
            && repo2[b].status == SessionStatus::Active implies a == b by {
        if a == s.id {
            assert(repo.contains_key(a) && repo[a].status == SessionStatus::Active);
        }
        if b == s.id {
            assert(repo.contains_key(b) && repo[b].status == SessionStatus::Active);
        }
        assert(repo.contains_key(a) && repo.contains_key(b));
        assert(repo[a].status == SessionStatus::Active && repo[b].status == SessionStatus::Active);
    }
}

/// What resuming a session writes: any other active session paused (with its
/// paused event), then the resumed session and its resumed event.
#[derive(Debug)]
pub struct ResumePlan {
    /// Another session that was active, paused, and its paused event
    pub paused_other: Option<(Session, SessionEvent)>,
    /// The resumed session
    pub session: Session,
    /// Its resumed event
    pub event: SessionEvent,
}

/// `plan` correctly resumes the session `s` given the active session `active`.
pub open spec fn resume_plan_ok(s: Session, active: Option<Session>, plan: ResumePlan) -> bool {
    &&& match active {
        Some(a) => if a.id != s.id {
            plan.paused_other matches Some((p, e)) && touched(
                Session { status: SessionStatus::Paused, ..a },
                p,
            ) && event_is(e, a.id, SessionEventType::Paused, None)
        } else {
            plan.paused_other.is_none()
        },
        None => plan.paused_other.is_none(),
    }
    &&& touched(Session { status: SessionStatus::Active, ..s }, plan.session)
    &&& event_is(plan.event, s.id, SessionEventType::Resumed, None)
}

/// The repository after a resume plan is written.
pub open spec fn after_resume(repo: Map<u128, Session>, plan: ResumePlan) -> Map<u128, Session> {
    let r1 = match plan.paused_other {
        Some((p, _)) => write(repo, p),
        None => repo,
    };
    write(r1, plan.session)
}

/// Resume a session; any other active session is paused first. An ended
/// session is refused.
pub fn plan_resume(found: Option<Session>, active: Option<Session>, session_id: u128) -> (r: Result<ResumePlan, SessionError>)
    ensures
        match found {
            None => r matches Err(e) && e == SessionError::NotFound { session_id },
            Some(s) => if s.status.has_ended() {
                r matches Err(e) && is_refusal(e, RefusedAction::Resume, s.status)
            } else {
                r matches Ok(plan) && resume_plan_ok(s, active, plan)
            },
        },
{
    let mut session = match require_found(found, session_id) {
        Ok(s) => s,
        Err(e) => return Err(e),
    };
    if session.status.has_ended() {
        return Err(refusal(RefusedAction::Resume, session.status));
    }
    let paused_other = match active {
        Some(mut a) => {
            if a.id != session.id {
                a.pause();
                let e = SessionEvent::paused(a.id);
                Some((a, e))
            } else {
                None
            }
        },
        None => None,
    };
    session.resume();
    let event = SessionEvent::resumed(session.id);
    Ok(ResumePlan { paused_other, session, event })
}

/// After a session is resumed, it is active and no other stored session is.
pub proof fn lemma_resume_keeps_one_active(
    repo: Map<u128, Session>,
    s: Session,
    active: Option<Session>,
    plan: ResumePlan,
)
    requires
        at_most_one_active(repo),
        well_keyed(repo),
        repo.contains_key(s.id),
        repo[s.id] == s,
        active_lookup_gives(repo, active),
        resume_plan_ok(s, active, plan),
    ensures
        at_most_one_active(after_resume(repo, plan)),
        after_resume(repo, plan)[s.id].status == SessionStatus::Active,
{
    let r1 = match plan.paused_other {
        Some((p, _)) => write(repo, p),
        None => repo,
    };
    assert forall|k: u128| #[trigger] r1.contains_key(k) && k != s.id implies r1[k].status
        != SessionStatus::Active by {
        match active {
            Some(a) => {
                if k != a.id {
                    assert(repo.contains_key(k));
                    if repo[k].status == SessionStatus::Active {
                        assert(repo[a.id].status == SessionStatus::Active);
                    }
                }
            },
            None => {
                assert(repo.contains_key(k));
            },
        }
    }
    let r2 = write(r1, plan.session);
    assert(plan.session.id == s.id);
    assert forall|a: u128, b: u128|
        #![trigger r2[a], r2[b]]
        r2.contains_key(a) && r2.contains_key(b) && r2[a].status == SessionStatus::Active
            && r2[b].status == SessionStatus::Active implies a == b by {
        if a != s.id {
            assert(r1.contains_key(a));
        }
        if b != s.id {
            assert(r1.contains_key(b));
        }
    }
}

/// Complete a session. A session that has already ended is returned as it
/// is, with nothing to write.
pub fn plan_complete(found: Option<Session>, session_id: u128) -> (r: Result<(Session, Option<SessionEvent>), SessionError>)
    ensures
        match found {
            None => r matches Err(e) && e == SessionError::NotFound { session_id },
            Some(s) => if s.status.has_ended() {
                r matches Ok((u, None)) && u == s
            } else {
                r matches Ok((c, Some(e))) && touched(Session { status: SessionStatus::Completed, ..s }, c)
                    && event_is(e, session_id, SessionEventType::Completed, None)
            },
        },
{
    let mut session = match require_found(found, session_id) {
        Ok(s) => s,
        Err(e) => return Err(e),
    };
    if session.status.has_ended() {
        return Ok((session, None));
    }
    session.complete();
    Ok((session, Some(SessionEvent::completed(session_id))))
}

/// Abandon a session. A session that has already ended is returned as it
/// is, with nothing to write.
pub fn plan_abandon(found: Option<Session>, session_id: u128) -> (r: Result<(Session, Option<SessionEvent>), SessionError>)
    ensures
        match found {
            None => r matches Err(e) && e == SessionError::NotFound { session_id },
            Some(s) => if s.status.has_ended() {
                r matches Ok((u, None)) && u == s
            } else {
                r matches Ok((c, Some(e))) && touched(Session { status: SessionStatus::Abandoned, ..s }, c)
                    && event_is(e, session_id, SessionEventType::Abandoned, None)
            },
        },
{
    let mut session = match require_found(found, session_id) {
        Ok(s) => s,
        Err(e) => return Err(e),
    };
    if session.status.has_ended() {
        return Ok((session, None));
    }
    session.abandon();
    Ok((session, Some(SessionEvent::abandoned(session_id))))
}

// ---------------------------------------------------------------------------
// Context switching

/// Switch the current project; the current feature is cleared. An ended
/// session is refused.
pub fn plan_switch_project(found: Option<Session>, session_id: u128, project_id: Option<u128>) -> (r: Result<(Session, SessionEvent), SessionError>)
    ensures
        match found {
            None => r matches Err(e) && e == SessionError::NotFound { session_id },
            Some(s) => if s.status.has_ended() {
                r matches Err(e) && is_refusal(e, RefusedAction::SwitchProject, s.status)
            } else {
                r matches Ok((n, e)) && touched(
                    Session { current_project_id: project_id, current_feature_id: None, ..s },
                    n,
                ) && event_is(
                    e,
                    session_id,
                    SessionEventType::ProjectSwitched,
                    Some(EventData::ProjectSwitched { old_project_id: s.current_project_id, new_project_id: project_id }),
                )
            },
        },
{
    let mut session = match require_found(found, session_id) {
        Ok(s) => s,
        Err(e) => return Err(e),
    };
    if session.status.has_ended() {
        return Err(refusal(RefusedAction::SwitchProject, session.status));
    }
    let old_project_id = session.current_project_id;
    session.set_project(project_id);
    session.set_feature(None);
    Ok((session, SessionEvent::project_switched(session_id, old_project_id, project_id)))
}

/// Switch the current feature. An ended session is refused.
pub fn plan_switch_feature(found: Option<Session>, session_id: u128, feature_id: Option<u128>) -> (r: Result<(Session, SessionEvent), SessionError>)
    ensures
        match found {
            None => r matches Err(e) && e == SessionError::NotFound { session_id },
            Some(s) => if s.status.has_ended() {
                r matches Err(e) && is_refusal(e, RefusedAction::SwitchFeature, s.status)
            } else {
                r matches Ok((n, e)) && touched(Session { current_feature_id: feature_id, ..s }, n)
                    && event_is(
                    e,
                    session_id,
                    SessionEventType::FeatureSwitched,
                    Some(EventData::FeatureSwitched { old_feature_id: s.current_feature_id, new_feature_id: feature_id }),
                )
            },
        },
{
    let mut session = match require_found(found, session_id) {
        Ok(s) => s,
        Err(e) => return Err(e),
    };
    if session.status.has_ended() {
        return Err(refusal(RefusedAction::SwitchFeature, session.status));
    }
    let old_feature_id = session.current_feature_id;
    session.set_feature(feature_id);
    Ok((session, SessionEvent::feature_switched(session_id, old_feature_id, feature_id)))
}

/// Change the phase. An ended session is refused.
pub fn plan_set_phase(found: Option<Session>, session_id: u128, phase: SessionPhase) -> (r: Result<(Session, SessionEvent), SessionError>)
    ensures
        match found {
            None => r matches Err(e) && e == SessionError::NotFound { session_id },
            Some(s) => if s.status.has_ended() {
                r matches Err(e) && is_refusal(e, RefusedAction::SetPhase, s.status)
            } else {
                r matches Ok((n, e)) && touched(Session { phase: phase, ..s }, n)
                    && e.session_id == session_id
                    && e.event_type == SessionEventType::PhaseChanged
                    && (e.data matches Some(EventData::PhaseChanged { old_phase: o, new_phase: np })
                    && o@ == phase_text(s.phase) && np@ == phase_text(phase))
            },
        },
{
    let mut session = match require_found(found, session_id) {
        Ok(s) => s,
        Err(e) => return Err(e),
    };
    if session.status.has_ended() {
        return Err(refusal(RefusedAction::SetPhase, session.status));
    }
    let old_phase = session.phase;
    session.set_phase(phase);
    Ok((session, SessionEvent::phase_changed(session_id, old_phase.as_str(), phase.as_str())))
}

/// Record a checkpoint in a session.
pub fn plan_record_checkpoint(found: Option<Session>, session_id: u128, checkpoint_id: u128) -> (r: Result<(Session, SessionEvent), SessionError>)
    ensures
        match found {
            None => r matches Err(e) && e == SessionError::NotFound { session_id },
            Some(s) => r matches Ok((n, e)) && touched(Session { last_checkpoint_id: Some(checkpoint_id), ..s }, n)
                && event_is(
                e,
                session_id,
                SessionEventType::CheckpointCreated,
                Some(EventData::CheckpointCreated { checkpoint_id }),
            ),
        },
{
    let mut session = match require_found(found, session_id) {
        Ok(s) => s,
        Err(e) => return Err(e),
    };
    session.set_checkpoint(checkpoint_id);
    Ok((session, SessionEvent::checkpoint_created(session_id, checkpoint_id)))
}

/// Touch a session to update its last activity.
pub fn plan_touch(found: Option<Session>, session_id: u128) -> (r: Result<Session, SessionError>)
    ensures
        match found {
            None => r matches Err(e) && e == SessionError::NotFound { session_id },
            Some(s) => r matches Ok(n) && touched(s, n),
        },
{
    let mut session = match require_found(found, session_id) {
        Ok(s) => s,
        Err(e) => return Err(e),
    };
    session.touch();
    Ok(session)
}

// ---------------------------------------------------------------------------
// Statistics and cleanup

/// Session statistics.
#[derive(Debug, Clone)]
pub struct SessionStats {
    /// Number of active sessions
    pub active: i64,
    /// Number of paused sessions
    pub paused: i64,
    /// Number of completed sessions
    pub completed: i64,
    /// Number of abandoned sessions
    pub abandoned: i64,
    /// Total number of sessions
    pub total: i64,
}

impl SessionStats {
    /// Statistics from the count of sessions in each status.
    pub fn from_counts(active: i64, paused: i64, completed: i64, abandoned: i64) -> (r: SessionStats)
        requires
            i64::MIN <= active + paused + completed + abandoned <= i64::MAX,
            i64::MIN <= active + paused <= i64::MAX,
            i64::MIN <= active + paused + completed <= i64::MAX,
        ensures
            r.active == active,
            r.paused == paused,
            r.completed == completed,
            r.abandoned == abandoned,
            r.total == active + paused + completed + abandoned,
    {
        SessionStats { active, paused, completed, abandoned, total: active + paused + completed + abandoned }
    }
}

/// Summary of cleanup operations.
#[derive(Debug, Clone)]
pub struct CleanupSummary {
    /// Number of sessions deleted
    pub sessions_deleted: u64,
    /// Number of events deleted
    pub events_deleted: u64,
    /// Age threshold for sessions (in days)
    pub session_days: i64,
    /// Age threshold for events (in days)
    pub event_days: i64,
}

/// The human-readable summary of a cleanup.
pub open spec fn cleanup_summary_text(c: CleanupSummary) -> Seq<char> {
    if !(c.sessions_deleted > 0 || c.events_deleted > 0) {
        "No cleanup needed"@
    } else {
        "Cleaned up "@ + decimal_text(c.sessions_deleted as nat) + " sessions (>"@
            + signed_decimal_text(c.session_days as int) + " days old) and "@
            + decimal_text(c.events_deleted as nat) + " events (>"@
            + signed_decimal_text(c.event_days as int) + " days old)"@
    }
}

impl CleanupSummary {
    /// The summary of a full cleanup; events default to the session threshold.
    pub fn new(sessions_deleted: u64, events_deleted: u64, session_days: i64, event_days: Option<i64>) -> (r: CleanupSummary)
        ensures
            r.sessions_deleted == sessions_deleted,
            r.events_deleted == events_deleted,
            r.session_days == session_days,
            r.event_days == (match event_days {
                Some(d) => d,
                None => session_days,
            }),
    {
        let event_days = match event_days {
            Some(d) => d,
            None => session_days,
        };
        CleanupSummary { sessions_deleted, events_deleted, session_days, event_days }
    }

    /// Check if any cleanup was performed.
    pub fn had_cleanup(&self) -> (r: bool)
        ensures
            r == (self.sessions_deleted > 0 || self.events_deleted > 0),
    {
        self.sessions_deleted > 0 || self.events_deleted > 0
    }

    /// Get a human-readable summary.
    pub fn summary(&self) -> (r: String)
        ensures
            r@ == cleanup_summary_text(*self),
    {
        let mut s = String::new();
        if !self.had_cleanup() {
            push_str(&mut s, "No cleanup needed");
        } else {
            push_str(&mut s, "Cleaned up ");
            push_decimal(&mut s, self.sessions_deleted as u128);
            push_str(&mut s, " sessions (>");
            push_signed_decimal(&mut s, self.session_days as i128);
            push_str(&mut s, " days old) and ");
            push_decimal(&mut s, self.events_deleted as u128);
            push_str(&mut s, " events (>");
            push_signed_decimal(&mut s, self.event_days as i128);
            push_str(&mut s, " days old)");
        }
        assert(s@ =~= cleanup_summary_text(*self));
        s
    }
}

} // verus!

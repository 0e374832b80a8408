use demiarch_core::session::entity::{RecoveryInfo, RecoveryResult, Session, SessionInfo};
use demiarch_core::session::event::{EventData, SessionEvent};
use demiarch_core::session::manager::{
    check_recoverable, decide_get_or_create, plan_abandon, plan_complete, plan_create, plan_pause, plan_record_checkpoint,
    plan_recover, plan_resume, plan_set_phase, plan_switch_feature, plan_switch_project, plan_touch, CleanupSummary,
    GetOrCreate, SessionError, SessionStats,
};
use demiarch_core::session::rows::{SessionEventRow, SessionInfoRow, SessionRow};
use demiarch_core::session::shutdown::{
    session_to_pause, should_release_lock, ShutdownConfig, ShutdownResult,
};
use demiarch_core::session::status::{SessionEventType, SessionPhase, SessionStatus};

fn id_to_string(id: u128) -> String {
    uuid::Uuid::from_u128(id).to_string()
}

fn new_id() -> u128 {
    uuid::Uuid::new_v4().as_u128()
}

#[test]
fn test_event_type_from_str() {
    assert_eq!(SessionEventType::from_str("started"), Some(SessionEventType::Started));
    assert_eq!(SessionEventType::from_str("PAUSED"), Some(SessionEventType::Paused));
    assert_eq!(SessionEventType::from_str("project_switched"), Some(SessionEventType::ProjectSwitched));
    assert_eq!(SessionEventType::from_str("invalid"), None);
}

#[test]
fn test_event_creation() {
    let session_id = new_id();
    let event = SessionEvent::started(session_id);

    assert_eq!(event.session_id, session_id);
    assert_eq!(event.event_type, SessionEventType::Started);
    assert!(event.data.is_none());
}

#[test]
fn test_project_switched_event() {
    let session_id = new_id();
    let old_project = new_id();
    let new_project = new_id();

    let event = SessionEvent::project_switched(session_id, Some(old_project), Some(new_project));

    assert_eq!(event.event_type, SessionEventType::ProjectSwitched);
    assert!(event.data.is_some());

    match event.data.unwrap() {
        EventData::ProjectSwitched { old_project_id, new_project_id } => {
            assert_eq!(old_project_id, Some(old_project));
            assert_eq!(new_project_id, Some(new_project));
        }
        other => panic!("unexpected data {:?}", other),
    }
}

#[test]
fn test_error_event() {
    let session_id = new_id();
    let event = SessionEvent::error(session_id, "Something went wrong", Some("E001"));

    assert_eq!(event.event_type, SessionEventType::Error);
    match event.data.unwrap() {
        EventData::Error { message, code } => {
            assert_eq!(message, "Something went wrong");
            assert_eq!(code, Some("E001".to_string()));
        }
        other => panic!("unexpected data {:?}", other),
    }
}

#[test]
fn test_session_status_from_str() {
    assert_eq!(SessionStatus::from_str("active"), Some(SessionStatus::Active));
    assert_eq!(SessionStatus::from_str("PAUSED"), Some(SessionStatus::Paused));
    assert_eq!(SessionStatus::from_str("Completed"), Some(SessionStatus::Completed));
    assert_eq!(SessionStatus::from_str("abandoned"), Some(SessionStatus::Abandoned));
    assert_eq!(SessionStatus::from_str("invalid"), None);
}

#[test]
fn test_session_status_is_ongoing() {
    assert!(SessionStatus::Active.is_ongoing());
    assert!(SessionStatus::Paused.is_ongoing());
    assert!(!SessionStatus::Completed.is_ongoing());
    assert!(!SessionStatus::Abandoned.is_ongoing());
}

#[test]
fn test_session_phase_from_str() {
    assert_eq!(SessionPhase::from_str("discovery"), Some(SessionPhase::Discovery));
    assert_eq!(SessionPhase::from_str("BUILDING"), Some(SessionPhase::Building));
    assert_eq!(SessionPhase::from_str("invalid"), None);
}

#[test]
fn test_session_creation() {
    let project_id = new_id();
    let session = Session::new(Some(project_id), None, Some("Test session".to_string()));

    assert!(session.is_active());
    assert_eq!(session.current_project_id, Some(project_id));
    assert_eq!(session.phase, SessionPhase::Unknown);
    assert_eq!(session.description, Some("Test session".to_string()));
}

#[test]
fn test_session_lifecycle() {
    let mut session = Session::new(None, None, None);

    assert!(session.is_active());

    session.pause();
    assert!(session.is_paused());
    assert!(session.status.is_ongoing());

    session.resume();
    assert!(session.is_active());

    session.complete();
    assert!(session.status.has_ended());
    assert_eq!(session.status, SessionStatus::Completed);
}

#[test]
fn test_session_project_switching() {
    let project1 = new_id();
    let project2 = new_id();
    let mut session = Session::new(Some(project1), None, None);

    assert_eq!(session.current_project_id, Some(project1));

    session.set_project(Some(project2));
    assert_eq!(session.current_project_id, Some(project2));

    session.set_project(None);
    assert_eq!(session.current_project_id, None);
}

#[test]
fn test_session_info_from_session() {
    let session = Session::new(None, None, Some("Test".to_string()));
    let info = SessionInfo::from_session(&session);

    assert_eq!(info.id, session.id);
    assert_eq!(info.status, session.status);
    assert_eq!(info.description, session.description);
}

#[test]
fn test_recovery_info_unclean_shutdown() {
    let session = Session::new(None, None, Some("Test".to_string()));
    let info = RecoveryInfo::new(session, SessionStatus::Active);

    assert!(info.was_unclean_shutdown);
    assert_eq!(info.previous_status, SessionStatus::Active);
    assert!(!info.has_checkpoint);
}

#[test]
fn test_recovery_info_clean_shutdown() {
    let mut session = Session::new(None, None, None);
    session.pause();
    let info = RecoveryInfo::new(session, SessionStatus::Paused);

    assert!(!info.was_unclean_shutdown);
    assert_eq!(info.previous_status, SessionStatus::Paused);
}

#[test]
fn test_recovery_info_with_checkpoint() {
    let mut session = Session::new(None, None, None);
    let checkpoint_id = new_id();
    session.set_checkpoint(checkpoint_id);

    let info = RecoveryInfo::new(session, SessionStatus::Paused);

    assert!(info.has_checkpoint);
    assert_eq!(info.session.last_checkpoint_id, Some(checkpoint_id));
}

#[test]
fn test_recovery_info_summary_unclean() {
    let session = Session::new(None, None, None);
    let info = RecoveryInfo::new(session, SessionStatus::Active);

    let summary = info.summary();
    assert!(summary.contains("unclean shutdown"));
    assert!(summary.contains(&id_to_string(info.session.id)));
}

#[test]
fn test_recovery_info_summary_clean() {
    let session = Session::new(None, None, None);
    let info = RecoveryInfo::new(session, SessionStatus::Paused);

    let summary = info.summary();
    assert!(summary.contains("clean shutdown"));
}

#[test]
fn test_recovery_result_variants() {
    let session = Session::new(None, None, None);
    let info = RecoveryInfo::new(session.duplicate(), SessionStatus::Paused);

    let _recovered = RecoveryResult::Recovered(info);
    let _none = RecoveryResult::NoneToRecover;
    let _created = RecoveryResult::CreatedNew(session);
}

#[test]
fn test_shutdown_config_builder() {
    let config = ShutdownConfig::default()
        .enable_cleanup(60, 90)
        .timeout(std::time::Duration::from_secs(10))
        .force_locks();

    assert!(config.run_cleanup);
    assert_eq!(config.cleanup_session_days, 60);
    assert_eq!(config.cleanup_event_days, 90);
    assert_eq!(config.shutdown_timeout, std::time::Duration::from_secs(10));
    assert!(config.force_release_locks);
}

#[test]
fn test_shutdown_result_summary() {
    let mut result = ShutdownResult::new();
    assert_eq!(result.summary(), "Shutdown completed (no actions needed)");

    result.session_paused = true;
    result.session_id = Some(new_id());
    result.locks_released = 3;
    result.database_closed = true;

    let summary = result.summary();
    assert!(summary.contains("Session"));
    assert!(summary.contains("paused"));
    assert!(summary.contains("3 locks released"));
    assert!(summary.contains("Database closed"));
}

#[test]
fn shutdown_summary_joins_parts_in_order() {
    let mut result = ShutdownResult::new();
    result.session_paused = true;
    result.sessions_cleaned = 2;
    result.events_cleaned = 5;
    assert_eq!(result.summary(), "Session paused; Cleaned 2 sessions, 5 events");
}

#[test]
fn quick_shutdown_config_skips_cleanup() {
    let config = ShutdownConfig::quick();
    assert!(!config.run_cleanup);
    assert!(config.pause_session);
}

#[test]
fn session_stats_total_is_the_sum() {
    let stats = SessionStats::from_counts(1, 2, 3, 4);
    assert_eq!(stats.total, 10);
    assert_eq!(stats.paused, 2);
}

#[test]
fn cleanup_summary_reports_counts() {
    let none = CleanupSummary::new(0, 0, 30, None);
    assert!(!none.had_cleanup());
    let some = CleanupSummary::new(2, 7, 30, Some(60));
    assert!(some.had_cleanup());
    assert_eq!(some.event_days, 60);
    assert!(some.summary().contains('2'));
}

#[test]
fn creating_a_session_pauses_the_active_one() {
    let active = Session::new(None, None, Some("First".to_string()));
    let active_id = active.id;
    let plan = plan_create(Some(active), None, None, Some("Second".to_string()));
    let (paused, event) = plan.paused.expect("the active session is paused");
    assert_eq!(paused.id, active_id);
    assert_eq!(paused.status, SessionStatus::Paused);
    assert_eq!(event.event_type, SessionEventType::Paused);
    assert!(plan.session.is_active());
    assert_eq!(plan.started.event_type, SessionEventType::Started);
}

#[test]
fn get_or_create_prefers_the_active_session() {
    let active = Session::new(None, None, None);
    let id = active.id;
    match decide_get_or_create(Some(active), None) {
        GetOrCreate::UseActive(s) => assert_eq!(s.id, id),
        other => panic!("unexpected {:?}", other),
    }
}

#[test]
fn pausing_an_ended_session_is_refused() {
    let mut session = Session::new(None, None, None);
    session.abandon();
    let id = session.id;
    assert!(plan_pause(Some(session), id).is_err());
    assert!(plan_pause(None, id).is_err());
    let mut paused = Session::new(None, None, None);
    paused.pause();
    let pid = paused.id;
    assert!(plan_pause(Some(paused), pid).is_ok());
}

#[test]
fn resuming_pauses_the_other_active_session() {
    let mut paused = Session::new(None, None, None);
    paused.pause();
    let paused_id = paused.id;
    let other = Session::new(None, None, None);
    let other_id = other.id;
    let plan = plan_resume(Some(paused), Some(other), paused_id).expect("resumable");
    assert!(plan.session.is_active());
    let (p, _) = plan.paused_other.expect("other paused");
    assert_eq!(p.id, other_id);
    assert!(p.is_paused());
}

#[test]
fn completing_an_ended_session_writes_nothing() {
    let mut session = Session::new(None, None, None);
    session.complete();
    let id = session.id;
    let (s, event) = plan_complete(Some(session), id).expect("an ended session is returned");
    assert_eq!(s.status, SessionStatus::Completed);
    assert!(event.is_none());
    assert!(plan_complete(None, id).is_err());
}

fn invalid_message(e: SessionError) -> String {
    match e {
        SessionError::InvalidInput { message } => message,
        other => panic!("unexpected error {:?}", other),
    }
}

#[test]
fn plan_abandon_ends_ongoing_and_keeps_ended() {
    let s = Session::new(None, None, None);
    let id = s.id;
    let (abandoned, event) = plan_abandon(Some(s), id).unwrap();
    assert_eq!(abandoned.status, SessionStatus::Abandoned);
    assert_eq!(event.unwrap().event_type, SessionEventType::Abandoned);

    let (again, none) = plan_abandon(Some(abandoned), id).unwrap();
    assert_eq!(again.status, SessionStatus::Abandoned);
    assert!(none.is_none());
    assert!(matches!(plan_abandon(None, id), Err(SessionError::NotFound { session_id }) if session_id == id));
}

#[test]
fn plan_switch_project_clears_feature() {
    let (p1, f1, p2) = (new_id(), new_id(), new_id());
    let s = Session::new(Some(p1), Some(f1), None);
    let id = s.id;
    let (switched, event) = plan_switch_project(Some(s), id, Some(p2)).unwrap();
    assert_eq!(switched.current_project_id, Some(p2));
    assert_eq!(switched.current_feature_id, None);
    match event.data.unwrap() {
        EventData::ProjectSwitched { old_project_id, new_project_id } => {
            assert_eq!(old_project_id, Some(p1));
            assert_eq!(new_project_id, Some(p2));
        }
        other => panic!("unexpected data {:?}", other),
    }

    let mut done = Session::new(None, None, None);
    done.complete();
    let done_id = done.id;
    let err = plan_switch_project(Some(done), done_id, None).unwrap_err();
    assert_eq!(invalid_message(err), "Cannot switch project in session with status: completed");
}

#[test]
fn plan_switch_feature_and_phase() {
    let (f1, f2) = (new_id(), new_id());
    let s = Session::new(None, Some(f1), None);
    let id = s.id;
    let (switched, event) = plan_switch_feature(Some(s), id, Some(f2)).unwrap();
    assert_eq!(switched.current_feature_id, Some(f2));
    assert_eq!(event.event_type, SessionEventType::FeatureSwitched);

    let (phased, event) = plan_set_phase(Some(switched), id, SessionPhase::Building).unwrap();
    assert_eq!(phased.phase, SessionPhase::Building);
    match event.data.unwrap() {
        EventData::PhaseChanged { old_phase, new_phase } => {
            assert_eq!(old_phase, "unknown");
            assert_eq!(new_phase, "building");
        }
        other => panic!("unexpected data {:?}", other),
    }

    let mut gone = Session::new(None, None, None);
    gone.abandon();
    let gone_id = gone.id;
    let err = plan_set_phase(Some(gone.clone()), gone_id, SessionPhase::Planning).unwrap_err();
    assert_eq!(invalid_message(err), "Cannot update phase in session with status: abandoned");
    let err = plan_switch_feature(Some(gone), gone_id, None).unwrap_err();
    assert_eq!(invalid_message(err), "Cannot switch feature in session with status: abandoned");
}

#[test]
fn plan_checkpoint_and_touch() {
    let s = Session::new(None, None, None);
    let id = s.id;
    let checkpoint = new_id();
    let (marked, event) = plan_record_checkpoint(Some(s), id, checkpoint).unwrap();
    assert_eq!(marked.last_checkpoint_id, Some(checkpoint));
    assert_eq!(event.event_type, SessionEventType::CheckpointCreated);
    let touched = plan_touch(Some(marked.clone()), id).unwrap();
    assert!(touched.last_activity >= marked.last_activity);
    assert!(plan_touch(None, id).is_err());
    assert!(plan_record_checkpoint(None, id, checkpoint).is_err());
}

#[test]
fn plan_recover_resumes_and_reports_unclean_shutdown() {
    assert!(plan_recover(None).is_none());
    let s = Session::new(None, None, None);
    let id = s.id;
    let plan = plan_recover(Some(s)).unwrap();
    assert_eq!(plan.session.status, SessionStatus::Active);
    assert_eq!(plan.event.session_id, id);
    assert_eq!(plan.event.event_type, SessionEventType::Recovered);
    match plan.event.data.unwrap() {
        EventData::Recovered { previous_status, was_unclean_shutdown } => {
            assert_eq!(previous_status, "active");
            assert!(was_unclean_shutdown);
        }
        other => panic!("unexpected data {:?}", other),
    }
    assert!(plan.info.was_unclean_shutdown);

    let mut paused = Session::new(None, None, None);
    paused.pause();
    let plan = plan_recover(Some(paused.clone())).unwrap();
    assert_eq!(plan.session.status, SessionStatus::Active);
    assert!(!plan.info.was_unclean_shutdown);

    let info = check_recoverable(Some(paused)).unwrap();
    assert_eq!(info.previous_status, SessionStatus::Paused);
    assert!(!info.was_idle_longer_than(i128::MAX));
    assert!(check_recoverable(None).is_none());
}

#[test]
fn shutdown_decisions_and_records() {
    let config = ShutdownConfig::default();
    assert!(should_release_lock(&config, true));
    assert!(!should_release_lock(&config, false));
    assert!(should_release_lock(&config.force_locks(), false));

    let active = Session::new(None, None, None);
    let id = active.id;
    assert_eq!(session_to_pause(&Some(active)), Some(id));
    let mut paused = Session::new(None, None, None);
    paused.pause();
    assert_eq!(session_to_pause(&Some(paused)), None);
    assert_eq!(session_to_pause(&None), None);

    let mut result = ShutdownResult::new();
    result.record_pause(Err("db locked".to_string()));
    result.record_lock_release(Ok(2));
    result.record_cleanup(Err("disk full".to_string()));
    result.record_quick_pause(Ok(None));
    result.record_ended_session(None);
    result.mark_database_closed();
    assert!(result.has_warnings());
    assert_eq!(result.warnings, vec!["Failed to pause session: db locked", "Cleanup failed: disk full"]);
    assert_eq!(result.summary(), "2 locks released; Database closed");

    let mut ok = ShutdownResult::new();
    ok.record_pause(Ok(Some(id)));
    ok.record_cleanup(Ok((3, 7)));
    ok.record_lock_release(Err("busy".to_string()));
    assert_eq!(ok.session_id, Some(id));
    assert_eq!(ok.summary(), format!("Session {} paused; Cleaned 3 sessions, 7 events", id_to_string(id)));
    assert_eq!(ok.warnings, vec!["Failed to release locks: busy"]);
}

#[test]
fn session_rows_convert_or_name_the_bad_field() {
    let id = new_id();
    let row = SessionRow {
        id: id_to_string(id),
        created_at: 1,
        updated_at: 2,
        last_activity: 3,
        current_project_id: None,
        current_feature_id: None,
        status: "Paused".to_string(),
        phase: "planning".to_string(),
        description: Some("work".to_string()),
        last_checkpoint_id: None,
        metadata: Some("{\"k\": 1}".to_string()),
    };
    let session = row.clone().into_session().unwrap();
    assert_eq!(session.id, id);
    assert_eq!(session.status, SessionStatus::Paused);
    assert_eq!(session.phase, SessionPhase::Planning);
    assert_eq!(session.last_activity, 3);

    let bad_status = SessionRow { status: "sleeping".to_string(), ..row.clone() };
    assert_eq!(bad_status.into_session().unwrap_err(), "Invalid session status: sleeping");
    let bad_phase = SessionRow { phase: "nap".to_string(), ..row.clone() };
    assert_eq!(bad_phase.into_session().unwrap_err(), "Invalid session phase: nap");
    let bad_json = SessionRow { metadata: Some("{".to_string()), ..row.clone() };
    assert!(bad_json.into_session().unwrap_err().starts_with("Invalid metadata JSON: "));
    let bad_id = SessionRow { id: "nope".to_string(), ..row.clone() };
    assert!(bad_id.into_session().unwrap_err().starts_with("Invalid session ID: "));

    let info_row = SessionInfoRow {
        id: id_to_string(id),
        status: "active".to_string(),
        phase: "review".to_string(),
        current_project_id: Some(id_to_string(id)),
        description: None,
        created_at: 5,
        last_activity: 6,
    };
    let info = info_row.into_session_info().unwrap();
    assert_eq!(info.status, SessionStatus::Active);
    assert_eq!(info.phase, SessionPhase::Review);
    assert_eq!(info.current_project_id, Some(id));
}

fn active_of(repo: &std::collections::HashMap<u128, Session>) -> Option<Session> {
    repo.values().find(|s| s.status == SessionStatus::Active).cloned()
}

fn count_active(repo: &std::collections::HashMap<u128, Session>) -> usize {
    repo.values().filter(|s| s.status == SessionStatus::Active).count()
}

#[test]
fn at_most_one_session_is_ever_active() {
    let mut repo: std::collections::HashMap<u128, Session> = std::collections::HashMap::new();
    let mut ids = Vec::new();
    for _ in 0..3 {
        let plan = plan_create(active_of(&repo), None, None, None);
        if let Some((paused, _)) = plan.paused {
            repo.insert(paused.id, paused);
        }
        ids.push(plan.session.id);
        repo.insert(plan.session.id, plan.session);
        assert_eq!(count_active(&repo), 1);
    }
    let first = ids[0];
    let plan = plan_resume(repo.get(&first).cloned(), active_of(&repo), first).unwrap();
    if let Some((paused, _)) = plan.paused_other {
        repo.insert(paused.id, paused);
    }
    repo.insert(plan.session.id, plan.session);
    assert_eq!(count_active(&repo), 1);
    assert!(repo[&first].is_active());

    let (paused, _) = plan_pause(repo.get(&first).cloned(), first).unwrap();
    repo.insert(paused.id, paused);
    assert_eq!(count_active(&repo), 0);
    match decide_get_or_create(active_of(&repo), repo.get(&ids[2]).cloned()) {
        GetOrCreate::ResumeOngoing(s, _) => {
            repo.insert(s.id, s);
        }
        other => panic!("unexpected {:?}", other),
    }
    assert_eq!(count_active(&repo), 1);
}

#[test]
fn default_shutdown_waits_thirty_seconds() {
    let config = ShutdownConfig::default();
    assert_eq!(config.shutdown_timeout, std::time::Duration::from_secs(30));
    assert!(config.pause_session && !config.run_cleanup);
    assert_eq!(ShutdownConfig::quick().shutdown_timeout, std::time::Duration::from_secs(5));
}

#[test]
fn stored_session_reads_back_the_same() {
    let (project, feature, checkpoint) = (new_id(), new_id(), new_id());
    let mut s = Session::new(Some(project), Some(feature), Some("work".to_string()));
    s.set_phase(SessionPhase::Testing);
    s.set_checkpoint(checkpoint);
    s.pause();
    s.metadata = Some("{\"k\": [1, 2]}".to_string());
    let row = SessionRow::from_session(s.clone());
    assert_eq!(row.id, id_to_string(s.id));
    assert_eq!(row.status, "paused");
    assert_eq!(row.phase, "testing");
    assert_eq!(row.current_project_id, Some(id_to_string(project)));
    let back = row.into_session().unwrap();
    assert_eq!(back.id, s.id);
    assert_eq!(back.status, SessionStatus::Paused);
    assert_eq!(back.phase, SessionPhase::Testing);
    assert_eq!(back.current_project_id, Some(project));
    assert_eq!(back.current_feature_id, Some(feature));
    assert_eq!(back.last_checkpoint_id, Some(checkpoint));
    assert_eq!(back.description, s.description);
    assert_eq!(back.metadata, s.metadata);
    assert_eq!((back.created_at, back.updated_at, back.last_activity), (s.created_at, s.updated_at, s.last_activity));
}

#[test]
fn stored_event_reads_back_the_same() {
    let session_id = new_id();
    let event = SessionEvent::phase_changed(session_id, "planning", "building");
    let row = SessionEventRow::from_event(event.clone());
    assert_eq!(row.event_type, "phase_changed");
    assert_eq!(row.session_id, id_to_string(session_id));
    let back = row.into_event().unwrap();
    assert_eq!(back.id, event.id);
    assert_eq!(back.session_id, session_id);
    assert_eq!(back.event_type, SessionEventType::PhaseChanged);
    assert_eq!(back.created_at, event.created_at);
    match back.data.unwrap() {
        EventData::PhaseChanged { old_phase, new_phase } => {
            assert_eq!((old_phase.as_str(), new_phase.as_str()), ("planning", "building"));
        }
        other => panic!("unexpected data {:?}", other),
    }
}

#[test]
fn displayed_text_is_the_str_form() {
    for s in [SessionStatus::Active, SessionStatus::Paused, SessionStatus::Completed, SessionStatus::Abandoned] {
        assert_eq!(s.to_string(), s.as_str());
        assert_eq!(SessionStatus::from_str(&s.to_string()), Some(s));
    }
    assert_eq!(SessionStatus::Abandoned.to_string(), "abandoned");
    for p in [
        SessionPhase::Discovery,
        SessionPhase::Planning,
        SessionPhase::Building,
        SessionPhase::Testing,
        SessionPhase::Review,
        SessionPhase::Unknown,
    ] {
        assert_eq!(p.to_string(), p.as_str());
        assert_eq!(SessionPhase::from_str(&p.to_string()), Some(p));
    }
    assert_eq!(SessionPhase::default().to_string(), "unknown");
    for t in [
        SessionEventType::Started,
        SessionEventType::Paused,
        SessionEventType::Resumed,
        SessionEventType::Completed,
        SessionEventType::Abandoned,
        SessionEventType::Recovered,
        SessionEventType::ProjectSwitched,
        SessionEventType::FeatureSwitched,
        SessionEventType::PhaseChanged,
        SessionEventType::CheckpointCreated,
        SessionEventType::Error,
        SessionEventType::Custom,
    ] {
        assert_eq!(t.to_string(), t.as_str());
        assert_eq!(SessionEventType::from_str(&t.to_string().to_uppercase()), Some(t));
    }
    assert_eq!(SessionEventType::CheckpointCreated.to_string(), "checkpoint_created");
}

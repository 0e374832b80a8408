//! Graceful shutdown: the configuration of a shutdown and the record of
//! what it did.
//!
//! A shutdown pauses the active session, releases the locks this process
//! holds, optionally cleans up old data and closes the database. Each step
//! may fail without failing the shutdown: its failure becomes a warning. The
//! steps themselves are outside work; here are the decisions and the record.

use vstd::prelude::*;
use crate::ids::{id_to_string, uuid_text};
use crate::session::entity::Session;
use crate::session::status::SessionStatus;
use crate::text::{decimal_text, join, join_with, push_decimal, push_str, views};

verus! {

/// What `std::time::Duration::from_secs` gives for a number of seconds.
pub uninterp spec fn duration_of_secs(secs: u64) -> std::time::Duration;

/// Calls `std::time::Duration::from_secs`.
/// The contract claims only that the duration is a function of the seconds (`duration_of_secs`).
#[verifier::external_body]
pub(crate) fn duration_from_secs(secs: u64) -> (r: std::time::Duration)
    ensures
        r == duration_of_secs(secs),
{
    std::time::Duration::from_secs(secs)
}

/// Gives `Clone` of `std::time::Duration` a contract: a duration is `Copy`,
/// so its clone is the same value.
pub assume_specification[ <std::time::Duration as Clone>::clone ](d: &std::time::Duration) -> (r: std::time::Duration)
    ensures
        r == *d,
;

/// Configuration for shutdown behavior.
#[derive(Debug, Clone)]
pub struct ShutdownConfig {
    /// Whether to pause the active session (default: true)
    pub pause_session: bool,
    /// Whether to run cleanup operations during shutdown (default: false)
    pub run_cleanup: bool,
    /// Days threshold for session cleanup (only used if run_cleanup is true)
    pub cleanup_session_days: i64,
    /// Days threshold for event cleanup (only used if run_cleanup is true)
    pub cleanup_event_days: i64,
    /// Maximum time to wait for shutdown operations (default: 30 seconds)
    pub shutdown_timeout: std::time::Duration,
    /// Whether to force-release locks even if not owned by this process
    pub force_release_locks: bool,
}

/// The default configuration: pause the session, no cleanup, 30 days, 30 seconds.
pub open spec fn default_shutdown_config() -> ShutdownConfig {
    ShutdownConfig {
        pause_session: true,
        run_cleanup: false,
        cleanup_session_days: 30,
        cleanup_event_days: 30,
        shutdown_timeout: duration_of_secs(30),
        force_release_locks: false,
    }
}

impl Default for ShutdownConfig {
    /// The default configuration.
    fn default() -> (r: Self)
        ensures
            r == default_shutdown_config(),
    {
        ShutdownConfig {
            pause_session: true,
            run_cleanup: false,
            cleanup_session_days: 30,
            cleanup_event_days: 30,
            shutdown_timeout: duration_from_secs(30),
            force_release_locks: false,
        }
    }
}

impl ShutdownConfig {
    /// Create config that runs cleanup during shutdown.
    pub fn with_cleanup(session_days: i64, event_days: i64) -> (r: ShutdownConfig)
        ensures
            r == (ShutdownConfig {
                run_cleanup: true,
                cleanup_session_days: session_days,
                cleanup_event_days: event_days,
                ..default_shutdown_config()
            }),
    {
        let d = ShutdownConfig::default();
        ShutdownConfig {
            run_cleanup: true,
            cleanup_session_days: session_days,
            cleanup_event_days: event_days,
            ..d
        }
    }

    /// Create config for quick shutdown (no cleanup, minimal operations).
    pub fn quick() -> (r: ShutdownConfig)
        ensures
            r == (ShutdownConfig {
                pause_session: true,
                run_cleanup: false,
                shutdown_timeout: duration_of_secs(5),
                ..default_shutdown_config()
            }),
    {
        let d = ShutdownConfig::default();
        ShutdownConfig {
            pause_session: true,
            run_cleanup: false,
            shutdown_timeout: duration_from_secs(5),
            ..d
        }
    }

    /// Enable cleanup with the specified thresholds.
    pub fn enable_cleanup(self, session_days: i64, event_days: i64) -> (r: ShutdownConfig)
        ensures
            r == (ShutdownConfig {
                run_cleanup: true,
                cleanup_session_days: session_days,
                cleanup_event_days: event_days,
                ..self
            }),
    {
        ShutdownConfig {
            run_cleanup: true,
            cleanup_session_days: session_days,
            cleanup_event_days: event_days,
            ..self
        }
    }

    /// Set the shutdown timeout.
    pub fn timeout(self, timeout: std::time::Duration) -> (r: ShutdownConfig)
        ensures
            r == (ShutdownConfig { shutdown_timeout: timeout, ..self }),
    {
        ShutdownConfig { shutdown_timeout: timeout, ..self }
    }

    /// Enable force release of locks.
    pub fn force_locks(self) -> (r: ShutdownConfig)
        ensures
            r == (ShutdownConfig { force_release_locks: true, ..self }),
    {
        ShutdownConfig { force_release_locks: true, ..self }
    }
}

/// Whether a lock is released at shutdown: when this process holds it, or
/// when the configuration forces release.
pub fn should_release_lock(config: &ShutdownConfig, held_by_self: bool) -> (r: bool)
    ensures
        r == (held_by_self || config.force_release_locks),
{
    held_by_self || config.force_release_locks
}

/// The session that a shutdown pauses: the active session, if it is active.
pub fn session_to_pause(active: &Option<Session>) -> (r: Option<u128>)
    ensures
        r == (match *active {
            Some(s) => if s.status == SessionStatus::Active { Some(s.id) } else { None },
            None => None,
        }),
{
    match active {
        Some(s) => if s.status == SessionStatus::Active { Some(s.id) } else { None },
        None => None,
    }
}

/// Result of a shutdown operation.
#[derive(Debug, Clone)]
pub struct ShutdownResult {
    /// Whether the session was paused
    pub session_paused: bool,
    /// The session ID that was paused or ended (if any)
    pub session_id: Option<u128>,
    /// Number of locks released
    pub locks_released: u32,
    /// Number of sessions cleaned up (if cleanup was run)
    pub sessions_cleaned: u64,
    /// Number of events cleaned up (if cleanup was run)
    pub events_cleaned: u64,
    /// Whether the database was closed
    pub database_closed: bool,
    /// Any errors that occurred (non-fatal)
    pub warnings: Vec<String>,
}

/// The parts of a shutdown summary, in order.
pub open spec fn summary_parts(r: ShutdownResult) -> Seq<Seq<char>> {
    let p1: Seq<Seq<char>> = if r.session_paused {
        match r.session_id {
            Some(id) => seq!["Session "@ + uuid_text(id) + " paused"@],
            None => seq!["Session paused"@],
        }
    } else {
        seq![]
    };
    let p2: Seq<Seq<char>> = if r.locks_released > 0 {
        p1.push(decimal_text(r.locks_released as nat) + " locks released"@)
    } else {
        p1
    };
    let p3: Seq<Seq<char>> = if r.sessions_cleaned > 0 || r.events_cleaned > 0 {
        p2.push(
            "Cleaned "@ + decimal_text(r.sessions_cleaned as nat) + " sessions, "@ + decimal_text(
                r.events_cleaned as nat,
            ) + " events"@,
        )
    } else {
        p2
    };
    if r.database_closed {
        p3.push("Database closed"@)
    } else {
        p3
    }
}

/// The human-readable summary of a shutdown.
pub open spec fn shutdown_summary_text(r: ShutdownResult) -> Seq<char> {
    if summary_parts(r).len() == 0 {
        "Shutdown completed (no actions needed)"@
    } else {
        join_with(summary_parts(r), "; "@)
    }
}

/// The warning text of a failed step.
pub open spec fn warning_text(prefix: Seq<char>, error: Seq<char>) -> Seq<char> {
    prefix + error
}

impl ShutdownResult {
    /// Create a new empty result.
    pub fn new() -> (r: ShutdownResult)
        ensures
            !r.session_paused,
            r.session_id.is_none(),
            r.locks_released == 0,
            r.sessions_cleaned == 0,
            r.events_cleaned == 0,
            !r.database_closed,
            r.warnings@.len() == 0,
    {
        ShutdownResult {
            session_paused: false,
            session_id: None,
            locks_released: 0,
            sessions_cleaned: 0,
            events_cleaned: 0,
            database_closed: false,
            warnings: Vec::new(),
        }
    }

    /// Check if there were any warnings.
    pub fn has_warnings(&self) -> (r: bool)
        ensures
            r == (self.warnings@.len() > 0),
    {
        self.warnings.len() > 0
    }

    /// Record the outcome of pausing the active session during a graceful
    /// shutdown: a paused session is noted, a failure becomes a warning.
    pub fn record_pause(&mut self, outcome: Result<Option<u128>, String>)
        ensures
            match outcome {
                Ok(Some(id)) => *final(self) == (ShutdownResult {
                    session_paused: true,
                    session_id: Some(id),
                    ..*old(self)
                }),
                Ok(None) => *final(self) == *old(self),
                Err(e) => final(self).warnings@.len() == old(self).warnings@.len() + 1
                    && final(self).warnings@.last()@ == warning_text("Failed to pause session: "@, e@)
                    && final(self).warnings@.drop_last() == old(self).warnings@
                    && *final(self) == (ShutdownResult { warnings: final(self).warnings, ..*old(self) }),
            },
    {
        match outcome {
            Ok(Some(id)) => {
                self.session_paused = true;
                self.session_id = Some(id);
            },
            Ok(None) => {},
            Err(e) => {
                let mut w = String::new();
                push_str(&mut w, "Failed to pause session: ");
                push_str(&mut w, e.as_str());
                assert(w@ =~= warning_text("Failed to pause session: "@, e@));
                self.warnings.push(w);
                assert(self.warnings@.drop_last() =~= old(self).warnings@);
            },
        }
    }

    /// Record the outcome of a quick shutdown's pause: only a paused session
    /// is noted; a failure is ignored.
    pub fn record_quick_pause(&mut self, outcome: Result<Option<u128>, String>)
        ensures
            match outcome {
                Ok(Some(id)) => *final(self) == (ShutdownResult {
                    session_paused: true,
                    session_id: Some(id),
                    ..*old(self)
                }),
                _ => *final(self) == *old(self),
            },
    {
        if let Ok(Some(id)) = outcome {
            self.session_paused = true;
            self.session_id = Some(id);
        }
    }

    /// Record the session that was completed or abandoned when the session
    /// was ended at shutdown.
    pub fn record_ended_session(&mut self, session_id: Option<u128>)
        ensures
            *final(self) == (match session_id {
                Some(id) => ShutdownResult { session_id: Some(id), ..*old(self) },
                None => *old(self),
            }),
    {
        if let Some(id) = session_id {
            self.session_id = Some(id);
        }
    }

    /// Record the outcome of releasing locks: the count, or a warning.
    pub fn record_lock_release(&mut self, outcome: Result<u32, String>)
        ensures
            match outcome {
                Ok(count) => *final(self) == (ShutdownResult { locks_released: count, ..*old(self) }),
                Err(e) => final(self).warnings@.len() == old(self).warnings@.len() + 1
                    && final(self).warnings@.last()@ == warning_text("Failed to release locks: "@, e@)
                    && final(self).warnings@.drop_last() == old(self).warnings@
                    && *final(self) == (ShutdownResult { warnings: final(self).warnings, ..*old(self) }),
            },
    {
        match outcome {
            Ok(count) => {
                self.locks_released = count;
            },
            Err(e) => {
                let mut w = String::new();
                push_str(&mut w, "Failed to release locks: ");
                push_str(&mut w, e.as_str());
                assert(w@ =~= warning_text("Failed to release locks: "@, e@));
                self.warnings.push(w);
                assert(self.warnings@.drop_last() =~= old(self).warnings@);
            },
        }
    }

    /// Record the outcome of the cleanup: the counts, or a warning.
    pub fn record_cleanup(&mut self, outcome: Result<(u64, u64), String>)
        ensures
            match outcome {
                Ok((sessions, events)) => *final(self) == (ShutdownResult {
                    sessions_cleaned: sessions,
                    events_cleaned: events,
                    ..*old(self)
                }),
                Err(e) => final(self).warnings@.len() == old(self).warnings@.len() + 1
                    && final(self).warnings@.last()@ == warning_text("Cleanup failed: "@, e@)
                    && final(self).warnings@.drop_last() == old(self).warnings@
                    && *final(self) == (ShutdownResult { warnings: final(self).warnings, ..*old(self) }),
            },
    {
        match outcome {
            Ok((sessions, events)) => {
                self.sessions_cleaned = sessions;
                self.events_cleaned = events;
            },
            Err(e) => {
                let mut w = String::new();
                push_str(&mut w, "Cleanup failed: ");
                push_str(&mut w, e.as_str());
                assert(w@ =~= warning_text("Cleanup failed: "@, e@));
                self.warnings.push(w);
                assert(self.warnings@.drop_last() =~= old(self).warnings@);
            },
        }
    }

    /// Record that the database was closed.
    pub fn mark_database_closed(&mut self)
        ensures
            *final(self) == (ShutdownResult { database_closed: true, ..*old(self) }),
    {
        self.database_closed = true;
    }

    /// Get a human-readable summary.
    pub fn summary(&self) -> (r: String)
        ensures
            r@ == shutdown_summary_text(*self),
    {
        let mut parts: Vec<String> = Vec::new();
        if self.session_paused {
            let mut p = String::new();
            match self.session_id {
                Some(id) => {
                    push_str(&mut p, "Session ");
                    let t = id_to_string(id);
                    push_str(&mut p, t.as_str());
                    push_str(&mut p, " paused");
                },
                None => {
                    push_str(&mut p, "Session paused");
                },
            }
            parts.push(p);
        }
        let ghost p1 = views(parts@);
        if self.locks_released > 0 {
            let mut p = String::new();
            push_decimal(&mut p, self.locks_released as u128);
            push_str(&mut p, " locks released");
            parts.push(p);
        }
        let ghost p2 = views(parts@);
        if self.sessions_cleaned > 0 || self.events_cleaned > 0 {
            let mut p = String::new();
            push_str(&mut p, "Cleaned ");
            push_decimal(&mut p, self.sessions_cleaned as u128);
            push_str(&mut p, " sessions, ");
            push_decimal(&mut p, self.events_cleaned as u128);
            push_str(&mut p, " events");
            parts.push(p);
        }
        let ghost p3 = views(parts@);
        if self.database_closed {
            let mut p = String::new();
            push_str(&mut p, "Database closed");
            parts.push(p);
        }
        proof {
            let sp = summary_parts(*self);
            if self.session_paused {
                match self.session_id {
                    Some(id) => assert(p1 =~= seq!["Session "@ + uuid_text(id) + " paused"@]),
                    None => assert(p1 =~= seq!["Session paused"@]),
                }
            } else {
                assert(p1 =~= Seq::<Seq<char>>::empty());
            }
            assert(views(parts@) =~= sp);
        }
        if parts.len() == 0 {
            let mut e = String::new();
            push_str(&mut e, "Shutdown completed (no actions needed)");
            e
        } else {
            join(&parts, "; ")
        }
    }
}

} // verus!

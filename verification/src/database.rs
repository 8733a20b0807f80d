//! How storage failures are read: lock contention, and the bounded retry
//! of the schema migration at startup.

use vstd::prelude::*;
use vstd::string::*;
use crate::error::AppError;
use crate::text::{contains, contains_text, same_text};

verus! {

broadcast use vstd::string::group_string_axioms;

/// SQLite reports lock contention as `SQLITE_BUSY` (5) or `SQLITE_LOCKED`
/// (6), or in the message.
pub open spec fn lock_contention(code: Option<Seq<char>>, message: Seq<char>) -> bool {
    ||| code == Some("5"@)
    ||| code == Some("6"@)
    ||| contains_text(message, "database is locked"@)
    ||| contains_text(message, "database is busy"@)
}

/// Whether a database error (its code, if any, and its message) is lock
/// contention rather than a real failure.
pub fn database_locked(code: Option<&str>, message: &str) -> (r: bool)
    ensures
        r == lock_contention(
            match code {
                Some(c) => Some(c@),
                None => None,
            },
            message@,
        ),
{
    let coded = match code {
        Some(c) => same_text(c, "5") || same_text(c, "6"),
        None => false,
    };
    coded || contains(message, "database is locked") || contains(message, "database is busy")
}

/// A write that could not take the database lock is answered as a conflict
/// (another decision holds it); any other failure is internal.
pub fn write_conflict(locked: bool, error: anyhow::Error) -> (e: AppError)
    ensures
        locked ==> e is Conflict,
        !locked ==> e == AppError::Internal(error),
{
    if locked {
        AppError::Conflict
    } else {
        AppError::Internal(error)
    }
}

/// The number of times the schema migration is tried at startup.
pub const MIGRATION_ATTEMPTS: u32 = 12;

/// What startup does after a migration attempt.
#[derive(Debug, Clone, Copy, PartialEq, Eq)]
pub enum StartupStep {
    /// The schema is in place: serve.
    Ready,
    /// The database was busy: wait a second and try again.
    Retry,
    /// Give up and report the failure.
    Fail,
}

/// After attempt number `attempt` (from 1): ready on success, retry while
/// the database is merely busy and attempts remain, fail otherwise.
pub open spec fn step_after(attempt: u32, succeeded: bool, locked: bool) -> StartupStep {
    if succeeded {
        StartupStep::Ready
    } else if locked && attempt < MIGRATION_ATTEMPTS {
        StartupStep::Retry
    } else {
        StartupStep::Fail
    }
}

/// Decides the next startup step after a migration attempt.
pub fn after_migration_attempt(attempt: u32, succeeded: bool, locked: bool) -> (s: StartupStep)
    ensures
        s == step_after(attempt, succeeded, locked),
{
    if succeeded {
        StartupStep::Ready
    } else if locked && attempt < MIGRATION_ATTEMPTS {
        StartupStep::Retry
    } else {
        StartupStep::Fail
    }
}

} // verus!

//! When the local copy of the TAC database is refreshed.

use vstd::prelude::*;

verus! {

/// Minimum age in seconds before `update` considers the database stale (7 days).
pub const STALE_AFTER_SECS: u64 = 7 * 24 * 60 * 60;

/// A database file of the given age in seconds (`None`: no file yet) is due
/// for a (re-)download.
pub open spec fn stale(age_secs: Option<u64>) -> bool {
    match age_secs {
        None => true,
        Some(age) => age >= STALE_AFTER_SECS,
    }
}

/// Returns `true` if the database file should be (re-)downloaded, given how
/// many seconds old it is, or `None` if the file doesn't exist yet.
pub fn is_stale(age_secs: Option<u64>) -> (r: bool)
    ensures
        r == stale(age_secs),
{
    match age_secs {
        None => true,
        Some(age) => age >= STALE_AFTER_SECS,
    }
}

/// What an `update` does with the local database.
#[derive(Debug, Clone, Copy, PartialEq, Eq, Structural)]
pub enum UpdatePlan {
    /// Download the database afresh and count the records of the new file.
    Download,
    /// Keep the current file, which is fresh enough, and count its records.
    KeepExisting,
}

/// Decide an `update`: download when forced, or when the file (of the given
/// age, `None` when absent) is at least 7 days old; otherwise keep it.
pub fn run(force: bool, age_secs: Option<u64>) -> (plan: UpdatePlan)
    ensures
        plan == (if force || stale(age_secs) {
            UpdatePlan::Download
        } else {
            UpdatePlan::KeepExisting
        }),
{
    if !force && !is_stale(age_secs) {
        UpdatePlan::KeepExisting
    } else {
        UpdatePlan::Download
    }
}

/// The outcome of an `update` operation.
#[derive(Debug, Clone, Copy, PartialEq, Eq, Structural)]
pub struct UpdateOutcome {
    pub record_count: i64,
    /// `true` if the download actually ran; `false` if skipped as fresh.
    pub ran: bool,
}

impl UpdateOutcome {
    /// The outcome of carrying out `plan`, after which the database held
    /// `record_count` records.
    pub fn of_plan(plan: UpdatePlan, record_count: i64) -> (o: UpdateOutcome)
        ensures
            o.record_count == record_count,
            o.ran == (plan == UpdatePlan::Download),
    {
        UpdateOutcome { record_count, ran: plan == UpdatePlan::Download }
    }
}

/// A missing file is always due; an existing one is due exactly from the
/// moment it is seven days (7 × 24 × 3600 s) old.
pub proof fn staleness_threshold_is_seven_days(age: u64)
    ensures
        stale(None),
        stale(Some(age)) <==> age >= 7 * 24 * 3600,
{
}

/// Staleness only grows with age: a file that is due for a refresh stays due
/// as it gets older.
pub proof fn staleness_is_monotone(younger: u64, older: u64)
    requires
        younger <= older,
    ensures
        stale(Some(younger)) ==> stale(Some(older)),
{
}

} // verus!

//! Scheduled clean-up: which job a cron schedule runs, and the cut-off for
//! emptying the trash.

use vstd::prelude::*;
use crate::text::str_eq;
use crate::util::rfc3339_millis;

verus! {

/// The clean-up jobs.
#[derive(PartialEq, Eq, Structural)]
pub enum Job {
    /// Delete sends past their deletion date, with their files.
    PurgeExpiredSends,
    /// Delete ciphers that have been in the trash for over 30 days.
    PurgeTrashedCiphers,
}

/// The schedules the jobs run on.
pub const SENDS_SCHEDULE: &'static str = "0 */6 * * *";
pub const TRASH_SCHEDULE: &'static str = "0 0 * * *";

/// The job a cron trigger runs; an unknown schedule runs none.
pub fn job_for_schedule(cron: &str) -> (r: Option<Job>)
    ensures
        cron@ == SENDS_SCHEDULE@ ==> r == Some(Job::PurgeExpiredSends),
        cron@ == TRASH_SCHEDULE@ ==> r == Some(Job::PurgeTrashedCiphers),
        cron@ != SENDS_SCHEDULE@ && cron@ != TRASH_SCHEDULE@ ==> r is None,
{
    proof {
        reveal_strlit("0 */6 * * *");
        reveal_strlit("0 0 * * *");
        assert(SENDS_SCHEDULE@ != TRASH_SCHEDULE@) by {
            assert(SENDS_SCHEDULE@[2] != TRASH_SCHEDULE@[2]);
        }
    }
    if str_eq(cron, SENDS_SCHEDULE) {
        Some(Job::PurgeExpiredSends)
    } else if str_eq(cron, TRASH_SCHEDULE) {
        Some(Job::PurgeTrashedCiphers)
    } else {
        None
    }
}

/// Days a cipher stays in the trash.
pub const TRASH_RETENTION_DAYS: i64 = 30;

/// The instant `days` whole days before the instant `ms` (milliseconds
/// since the Unix epoch).
pub open spec fn days_before(ms: int, days: int) -> int {
    ms - days * 86400000
}

/// `chrono::Utc::now() - chrono::Duration::days(days)`, written in RFC 3339
/// with milliseconds and a `Z` suffix: the text of the instant `days` days
/// before the clock's present. `Duration::days` panics far outside a
/// century, which the `requires` leaves out.
#[verifier::external_body]
fn utc_days_ago(days: i64) -> (r: String)
    requires
        0 <= days <= 36500,
    ensures
        exists|now_ms: int| r@ == rfc3339_millis(#[trigger] days_before(now_ms, days as int)),
{
    (chrono::Utc::now() - chrono::Duration::days(days)).to_rfc3339_opts(chrono::SecondsFormat::Millis, true)
}

/// The instant before which trashed ciphers are purged: the retention
/// period before now.
pub fn trash_cutoff() -> (r: String)
    ensures
        exists|now_ms: int| r@ == rfc3339_millis(#[trigger] days_before(now_ms, TRASH_RETENTION_DAYS as int)),
{
    utc_days_ago(TRASH_RETENTION_DAYS)
}

} // verus!

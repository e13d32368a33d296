use vstd::prelude::*;
use crate::sql::client::ClientLastRun;
use crate::sql::ScanSchedule;
use crate::time::Timestamp;

verus! {

/// When the next scheduled run of an agent falls due, in nanoseconds since
/// the Unix epoch: one interval after its last run.
pub open spec fn next_run_nanos(lastrun: ClientLastRun, schedule: ScanSchedule) -> int {
    lastrun.lastrun.total_nanos() + schedule.interval_nanos()
}

/// Whether an agent is to run at `now`. A run that an operator asked for is
/// always due. Otherwise a run is due once the next scheduled run lies
/// strictly in the past, unless scheduled runs are suspended.
pub open spec fn run_is_due(lastrun: ClientLastRun, schedule: ScanSchedule, now: Timestamp) -> bool {
    lastrun.manualrun || (next_run_nanos(lastrun, schedule) < now.total_nanos()
        && !schedule.manual)
}

/// Decides whether an agent is to run at `now`.
pub fn should_run(lastrun: &ClientLastRun, schedule: &ScanSchedule, now: Timestamp) -> (due: bool)
    ensures
        due == run_is_due(*lastrun, *schedule, now),
{
    if lastrun.manualrun {
        return true;
    }
    let interval: u128 = schedule.get_interval().as_nanos();
    let next: i128 = lastrun.lastrun.as_nanos() + (interval as i128);
    next < now.as_nanos() && !schedule.is_manual()
}

/// Before the next scheduled run falls due, an agent that no operator
/// asked to run does not run.
pub proof fn lemma_not_due_before_next_run(
    lastrun: ClientLastRun,
    schedule: ScanSchedule,
    now: Timestamp,
)
    requires
        !lastrun.manualrun,
        now.total_nanos() < next_run_nanos(lastrun, schedule),
    ensures
        !run_is_due(lastrun, schedule, now),
{
}

/// After the next scheduled run has fallen due, an agent runs, provided
/// scheduled runs are not suspended.
pub proof fn lemma_due_after_next_run(lastrun: ClientLastRun, schedule: ScanSchedule, now: Timestamp)
    requires
        !schedule.manual,
        now.total_nanos() > next_run_nanos(lastrun, schedule),
    ensures
        run_is_due(lastrun, schedule, now),
{
}

/// A run that an operator asked for is due at any time, also while
/// scheduled runs are suspended.
pub proof fn lemma_manual_run_is_always_due(
    lastrun: ClientLastRun,
    schedule: ScanSchedule,
    now: Timestamp,
)
    requires
        lastrun.manualrun,
    ensures
        run_is_due(lastrun, schedule, now),
{
}

/// While scheduled runs are suspended, only a run that an operator asked
/// for is due.
pub proof fn lemma_suspended_runs_only_on_request(
    lastrun: ClientLastRun,
    schedule: ScanSchedule,
    now: Timestamp,
)
    requires
        schedule.manual,
    ensures
        run_is_due(lastrun, schedule, now) == lastrun.manualrun,
{
}

/// An agent created at `created` has that time as its last run. One second
/// before a full interval has passed it does not run; one second after, it
/// does.
pub proof fn lemma_first_run_one_interval_after_creation(
    created: Timestamp,
    schedule: ScanSchedule,
    early: Timestamp,
    late: Timestamp,
)
    requires
        !schedule.manual,
        early.total_nanos() == created.total_nanos() + schedule.interval_nanos() - 1_000_000_000,
        late.total_nanos() == created.total_nanos() + schedule.interval_nanos() + 1_000_000_000,
    ensures
        !run_is_due(ClientLastRun { lastrun: created, manualrun: false }, schedule, early),
        run_is_due(ClientLastRun { lastrun: created, manualrun: false }, schedule, late),
{
}

/// Starting a run settles a request for one: right after the start
/// nothing is due, whatever was asked for before, and the next run falls
/// due one interval later.
pub proof fn lemma_run_start_clears_request(schedule: ScanSchedule, started: Timestamp)
    ensures
        !run_is_due(ClientLastRun { lastrun: started, manualrun: false }, schedule, started),
        next_run_nanos(ClientLastRun { lastrun: started, manualrun: false }, schedule)
            == started.total_nanos() + schedule.interval_nanos(),
{
}

} // verus!

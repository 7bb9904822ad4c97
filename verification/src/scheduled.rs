//! The recurring triggers: three named maintenance tasks, each bound to a
//! fixed schedule. On each firing the scheduler constructs a `ScheduledJob`
//! carrying the current timestamp with its timezone and runs the task's
//! ordered sequence of collaborator calls. A failing step is fatal to that
//! firing: the steps after it do not run, and the next firing starts the whole
//! sequence over (every step is idempotent, so no partial retry is needed).

use vstd::prelude::*;

use crate::context::ServiceKind;
use crate::dispatch::RunResult;

verus! {

/// A timestamp with its associated timezone, as plain values: seconds since
/// the Unix epoch in UTC, and the zone's name in the tz database.
#[derive(Clone, Debug, PartialEq, Eq)]
pub struct ZonedDateTime {
    pub utc_seconds: i64,
    pub timezone: String,
}

/// The signal a recurring timer hands to a maintenance handler: the firing's
/// timestamp, and nothing else. Constructed fresh on every firing, never
/// persisted, never deduplicated.
#[derive(Clone, Debug, PartialEq, Eq)]
pub struct ScheduledJob(pub ZonedDateTime);

impl From<ZonedDateTime> for ScheduledJob {
    fn from(value: ZonedDateTime) -> (r: Self) {
        ScheduledJob(value)
    }
}

impl vstd::std_specs::convert::FromSpecImpl<ZonedDateTime> for ScheduledJob {
    open spec fn obeys_from_spec() -> bool {
        true
    }

    open spec fn from_spec(t: ZonedDateTime) -> Self {
        ScheduledJob(t)
    }
}

/// One step of a recurring maintenance sequence: a call into a collaborator
/// service whose only observable outcome is success or failure.
#[derive(Clone, Copy, Debug, PartialEq, Eq, Structural)]
pub enum ScheduledCall {
    /// Importer service: invalidate stale import jobs.
    InvalidateImportJobs,
    /// Miscellaneous service: clean up data without associated user activity.
    CleanupDataWithoutAssociatedUserActivities,
    /// Miscellaneous service: check watchlist media for upstream updates and
    /// send the resulting notifications.
    UpdateWatchlistMediaAndSendNotifications,
    /// Miscellaneous service: send the reminders that have come due.
    SendPendingMediaReminders,
    /// Miscellaneous service: rebuild the global calendar cache.
    RecalculateCalendarEvents,
    /// Miscellaneous service: clean up orphaned user/metadata associations.
    CleanupUserAndMetadataAssociation,
    /// Miscellaneous service: drop and regenerate every cached user summary.
    RegenerateUserSummaries,
    /// Miscellaneous service: pull remaining data from every integration a
    /// user has yanked.
    YankIntegrationsData,
}

impl ScheduledCall {
    /// The service family that performs this step.
    pub open spec fn service_spec(self) -> ServiceKind {
        match self {
            ScheduledCall::InvalidateImportJobs => ServiceKind::Importer,
            _ => ServiceKind::Miscellaneous,
        }
    }

    /// The service this step is routed to; a validated `JobContext` resolves
    /// it, so a firing never fails on a missing service.
    pub fn service(&self) -> (r: ServiceKind)
        ensures
            r == self.service_spec(),
    {
        match self {
            ScheduledCall::InvalidateImportJobs => ServiceKind::Importer,
            _ => ServiceKind::Miscellaneous,
        }
    }
}

/// The three recurring maintenance tasks.
#[derive(Clone, Copy, Debug, PartialEq, Eq, Structural)]
pub enum ScheduledTask {
    MediaJobs,
    UserJobs,
    YankIntegrationsData,
}

/// The ordered sequence of the media maintenance firing.
pub open spec fn media_jobs_spec() -> Seq<ScheduledCall> {
    seq![
        ScheduledCall::InvalidateImportJobs,
        ScheduledCall::CleanupDataWithoutAssociatedUserActivities,
        ScheduledCall::UpdateWatchlistMediaAndSendNotifications,
        ScheduledCall::SendPendingMediaReminders,
        ScheduledCall::RecalculateCalendarEvents,
    ]
}

/// The ordered sequence of the user maintenance firing.
pub open spec fn user_jobs_spec() -> Seq<ScheduledCall> {
    seq![
        ScheduledCall::CleanupUserAndMetadataAssociation,
        ScheduledCall::RegenerateUserSummaries,
    ]
}

/// The ordered sequence of the integration sync firing.
pub open spec fn yank_integrations_data_spec() -> Seq<ScheduledCall> {
    seq![ScheduledCall::YankIntegrationsData]
}

/// The sequence a task runs on each firing.
pub open spec fn task_sequence_spec(task: ScheduledTask) -> Seq<ScheduledCall> {
    match task {
        ScheduledTask::MediaJobs => media_jobs_spec(),
        ScheduledTask::UserJobs => user_jobs_spec(),
        ScheduledTask::YankIntegrationsData => yank_integrations_data_spec(),
    }
}

/// Media maintenance: invalidate stale imports, clean up orphaned data, check
/// the watchlist, send due reminders, recompute calendar events — in this
/// order, and a failure of any step aborts the firing.
pub fn media_jobs() -> (r: Vec<ScheduledCall>)
    ensures
        r@ == media_jobs_spec(),
{
    let mut calls: Vec<ScheduledCall> = Vec::new();
    calls.push(ScheduledCall::InvalidateImportJobs);
    calls.push(ScheduledCall::CleanupDataWithoutAssociatedUserActivities);
    calls.push(ScheduledCall::UpdateWatchlistMediaAndSendNotifications);
    calls.push(ScheduledCall::SendPendingMediaReminders);
    calls.push(ScheduledCall::RecalculateCalendarEvents);
    assert(calls@ =~= media_jobs_spec());
    calls
}

/// User maintenance: clean up user/metadata associations, then regenerate all
/// cached user summaries — in this order, failure aborting the firing.
pub fn user_jobs() -> (r: Vec<ScheduledCall>)
    ensures
        r@ == user_jobs_spec(),
{
    let mut calls: Vec<ScheduledCall> = Vec::new();
    calls.push(ScheduledCall::CleanupUserAndMetadataAssociation);
    calls.push(ScheduledCall::RegenerateUserSummaries);
    assert(calls@ =~= user_jobs_spec());
    calls
}

/// Integration sync: pull data from every yanked integration.
pub fn yank_integrations_data() -> (r: Vec<ScheduledCall>)
    ensures
        r@ == yank_integrations_data_spec(),
{
    let mut calls: Vec<ScheduledCall> = Vec::new();
    calls.push(ScheduledCall::YankIntegrationsData);
    assert(calls@ =~= yank_integrations_data_spec());
    calls
}

/// The sequence a task runs on each firing.
pub fn task_sequence(task: ScheduledTask) -> (r: Vec<ScheduledCall>)
    ensures
        r@ == task_sequence_spec(task),
{
    match task {
        ScheduledTask::MediaJobs => media_jobs(),
        ScheduledTask::UserJobs => user_jobs(),
        ScheduledTask::YankIntegrationsData => yank_integrations_data(),
    }
}

/// The calls one firing attempts and how it ends, given the task's ordered
/// sequence and the status each attempted step returned: steps run in order;
/// the first failing step is still attempted but aborts the firing, so no
/// later step runs; a firing whose steps all succeed completes successfully.
pub open spec fn spec_firing(calls: Seq<ScheduledCall>, statuses: Seq<bool>) -> (
    Seq<ScheduledCall>,
    RunResult,
)
    decreases calls.len(),
{
    if calls.len() == 0 {
        (Seq::<ScheduledCall>::empty(), RunResult::Completed(true))
    } else if statuses.len() == 0 {
        (Seq::<ScheduledCall>::empty(), RunResult::OutOfReplies)
    } else if statuses[0] {
        let rest = spec_firing(calls.drop_first(), statuses.drop_first());
        (seq![calls[0]] + rest.0, rest.1)
    } else {
        (seq![calls[0]], RunResult::Aborted)
    }
}

/// The outcome of one firing: every step attempted, in order, and how the
/// firing ended.
pub struct FiringReport {
    pub attempted: Vec<ScheduledCall>,
    pub result: RunResult,
}

/// Runs one firing of a recurring task against a given sequence of step
/// statuses, where status `i` answers step `i`. Mirrors `spec_firing` exactly.
#[verifier::loop_isolation(false)]
pub fn run_scheduled_firing(task: ScheduledTask, statuses: Vec<bool>) -> (r: FiringReport)
    ensures
        r.attempted@ == spec_firing(task_sequence_spec(task), statuses@).0,
        r.result == spec_firing(task_sequence_spec(task), statuses@).1,
{
    let calls = task_sequence(task);
    let n = calls.len();
    let mut attempted: Vec<ScheduledCall> = Vec::new();
    let mut i: usize = 0;
    proof {
        assert(calls@.skip(0) =~= calls@);
        assert(statuses@.skip(0) =~= statuses@);
        assert(attempted@ + spec_firing(calls@, statuses@).0 =~= spec_firing(
            calls@,
            statuses@,
        ).0);
        assert(attempted@ =~= calls@.take(0));
    }
    loop
        invariant
            i <= n,
            i as int <= statuses@.len(),
            n == calls@.len(),
            calls@ == task_sequence_spec(task),
            attempted@ =~= calls@.take(i as int),
            spec_firing(calls@, statuses@).0 =~= attempted@ + spec_firing(
                calls@.skip(i as int),
                statuses@.skip(i as int),
            ).0,
            spec_firing(calls@, statuses@).1 == spec_firing(
                calls@.skip(i as int),
                statuses@.skip(i as int),
            ).1,
        decreases n - i,
    {
        let ghost rest_calls = calls@.skip(i as int);
        let ghost rest_statuses = statuses@.skip(i as int);
        if i == n {
            assert(rest_calls =~= Seq::<ScheduledCall>::empty());
            assert(attempted@ + spec_firing(rest_calls, rest_statuses).0 =~= attempted@);
            return FiringReport { attempted, result: RunResult::Completed(true) };
        }
        if i >= statuses.len() {
            assert(rest_statuses =~= Seq::<bool>::empty());
            assert(rest_calls.len() > 0);
            assert(attempted@ + spec_firing(rest_calls, rest_statuses).0 =~= attempted@);
            return FiringReport { attempted, result: RunResult::OutOfReplies };
        }
        let call = calls[i];
        attempted.push(call);
        proof {
            assert(rest_calls[0] == calls@[i as int]);
            assert(rest_statuses[0] == statuses@[i as int]);
            assert(rest_calls.drop_first() =~= calls@.skip(i as int + 1));
            assert(rest_statuses.drop_first() =~= statuses@.skip(i as int + 1));
            assert(attempted@ =~= calls@.take(i as int + 1));
        }
        if !statuses[i] {
            proof {
                assert(spec_firing(rest_calls, rest_statuses).0 =~= seq![rest_calls[0]]);
                assert(spec_firing(calls@, statuses@).0 =~= attempted@);
            }
            return FiringReport { attempted, result: RunResult::Aborted };
        }
        proof {
            assert(spec_firing(rest_calls, rest_statuses).0 =~= seq![rest_calls[0]] + spec_firing(
                calls@.skip(i as int + 1),
                statuses@.skip(i as int + 1),
            ).0);
        }
        i = i + 1;
    }
}

/// Law: a failing step aborts its firing — the steps after it are not
/// attempted in that firing. If the first `k` steps of a task's sequence
/// succeed and step `k` fails, exactly the first `k + 1` steps were attempted
/// and the firing aborted.
pub proof fn lemma_firing_stops_at_first_failure(
    calls: Seq<ScheduledCall>,
    statuses: Seq<bool>,
    k: int,
)
    requires
        0 <= k < calls.len(),
        k < statuses.len(),
        forall|i: int| 0 <= i < k ==> statuses[i],
        !statuses[k],
    ensures
        spec_firing(calls, statuses).0 =~= calls.take(k + 1),
        spec_firing(calls, statuses).1 == RunResult::Aborted,
    decreases k,
{
    if k == 0 {
        assert(spec_firing(calls, statuses).0 =~= seq![calls[0]]);
        assert(calls.take(1) =~= seq![calls[0]]);
    } else {
        assert(statuses[0]);
        lemma_firing_stops_at_first_failure(calls.drop_first(), statuses.drop_first(), k - 1);
        assert(calls.drop_first().take(k) =~= calls.take(k + 1).drop_first());
        assert(spec_firing(calls, statuses).0 =~= seq![calls[0]] + calls.drop_first().take(k));
        assert(seq![calls[0]] + calls.take(k + 1).drop_first() =~= calls.take(k + 1));
    }
}

/// Law: a firing whose attempted steps all succeed attempts the whole
/// sequence, in order, and completes successfully.
pub proof fn lemma_firing_runs_all_steps(calls: Seq<ScheduledCall>, statuses: Seq<bool>)
    requires
        statuses.len() >= calls.len(),
        forall|i: int| 0 <= i < calls.len() ==> statuses[i],
    ensures
        spec_firing(calls, statuses).0 =~= calls,
        spec_firing(calls, statuses).1 == RunResult::Completed(true),
    decreases calls.len(),
{
    if calls.len() == 0 {
        assert(spec_firing(calls, statuses).0 =~= calls);
    } else {
        assert(statuses[0]);
        lemma_firing_runs_all_steps(calls.drop_first(), statuses.drop_first());
        assert(spec_firing(calls, statuses).0 =~= seq![calls[0]] + calls.drop_first());
        assert(seq![calls[0]] + calls.drop_first() =~= calls);
    }
}

/// One schedule entry: a task fires whenever the wall-clock minute count is a
/// multiple of its period.
#[derive(Clone, Copy, Debug, PartialEq, Eq, Structural)]
pub struct ScheduleBinding {
    pub task: ScheduledTask,
    pub period_minutes: u64,
}

/// Whether a binding fires at a given wall-clock minute.
pub open spec fn fires_at(binding: ScheduleBinding, minute: u64) -> bool {
    binding.period_minutes > 0 && minute % binding.period_minutes == 0
}

/// The tasks due at a given minute, in schedule order.
pub open spec fn due_spec(bindings: Seq<ScheduleBinding>, minute: u64) -> Seq<ScheduledTask>
    decreases bindings.len(),
{
    if bindings.len() == 0 {
        Seq::<ScheduledTask>::empty()
    } else {
        (if fires_at(bindings[0], minute) {
            seq![bindings[0].task]
        } else {
            Seq::<ScheduledTask>::empty()
        }) + due_spec(bindings.drop_first(), minute)
    }
}

/// The scheduler's tick: a pure function from the wall-clock minute to the
/// tasks whose bindings fire now, in schedule order.
#[verifier::loop_isolation(false)]
pub fn due_tasks(bindings: &Vec<ScheduleBinding>, minute: u64) -> (r: Vec<ScheduledTask>)
    ensures
        r@ == due_spec(bindings@, minute),
{
    let n = bindings.len();
    let mut due: Vec<ScheduledTask> = Vec::new();
    let mut i: usize = 0;
    proof {
        assert(bindings@.skip(0) =~= bindings@);
        assert(due@ + due_spec(bindings@, minute) =~= due_spec(bindings@, minute));
    }
    while i < n
        invariant
            i <= n,
            n == bindings@.len(),
            due_spec(bindings@, minute) =~= due@ + due_spec(bindings@.skip(i as int), minute),
        decreases n - i,
    {
        let ghost rest = bindings@.skip(i as int);
        let binding = bindings[i];
        proof {
            assert(rest[0] == bindings@[i as int]);
            assert(rest.drop_first() =~= bindings@.skip(i as int + 1));
        }
        if binding.period_minutes > 0 && minute % binding.period_minutes == 0 {
            due.push(binding.task);
        }
        i = i + 1;
    }
    assert(bindings@.skip(n as int) =~= Seq::<ScheduleBinding>::empty());
    assert(due@ + due_spec(bindings@.skip(n as int), minute) =~= due@);
    due
}

/// The process's static schedule: media maintenance hourly, user maintenance
/// daily, integration sync hourly.
pub fn default_schedule() -> (r: Vec<ScheduleBinding>)
    ensures
        r@ == seq![
            (ScheduleBinding { task: ScheduledTask::MediaJobs, period_minutes: 60 }),
            (ScheduleBinding { task: ScheduledTask::UserJobs, period_minutes: 1440 }),
            (ScheduleBinding { task: ScheduledTask::YankIntegrationsData, period_minutes: 60 }),
        ],
{
    let mut bindings: Vec<ScheduleBinding> = Vec::new();
    bindings.push(ScheduleBinding { task: ScheduledTask::MediaJobs, period_minutes: 60 });
    bindings.push(ScheduleBinding { task: ScheduledTask::UserJobs, period_minutes: 1440 });
    bindings.push(
        ScheduleBinding { task: ScheduledTask::YankIntegrationsData, period_minutes: 60 },
    );
    assert(bindings@ =~= seq![
        ScheduleBinding { task: ScheduledTask::MediaJobs, period_minutes: 60 },
        ScheduleBinding { task: ScheduledTask::UserJobs, period_minutes: 1440 },
        ScheduleBinding { task: ScheduledTask::YankIntegrationsData, period_minutes: 60 },
    ]);
    bindings
}

} // verus!

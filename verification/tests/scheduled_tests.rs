use background_jobs::dispatch::RunResult;
use background_jobs::scheduled::{
    default_schedule, due_tasks, media_jobs, run_scheduled_firing, task_sequence, user_jobs,
    yank_integrations_data, ScheduleBinding, ScheduledCall, ScheduledJob, ScheduledTask,
    ZonedDateTime,
};

#[test]
fn media_jobs_sequence_is_ordered() {
    assert_eq!(
        media_jobs(),
        vec![
            ScheduledCall::InvalidateImportJobs,
            ScheduledCall::CleanupDataWithoutAssociatedUserActivities,
            ScheduledCall::UpdateWatchlistMediaAndSendNotifications,
            ScheduledCall::SendPendingMediaReminders,
            ScheduledCall::RecalculateCalendarEvents,
        ]
    );
}

#[test]
fn user_jobs_sequence_is_ordered() {
    assert_eq!(
        user_jobs(),
        vec![
            ScheduledCall::CleanupUserAndMetadataAssociation,
            ScheduledCall::RegenerateUserSummaries,
        ]
    );
}

#[test]
fn yank_integrations_data_sequence() {
    assert_eq!(yank_integrations_data(), vec![ScheduledCall::YankIntegrationsData]);
}

#[test]
fn task_sequence_matches_handlers() {
    assert_eq!(task_sequence(ScheduledTask::MediaJobs), media_jobs());
    assert_eq!(task_sequence(ScheduledTask::UserJobs), user_jobs());
    assert_eq!(
        task_sequence(ScheduledTask::YankIntegrationsData),
        yank_integrations_data()
    );
}

#[test]
fn firing_runs_all_steps_when_all_succeed() {
    let report = run_scheduled_firing(ScheduledTask::MediaJobs, vec![true; 5]);
    assert_eq!(report.attempted, media_jobs());
    assert_eq!(report.result, RunResult::Completed(true));
}

#[test]
fn firing_stops_at_first_failing_step() {
    // Step 1 (cleanup) fails: the watchlist check, the reminders and the
    // calendar rebuild must not run in this firing.
    let report = run_scheduled_firing(
        ScheduledTask::MediaJobs,
        vec![true, false, true, true, true],
    );
    assert_eq!(
        report.attempted,
        vec![
            ScheduledCall::InvalidateImportJobs,
            ScheduledCall::CleanupDataWithoutAssociatedUserActivities,
        ]
    );
    assert_eq!(report.result, RunResult::Aborted);
}

#[test]
fn firing_aborts_on_first_step_failure() {
    let report = run_scheduled_firing(ScheduledTask::UserJobs, vec![false, true]);
    assert_eq!(
        report.attempted,
        vec![ScheduledCall::CleanupUserAndMetadataAssociation]
    );
    assert_eq!(report.result, RunResult::Aborted);
}

#[test]
fn firing_without_enough_statuses_runs_out() {
    let report = run_scheduled_firing(ScheduledTask::MediaJobs, vec![true, true]);
    assert_eq!(report.attempted.len(), 2);
    assert_eq!(report.result, RunResult::OutOfReplies);
}

#[test]
fn due_tasks_follow_the_schedule() {
    let schedule = default_schedule();
    assert_eq!(
        due_tasks(&schedule, 0),
        vec![
            ScheduledTask::MediaJobs,
            ScheduledTask::UserJobs,
            ScheduledTask::YankIntegrationsData,
        ]
    );
    assert_eq!(
        due_tasks(&schedule, 60),
        vec![ScheduledTask::MediaJobs, ScheduledTask::YankIntegrationsData]
    );
    assert_eq!(due_tasks(&schedule, 30), vec![]);
    assert_eq!(
        due_tasks(&schedule, 1440),
        vec![
            ScheduledTask::MediaJobs,
            ScheduledTask::UserJobs,
            ScheduledTask::YankIntegrationsData,
        ]
    );
}

#[test]
fn zero_period_binding_never_fires() {
    let schedule = vec![ScheduleBinding { task: ScheduledTask::MediaJobs, period_minutes: 0 }];
    assert_eq!(due_tasks(&schedule, 0), vec![]);
}

#[test]
fn scheduled_job_wraps_its_timestamp() {
    let stamp = ZonedDateTime { utc_seconds: 1_700_000_000, timezone: "Europe/Paris".to_string() };
    let job = ScheduledJob::from(stamp.clone());
    assert_eq!(job.0, stamp);
}

use background_jobs::dispatch::{
    dispatch_start, perform_application_job, CallReply, CollaboratorCall, DispatchState, RunResult,
};
use background_jobs::jobs::{
    ApplicationJob, DeployImportJobInput, Exercise, MetadataLot, MetadataRecord, MetadataSource,
    PartialMetadataPerson, ProgressUpdateInput,
};

fn entry(metadata_id: i32, progress: Option<i32>) -> ProgressUpdateInput {
    ProgressUpdateInput { metadata_id, progress }
}

#[test]
fn bulk_progress_update_scenario() {
    let entry_a = entry(10, Some(50));
    let entry_b = entry(11, None);
    let job = ApplicationJob::BulkProgressUpdate(42, vec![entry_a.clone(), entry_b.clone()]);
    let report = perform_application_job(job, vec![CallReply::Status(true)]);
    assert_eq!(report.name, "BulkProgressUpdate");
    assert_eq!(report.result, RunResult::Completed(true));
    assert_eq!(
        report.calls,
        vec![CollaboratorCall::BulkProgressUpdate(42, vec![entry_a, entry_b])]
    );
}

#[test]
fn import_job_reports_call_status() {
    let input = DeployImportJobInput { source: "goodreads".to_string() };
    let job = ApplicationJob::ImportFromExternalSource(3, input.clone());
    let report = perform_application_job(job, vec![CallReply::Status(false)]);
    assert_eq!(report.name, "ImportFromExternalSource");
    assert_eq!(report.result, RunResult::Completed(false));
    assert_eq!(report.calls, vec![CollaboratorCall::StartImporting(3, input)]);
}

#[test]
fn recalculate_user_summary_single_call() {
    let job = ApplicationJob::RecalculateUserSummary(9);
    let report = perform_application_job(job, vec![CallReply::Status(true)]);
    assert_eq!(report.name, "RecalculateUserSummary");
    assert_eq!(report.result, RunResult::Completed(true));
    assert_eq!(report.calls, vec![CollaboratorCall::CalculateUserSummary(9, true)]);
}

#[test]
fn update_exercise_single_call() {
    let exercise = Exercise { name: "deadlift".to_string() };
    let job = ApplicationJob::UpdateExerciseJob(exercise.clone());
    let report = perform_application_job(job, vec![CallReply::Status(true)]);
    assert_eq!(report.name, "UpdateExerciseJob");
    assert_eq!(report.result, RunResult::Completed(true));
    assert_eq!(report.calls, vec![CollaboratorCall::UpdateExercise(exercise)]);
}

#[test]
fn recalculate_calendar_events_single_call() {
    let job = ApplicationJob::RecalculateCalendarEvents;
    let report = perform_application_job(job, vec![CallReply::Status(false)]);
    assert_eq!(report.name, "RecalculateCalendarEvents");
    assert_eq!(report.result, RunResult::Completed(false));
    assert_eq!(report.calls, vec![CollaboratorCall::RecalculateCalendarEvents]);
}

#[test]
fn associate_person_single_call() {
    let person = PartialMetadataPerson { name: "Ada".to_string(), role: "Author".to_string() };
    let job = ApplicationJob::AssociatePersonWithMetadata(12, person.clone(), 2);
    let report = perform_application_job(job, vec![CallReply::Status(true)]);
    assert_eq!(report.name, "AssociatePersonWithMetadata");
    assert_eq!(report.result, RunResult::Completed(true));
    assert_eq!(
        report.calls,
        vec![CollaboratorCall::AssociatePersonWithMetadata(12, person, 2)]
    );
}

#[test]
fn associate_group_single_call() {
    let job = ApplicationJob::AssociateGroupWithMetadata(
        MetadataLot::Movie,
        MetadataSource::Tmdb,
        "group-7".to_string(),
    );
    let report = perform_application_job(job, vec![CallReply::Status(true)]);
    assert_eq!(report.name, "AssociateGroupWithMetadata");
    assert_eq!(report.result, RunResult::Completed(true));
    assert_eq!(
        report.calls,
        vec![CollaboratorCall::AssociateGroupWithMetadata(
            MetadataLot::Movie,
            MetadataSource::Tmdb,
            "group-7".to_string(),
        )]
    );
}

#[test]
fn user_created_issues_setup_twice_and_one_summary() {
    let job = ApplicationJob::UserCreated(7);
    let report = perform_application_job(
        job,
        vec![CallReply::Status(false), CallReply::Status(false), CallReply::Status(true)],
    );
    assert_eq!(report.name, "UserCreated");
    assert_eq!(
        report.calls,
        vec![
            CollaboratorCall::UserCreatedJob(7),
            CollaboratorCall::UserCreatedJob(7),
            CollaboratorCall::CalculateUserSummary(7, true),
        ]
    );
    // Both setup failures are ignored; the summary call alone decides.
    assert_eq!(report.result, RunResult::Completed(true));
}

#[test]
fn user_created_summary_failure_is_reported() {
    let job = ApplicationJob::UserCreated(7);
    let report = perform_application_job(
        job,
        vec![CallReply::Status(true), CallReply::Status(true), CallReply::Status(false)],
    );
    assert_eq!(report.result, RunResult::Completed(false));
}

fn metadata(id: i32) -> MetadataRecord {
    MetadataRecord { id, title: "Dune".to_string() }
}

#[test]
fn update_metadata_refresh_failure_aborts_before_fanout() {
    let job = ApplicationJob::UpdateMetadata(metadata(5));
    let report = perform_application_job(job, vec![CallReply::Notifications(None)]);
    assert_eq!(report.calls, vec![CollaboratorCall::UpdateMetadata(5)]);
    assert_eq!(report.result, RunResult::Aborted);
}

#[test]
fn update_metadata_without_notifications_succeeds() {
    let job = ApplicationJob::UpdateMetadata(metadata(5));
    let report = perform_application_job(job, vec![CallReply::Notifications(Some(vec![]))]);
    assert_eq!(report.calls, vec![CollaboratorCall::UpdateMetadata(5)]);
    assert_eq!(report.result, RunResult::Completed(true));
}

#[test]
fn update_metadata_fanout_delivers_every_notification_to_every_subscriber() {
    let job = ApplicationJob::UpdateMetadata(metadata(5));
    let report = perform_application_job(
        job,
        vec![
            CallReply::Notifications(Some(vec!["released".to_string(), "renamed".to_string()])),
            CallReply::Subscribers(Some(vec![1, 2])),
            CallReply::Status(true),
            CallReply::Status(false),
            CallReply::Subscribers(Some(vec![1, 2])),
            CallReply::Status(false),
            CallReply::Status(true),
        ],
    );
    assert_eq!(
        report.calls,
        vec![
            CollaboratorCall::UpdateMetadata(5),
            CollaboratorCall::UsersToBeNotifiedForStateChanges(5),
            CollaboratorCall::SendMediaStateChangedNotificationForUser(1, "released".to_string()),
            CollaboratorCall::SendMediaStateChangedNotificationForUser(2, "released".to_string()),
            CollaboratorCall::UsersToBeNotifiedForStateChanges(5),
            CollaboratorCall::SendMediaStateChangedNotificationForUser(1, "renamed".to_string()),
            CollaboratorCall::SendMediaStateChangedNotificationForUser(2, "renamed".to_string()),
        ]
    );
    // Two failed deliveries, and the outcome is still success.
    assert_eq!(report.result, RunResult::Completed(true));
}

#[test]
fn update_metadata_subscriber_lookup_failure_aborts() {
    let job = ApplicationJob::UpdateMetadata(metadata(8));
    let report = perform_application_job(
        job,
        vec![
            CallReply::Notifications(Some(vec!["released".to_string()])),
            CallReply::Subscribers(None),
        ],
    );
    assert_eq!(
        report.calls,
        vec![
            CollaboratorCall::UpdateMetadata(8),
            CollaboratorCall::UsersToBeNotifiedForStateChanges(8),
        ]
    );
    assert_eq!(report.result, RunResult::Aborted);
}

#[test]
fn update_metadata_empty_subscriber_list_moves_to_next_notification() {
    let job = ApplicationJob::UpdateMetadata(metadata(5));
    let report = perform_application_job(
        job,
        vec![
            CallReply::Notifications(Some(vec!["a".to_string(), "b".to_string()])),
            CallReply::Subscribers(Some(vec![])),
            CallReply::Subscribers(Some(vec![4])),
            CallReply::Status(true),
        ],
    );
    assert_eq!(
        report.calls,
        vec![
            CollaboratorCall::UpdateMetadata(5),
            CollaboratorCall::UsersToBeNotifiedForStateChanges(5),
            CollaboratorCall::UsersToBeNotifiedForStateChanges(5),
            CollaboratorCall::SendMediaStateChangedNotificationForUser(4, "b".to_string()),
        ]
    );
    assert_eq!(report.result, RunResult::Completed(true));
}

#[test]
fn run_out_of_replies_is_reported() {
    let job = ApplicationJob::UserCreated(1);
    let report = perform_application_job(job, vec![CallReply::Status(true)]);
    assert_eq!(report.result, RunResult::OutOfReplies);
    assert_eq!(
        report.calls,
        vec![CollaboratorCall::UserCreatedJob(1), CollaboratorCall::UserCreatedJob(1)]
    );
}

#[test]
fn concurrent_dispatches_of_same_variant_do_not_interfere() {
    // Two dispatches of the same variant with different payloads: each report
    // is a function of its own job and replies alone.
    let first = perform_application_job(
        ApplicationJob::RecalculateUserSummary(1),
        vec![CallReply::Status(true)],
    );
    let second = perform_application_job(
        ApplicationJob::RecalculateUserSummary(2),
        vec![CallReply::Status(false)],
    );
    assert_eq!(first.result, RunResult::Completed(true));
    assert_eq!(first.calls, vec![CollaboratorCall::CalculateUserSummary(1, true)]);
    assert_eq!(second.result, RunResult::Completed(false));
    assert_eq!(second.calls, vec![CollaboratorCall::CalculateUserSummary(2, true)]);
}

#[test]
fn dispatch_start_names_first_call_per_variant() {
    let (state, call) = dispatch_start(ApplicationJob::UpdateMetadata(metadata(6)));
    assert_eq!(state, DispatchState::AwaitingRefresh(6));
    assert_eq!(call, CollaboratorCall::UpdateMetadata(6));
    let (state, call) = dispatch_start(ApplicationJob::UserCreated(4));
    assert_eq!(state, DispatchState::AwaitingFirstSetup(4));
    assert_eq!(call, CollaboratorCall::UserCreatedJob(4));
}

#[test]
fn job_names_match_variant_tags() {
    assert_eq!(ApplicationJob::RecalculateCalendarEvents.name(), "RecalculateCalendarEvents");
    assert_eq!(ApplicationJob::UserCreated(1).name(), "UserCreated");
    assert_eq!(ApplicationJob::UpdateMetadata(metadata(1)).name(), "UpdateMetadata");
    assert_eq!(
        ApplicationJob::ImportFromExternalSource(
            1,
            DeployImportJobInput { source: "x".to_string() },
        )
        .name(),
        "ImportFromExternalSource"
    );
}

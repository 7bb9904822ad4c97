use background_jobs::context::{JobContextBuilder, ServiceKind};
use background_jobs::dispatch::CollaboratorCall;
use background_jobs::jobs::Exercise;
use background_jobs::scheduled::ScheduledCall;

#[test]
fn empty_builder_fails_validation_on_importer_first() {
    let builder = JobContextBuilder::new();
    assert_eq!(builder.validate().unwrap_err(), ServiceKind::Importer);
}

#[test]
fn missing_miscellaneous_is_reported() {
    let mut builder = JobContextBuilder::new();
    builder.register(ServiceKind::Importer, 101);
    builder.register(ServiceKind::Exercise, 103);
    assert_eq!(builder.validate().unwrap_err(), ServiceKind::Miscellaneous);
}

#[test]
fn missing_exercise_is_reported() {
    let mut builder = JobContextBuilder::new();
    builder.register(ServiceKind::Importer, 101);
    builder.register(ServiceKind::Miscellaneous, 102);
    assert_eq!(builder.validate().unwrap_err(), ServiceKind::Exercise);
}

#[test]
fn validated_context_resolves_every_kind() {
    let mut builder = JobContextBuilder::new();
    builder.register(ServiceKind::Importer, 101);
    builder.register(ServiceKind::Miscellaneous, 102);
    builder.register(ServiceKind::Exercise, 103);
    let ctx = builder.validate().unwrap();
    assert_eq!(ctx.resolve(ServiceKind::Importer), 101);
    assert_eq!(ctx.resolve(ServiceKind::Miscellaneous), 102);
    assert_eq!(ctx.resolve(ServiceKind::Exercise), 103);
}

#[test]
fn register_replaces_earlier_handle() {
    let mut builder = JobContextBuilder::new();
    builder.register(ServiceKind::Importer, 1);
    builder.register(ServiceKind::Importer, 2);
    builder.register(ServiceKind::Miscellaneous, 3);
    builder.register(ServiceKind::Exercise, 4);
    let ctx = builder.validate().unwrap();
    assert_eq!(ctx.resolve(ServiceKind::Importer), 2);
}

#[test]
fn calls_route_to_their_service_kind() {
    let import = CollaboratorCall::StartImporting(
        1,
        background_jobs::jobs::DeployImportJobInput { source: "s".to_string() },
    );
    assert_eq!(import.service(), ServiceKind::Importer);
    let exercise = CollaboratorCall::UpdateExercise(Exercise { name: "squat".to_string() });
    assert_eq!(exercise.service(), ServiceKind::Exercise);
    assert_eq!(
        CollaboratorCall::RecalculateCalendarEvents.service(),
        ServiceKind::Miscellaneous
    );
    assert_eq!(ScheduledCall::InvalidateImportJobs.service(), ServiceKind::Importer);
    assert_eq!(
        ScheduledCall::RegenerateUserSummaries.service(),
        ServiceKind::Miscellaneous
    );
}

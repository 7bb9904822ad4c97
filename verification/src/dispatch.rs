//! The application dispatcher, as a state machine over collaborator calls.
//!
//! A dispatch begins with `dispatch_start`, which names the first collaborator
//! call for the job's variant. The surrounding process performs that call
//! asynchronously and feeds its reply into `dispatch_step`, which either names
//! the next call, completes with the job's success flag, or aborts fatally.
//! `perform_application_job` runs the whole machine against a given sequence
//! of replies and reports the exact calls made, in order, and how the
//! execution ended.
//!
//! The per-variant error policy is deliberately mixed and is preserved as
//! documented: a single-call variant reports its call's status; `UserCreated`
//! issues the setup call twice, ignoring both replies, and reports the summary
//! recalculation's status; `UpdateMetadata` treats a refresh or subscriber
//! resolution failure as fatal, swallows every individual delivery failure,
//! and otherwise always reports success.

use vstd::prelude::*;

use crate::context::ServiceKind;
use crate::jobs::{
    ApplicationJob, DeployImportJobInput, Exercise, MetadataLot, MetadataSource,
    PartialMetadataPerson, ProgressUpdateInput,
};

verus! {

/// One call into a collaborator service, with the payload handed to it.
#[derive(Clone, Debug, PartialEq)]
pub enum CollaboratorCall {
    /// Importer service: begin an external import run for a user.
    StartImporting(i32, DeployImportJobInput),
    /// Miscellaneous service: post-registration setup for a user.
    UserCreatedJob(i32),
    /// Miscellaneous service: rebuild a user's summary; the flag asks for a
    /// recalculation from the beginning of history.
    CalculateUserSummary(i32, bool),
    /// Miscellaneous service: refresh one media item's metadata; returns the
    /// state-change notifications the refresh produced.
    UpdateMetadata(i32),
    /// Miscellaneous service: the users subscribed to state changes of a
    /// media item.
    UsersToBeNotifiedForStateChanges(i32),
    /// Miscellaneous service: deliver one state-change notification to one
    /// user.
    SendMediaStateChangedNotificationForUser(i32, String),
    /// Exercise service: synchronize one exercise definition.
    UpdateExercise(Exercise),
    /// Miscellaneous service: apply many progress updates for one user.
    BulkProgressUpdate(i32, Vec<ProgressUpdateInput>),
    /// Miscellaneous service: rebuild the global calendar cache.
    RecalculateCalendarEvents,
    /// Miscellaneous service: link a person credit to a media item.
    AssociatePersonWithMetadata(i32, PartialMetadataPerson, usize),
    /// Miscellaneous service: link a media item to its containing group.
    AssociateGroupWithMetadata(MetadataLot, MetadataSource, String),
}

impl CollaboratorCall {
    /// The service family that performs this call.
    pub open spec fn service_spec(self) -> ServiceKind {
        match self {
            CollaboratorCall::StartImporting(_, _) => ServiceKind::Importer,
            CollaboratorCall::UpdateExercise(_) => ServiceKind::Exercise,
            _ => ServiceKind::Miscellaneous,
        }
    }

    /// The service this call is routed to. Every call maps to one of the
    /// three registered kinds, and a validated `JobContext` resolves each of
    /// them, so routing never fails at execution time.
    pub fn service(&self) -> (r: ServiceKind)
        ensures
            r == self.service_spec(),
    {
        match self {
            CollaboratorCall::StartImporting(_, _) => ServiceKind::Importer,
            CollaboratorCall::UpdateExercise(_) => ServiceKind::Exercise,
            _ => ServiceKind::Miscellaneous,
        }
    }
}

/// The outcome of one collaborator call, fed back into the dispatcher.
#[derive(Clone, Debug, PartialEq)]
pub enum CallReply {
    /// A call whose only observable outcome is success or failure.
    Status(bool),
    /// The metadata refresh: the notifications it produced, `None` when the
    /// refresh itself failed.
    Notifications(Option<Vec<String>>),
    /// Subscriber resolution: the users to notify, `None` when the lookup
    /// failed.
    Subscribers(Option<Vec<i32>>),
}

impl CallReply {
    /// The success flag of a status reply.
    pub open spec fn status_spec(self) -> bool
        recommends
            self is Status,
    {
        match self {
            CallReply::Status(b) => b,
            _ => false,
        }
    }
}

/// Where a dispatch stands between two collaborator calls. Every state but
/// `Finished` has exactly one call outstanding, whose reply drives the next
/// transition.
#[derive(Clone, Debug, PartialEq)]
pub enum DispatchState {
    /// A single reported call is outstanding; its status is the outcome.
    AwaitingReported,
    /// `UserCreated`: the first setup call is outstanding; its reply is
    /// ignored.
    AwaitingFirstSetup(i32),
    /// `UserCreated`: the duplicate setup call is outstanding; its reply is
    /// ignored too.
    AwaitingSecondSetup(i32),
    /// `UserCreated`: the summary recalculation is outstanding; its status
    /// alone is the outcome.
    AwaitingSummary,
    /// `UpdateMetadata`: the primary refresh is outstanding; its failure is
    /// fatal.
    AwaitingRefresh(i32),
    /// `UpdateMetadata`: subscriber resolution for notification `current` is
    /// outstanding; its failure is fatal.
    AwaitingSubscribers { metadata_id: i32, notifications: Vec<String>, current: usize },
    /// `UpdateMetadata`: delivery of notification `current` to subscriber
    /// `next_user` is outstanding; its reply is ignored.
    AwaitingDelivery {
        metadata_id: i32,
        notifications: Vec<String>,
        current: usize,
        subscribers: Vec<i32>,
        next_user: usize,
    },
    /// The dispatch has completed or aborted; no call is outstanding.
    Finished,
}

/// What the dispatcher asks of the surrounding process after a reply.
#[derive(Clone, Debug, PartialEq)]
pub enum DispatchAction {
    /// Perform this collaborator call and feed its reply back in.
    Invoke(CollaboratorCall),
    /// The job is done; log the outcome with this success flag.
    Complete(bool),
    /// A fatal collaborator failure: the job execution terminates
    /// mid-sequence, surfacing as a worker-level fault, and no outcome is
    /// logged.
    Abort,
}

/// How a whole dispatch run ended.
#[derive(Clone, Copy, Debug, PartialEq, Eq, Structural)]
pub enum RunResult {
    /// The job ran to the end; the flag is the outcome's success flag.
    Completed(bool),
    /// A fatal collaborator failure terminated the run mid-sequence.
    Aborted,
    /// The supplied replies ran out while a call was still outstanding.
    OutOfReplies,
}

/// The indices held by a dispatch state stay inside its payload lists.
pub open spec fn state_inv(s: DispatchState) -> bool {
    match s {
        DispatchState::AwaitingSubscribers { notifications, current, .. } => current
            < notifications@.len(),
        DispatchState::AwaitingDelivery {
            notifications,
            current,
            subscribers,
            next_user,
            ..
        } => current < notifications@.len() && next_user < subscribers@.len(),
        _ => true,
    }
}

/// The first collaborator call of each variant, and the state awaiting its
/// reply.
pub open spec fn spec_start(job: ApplicationJob) -> (DispatchState, CollaboratorCall) {
    match job {
        ApplicationJob::ImportFromExternalSource(user_id, input) => (
            DispatchState::AwaitingReported,
            CollaboratorCall::StartImporting(user_id, input),
        ),
        ApplicationJob::UserCreated(user_id) => (
            DispatchState::AwaitingFirstSetup(user_id),
            CollaboratorCall::UserCreatedJob(user_id),
        ),
        ApplicationJob::RecalculateUserSummary(user_id) => (
            DispatchState::AwaitingReported,
            CollaboratorCall::CalculateUserSummary(user_id, true),
        ),
        ApplicationJob::UpdateMetadata(metadata) => (
            DispatchState::AwaitingRefresh(metadata.id),
            CollaboratorCall::UpdateMetadata(metadata.id),
        ),
        ApplicationJob::UpdateExerciseJob(exercise) => (
            DispatchState::AwaitingReported,
            CollaboratorCall::UpdateExercise(exercise),
        ),
        ApplicationJob::BulkProgressUpdate(user_id, input) => (
            DispatchState::AwaitingReported,
            CollaboratorCall::BulkProgressUpdate(user_id, input),
        ),
        ApplicationJob::RecalculateCalendarEvents => (
            DispatchState::AwaitingReported,
            CollaboratorCall::RecalculateCalendarEvents,
        ),
        ApplicationJob::AssociatePersonWithMetadata(metadata_id, person, index) => (
            DispatchState::AwaitingReported,
            CollaboratorCall::AssociatePersonWithMetadata(metadata_id, person, index),
        ),
        ApplicationJob::AssociateGroupWithMetadata(lot, source, group_identifier) => (
            DispatchState::AwaitingReported,
            CollaboratorCall::AssociateGroupWithMetadata(lot, source, group_identifier),
        ),
    }
}

/// One transition: the reply to the outstanding call decides the next action.
/// A reply of the wrong shape for the state is a protocol violation and
/// aborts.
pub open spec fn spec_step(s: DispatchState, reply: CallReply) -> (DispatchState, DispatchAction) {
    match s {
        DispatchState::AwaitingReported => match reply {
            CallReply::Status(b) => (DispatchState::Finished, DispatchAction::Complete(b)),
            _ => (DispatchState::Finished, DispatchAction::Abort),
        },
        DispatchState::AwaitingFirstSetup(user_id) => match reply {
            CallReply::Status(_) => (
                DispatchState::AwaitingSecondSetup(user_id),
                DispatchAction::Invoke(CollaboratorCall::UserCreatedJob(user_id)),
            ),
            _ => (DispatchState::Finished, DispatchAction::Abort),
        },
        DispatchState::AwaitingSecondSetup(user_id) => match reply {
            CallReply::Status(_) => (
                DispatchState::AwaitingSummary,
                DispatchAction::Invoke(CollaboratorCall::CalculateUserSummary(user_id, true)),
            ),
            _ => (DispatchState::Finished, DispatchAction::Abort),
        },
        DispatchState::AwaitingSummary => match reply {
            CallReply::Status(b) => (DispatchState::Finished, DispatchAction::Complete(b)),
            _ => (DispatchState::Finished, DispatchAction::Abort),
        },
        DispatchState::AwaitingRefresh(metadata_id) => match reply {
            CallReply::Notifications(Some(notifications)) => {
                if notifications@.len() == 0 {
                    (DispatchState::Finished, DispatchAction::Complete(true))
                } else {
                    (
                        DispatchState::AwaitingSubscribers {
                            metadata_id,
                            notifications,
                            current: 0,
                        },
                        DispatchAction::Invoke(
                            CollaboratorCall::UsersToBeNotifiedForStateChanges(metadata_id),
                        ),
                    )
                }
            },
            _ => (DispatchState::Finished, DispatchAction::Abort),
        },
        DispatchState::AwaitingSubscribers { metadata_id, notifications, current } => match reply {
            CallReply::Subscribers(Some(subscribers)) => {
                if subscribers@.len() > 0 {
                    (
                        DispatchState::AwaitingDelivery {
                            metadata_id,
                            notifications,
                            current,
                            subscribers,
                            next_user: 0,
                        },
                        DispatchAction::Invoke(
                            CollaboratorCall::SendMediaStateChangedNotificationForUser(
                                subscribers@[0],
                                notifications@[current as int],
                            ),
                        ),
                    )
                } else if current + 1 < notifications@.len() {
                    (
                        DispatchState::AwaitingSubscribers {
                            metadata_id,
                            notifications,
                            current: (current + 1) as usize,
                        },
                        DispatchAction::Invoke(
                            CollaboratorCall::UsersToBeNotifiedForStateChanges(metadata_id),
                        ),
                    )
                } else {
                    (DispatchState::Finished, DispatchAction::Complete(true))
                }
            },
            _ => (DispatchState::Finished, DispatchAction::Abort),
        },
        DispatchState::AwaitingDelivery {
            metadata_id,
            notifications,
            current,
            subscribers,
            next_user,
        } => match reply {
            CallReply::Status(_) => {
                if next_user + 1 < subscribers@.len() {
                    (
                        DispatchState::AwaitingDelivery {
                            metadata_id,
                            notifications,
                            current,
                            subscribers,
                            next_user: (next_user + 1) as usize,
                        },
                        DispatchAction::Invoke(
                            CollaboratorCall::SendMediaStateChangedNotificationForUser(
                                subscribers@[next_user + 1],
                                notifications@[current as int],
                            ),
                        ),
                    )
                } else if current + 1 < notifications@.len() {
                    (
                        DispatchState::AwaitingSubscribers {
                            metadata_id,
                            notifications,
                            current: (current + 1) as usize,
                        },
                        DispatchAction::Invoke(
                            CollaboratorCall::UsersToBeNotifiedForStateChanges(metadata_id),
                        ),
                    )
                } else {
                    (DispatchState::Finished, DispatchAction::Complete(true))
                }
            },
            _ => (DispatchState::Finished, DispatchAction::Abort),
        },
        DispatchState::Finished => (DispatchState::Finished, DispatchAction::Abort),
    }
}

/// Begins a dispatch: the state awaiting the first reply, and the first
/// collaborator call to perform.
pub fn dispatch_start(job: ApplicationJob) -> (r: (DispatchState, CollaboratorCall))
    ensures
        r == spec_start(job),
        state_inv(r.0),
{
    match job {
        ApplicationJob::ImportFromExternalSource(user_id, input) => (
            DispatchState::AwaitingReported,
            CollaboratorCall::StartImporting(user_id, input),
        ),
        ApplicationJob::UserCreated(user_id) => (
            DispatchState::AwaitingFirstSetup(user_id),
            CollaboratorCall::UserCreatedJob(user_id),
        ),
        ApplicationJob::RecalculateUserSummary(user_id) => (
            DispatchState::AwaitingReported,
            CollaboratorCall::CalculateUserSummary(user_id, true),
        ),
        ApplicationJob::UpdateMetadata(metadata) => (
            DispatchState::AwaitingRefresh(metadata.id),
            CollaboratorCall::UpdateMetadata(metadata.id),
        ),
        ApplicationJob::UpdateExerciseJob(exercise) => (
            DispatchState::AwaitingReported,
            CollaboratorCall::UpdateExercise(exercise),
        ),
        ApplicationJob::BulkProgressUpdate(user_id, input) => (
            DispatchState::AwaitingReported,
            CollaboratorCall::BulkProgressUpdate(user_id, input),
        ),
        ApplicationJob::RecalculateCalendarEvents => (
            DispatchState::AwaitingReported,
            CollaboratorCall::RecalculateCalendarEvents,
        ),
        ApplicationJob::AssociatePersonWithMetadata(metadata_id, person, index) => (
            DispatchState::AwaitingReported,
            CollaboratorCall::AssociatePersonWithMetadata(metadata_id, person, index),
        ),
        ApplicationJob::AssociateGroupWithMetadata(lot, source, group_identifier) => (
            DispatchState::AwaitingReported,
            CollaboratorCall::AssociateGroupWithMetadata(lot, source, group_identifier),
        ),
    }
}

/// Feeds the reply to the outstanding call into the machine and returns the
/// next state and action, exactly as `spec_step` describes.
pub fn dispatch_step(s: DispatchState, reply: CallReply) -> (r: (DispatchState, DispatchAction))
    requires
        state_inv(s),
    ensures
        r == spec_step(s, reply),
        state_inv(r.0),
{
    match s {
        DispatchState::AwaitingReported => match reply {
            CallReply::Status(b) => (DispatchState::Finished, DispatchAction::Complete(b)),
            _ => (DispatchState::Finished, DispatchAction::Abort),
        },
        DispatchState::AwaitingFirstSetup(user_id) => match reply {
            CallReply::Status(_) => (
                DispatchState::AwaitingSecondSetup(user_id),
                DispatchAction::Invoke(CollaboratorCall::UserCreatedJob(user_id)),
            ),
            _ => (DispatchState::Finished, DispatchAction::Abort),
        },
        DispatchState::AwaitingSecondSetup(user_id) => match reply {
            CallReply::Status(_) => (
                DispatchState::AwaitingSummary,
                DispatchAction::Invoke(CollaboratorCall::CalculateUserSummary(user_id, true)),
            ),
            _ => (DispatchState::Finished, DispatchAction::Abort),
        },
        DispatchState::AwaitingSummary => match reply {
            CallReply::Status(b) => (DispatchState::Finished, DispatchAction::Complete(b)),
            _ => (DispatchState::Finished, DispatchAction::Abort),
        },
        DispatchState::AwaitingRefresh(metadata_id) => match reply {
            CallReply::Notifications(Some(notifications)) => {
                if notifications.len() == 0 {
                    (DispatchState::Finished, DispatchAction::Complete(true))
                } else {
                    (
                        DispatchState::AwaitingSubscribers {
                            metadata_id,
                            notifications,
                            current: 0,
                        },
                        DispatchAction::Invoke(
                            CollaboratorCall::UsersToBeNotifiedForStateChanges(metadata_id),
                        ),
                    )
                }
            },
            _ => (DispatchState::Finished, DispatchAction::Abort),
        },
        DispatchState::AwaitingSubscribers { metadata_id, notifications, current } => match reply {
            CallReply::Subscribers(Some(subscribers)) => {
                let notification_count = notifications.len();
                if subscribers.len() > 0 {
                    let user_id = subscribers[0];
                    let notification = notifications[current].clone();
                    (
                        DispatchState::AwaitingDelivery {
                            metadata_id,
                            notifications,
                            current,
                            subscribers,
                            next_user: 0,
                        },
                        DispatchAction::Invoke(
                            CollaboratorCall::SendMediaStateChangedNotificationForUser(
                                user_id,
                                notification,
                            ),
                        ),
                    )
                } else if current + 1 < notification_count {
                    (
                        DispatchState::AwaitingSubscribers {
                            metadata_id,
                            notifications,
                            current: current + 1,
                        },
                        DispatchAction::Invoke(
                            CollaboratorCall::UsersToBeNotifiedForStateChanges(metadata_id),
                        ),
                    )
                } else {
                    (DispatchState::Finished, DispatchAction::Complete(true))
                }
            },
            _ => (DispatchState::Finished, DispatchAction::Abort),
        },
        DispatchState::AwaitingDelivery {
            metadata_id,
            notifications,
            current,
            subscribers,
            next_user,
        } => match reply {
            CallReply::Status(_) => {
                let subscriber_count = subscribers.len();
                let notification_count = notifications.len();
                if next_user + 1 < subscriber_count {
                    let user_id = subscribers[next_user + 1];
                    let notification = notifications[current].clone();
                    (
                        DispatchState::AwaitingDelivery {
                            metadata_id,
                            notifications,
                            current,
                            subscribers,
                            next_user: next_user + 1,
                        },
                        DispatchAction::Invoke(
                            CollaboratorCall::SendMediaStateChangedNotificationForUser(
                                user_id,
                                notification,
                            ),
                        ),
                    )
                } else if current + 1 < notification_count {
                    (
                        DispatchState::AwaitingSubscribers {
                            metadata_id,
                            notifications,
                            current: current + 1,
                        },
                        DispatchAction::Invoke(
                            CollaboratorCall::UsersToBeNotifiedForStateChanges(metadata_id),
                        ),
                    )
                } else {
                    (DispatchState::Finished, DispatchAction::Complete(true))
                }
            },
            _ => (DispatchState::Finished, DispatchAction::Abort),
        },
        DispatchState::Finished => (DispatchState::Finished, DispatchAction::Abort),
    }
}

/// The calls a run makes from a state, and how it ends, when the outstanding
/// call's reply and every later one are taken from `replies` in order.
pub open spec fn spec_run_from(s: DispatchState, replies: Seq<CallReply>) -> (
    Seq<CollaboratorCall>,
    RunResult,
)
    decreases replies.len(),
{
    if replies.len() == 0 {
        (Seq::<CollaboratorCall>::empty(), RunResult::OutOfReplies)
    } else {
        let step = spec_step(s, replies[0]);
        match step.1 {
            DispatchAction::Invoke(call) => {
                let rest = spec_run_from(step.0, replies.drop_first());
                (seq![call] + rest.0, rest.1)
            },
            DispatchAction::Complete(success) => (
                Seq::<CollaboratorCall>::empty(),
                RunResult::Completed(success),
            ),
            DispatchAction::Abort => (Seq::<CollaboratorCall>::empty(), RunResult::Aborted),
        }
    }
}

/// Every collaborator call a dispatch of `job` makes, in order, and how it
/// ends, when reply `i` answers call `i`.
pub open spec fn spec_run(job: ApplicationJob, replies: Seq<CallReply>) -> (
    Seq<CollaboratorCall>,
    RunResult,
)
{
    let start = spec_start(job);
    let rest = spec_run_from(start.0, replies);
    (seq![start.1] + rest.0, rest.1)
}

/// The outcome of one dispatch: the job's name, every collaborator call it
/// made, in order, and how the execution ended. The elapsed duration is
/// measured and logged by the surrounding process.
pub struct DispatchReport {
    pub name: String,
    pub calls: Vec<CollaboratorCall>,
    pub result: RunResult,
}

/// Dispatches one application job against a given sequence of collaborator
/// replies, where reply `i` answers call `i`. The report is a function of the
/// job and the replies alone — no state is shared with any other dispatch, so
/// concurrent executions cannot interfere with each other's outcome.
#[verifier::loop_isolation(false)]
pub fn perform_application_job(job: ApplicationJob, replies: Vec<CallReply>) -> (r: DispatchReport)
    ensures
        r.name@ == job.name_spec(),
        r.calls@ == spec_run(job, replies@).0,
        r.result == spec_run(job, replies@).1,
{
    let ghost all_replies = replies@;
    let name = job.name();
    let ghost job_snapshot = job;
    let mut remaining = replies;
    let (start_state, first_call) = dispatch_start(job);
    let mut state = start_state;
    let mut calls: Vec<CollaboratorCall> = Vec::new();
    calls.push(first_call);
    assert(calls@ =~= seq![spec_start(job_snapshot).1]);
    loop
        invariant
            state_inv(state),
            name@ == job_snapshot.name_spec(),
            spec_run(job_snapshot, all_replies).0 =~= calls@ + spec_run_from(
                state,
                remaining@,
            ).0,
            spec_run(job_snapshot, all_replies).1 == spec_run_from(state, remaining@).1,
        decreases remaining@.len(),
    {
        if remaining.len() == 0 {
            assert(calls@ + spec_run_from(state, remaining@).0 =~= calls@);
            return DispatchReport { name, calls, result: RunResult::OutOfReplies };
        }
        let ghost replies_before = remaining@;
        let ghost prev_state = state;
        let reply = remaining.remove(0);
        assert(replies_before.drop_first() =~= remaining@);
        let (next_state, action) = dispatch_step(state, reply);
        state = next_state;
        match action {
            DispatchAction::Invoke(call) => {
                let ghost calls_before = calls@;
                calls.push(call);
                proof {
                    assert(spec_run_from(prev_state, replies_before).0 =~= seq![call]
                        + spec_run_from(state, remaining@).0);
                    assert(calls_before + spec_run_from(prev_state, replies_before).0 =~= calls@
                        + spec_run_from(state, remaining@).0);
                }
            },
            DispatchAction::Complete(success) => {
                proof {
                    assert(spec_run_from(prev_state, replies_before).0
                        =~= Seq::<CollaboratorCall>::empty());
                    assert(calls@ + spec_run_from(prev_state, replies_before).0 =~= calls@);
                }
                return DispatchReport { name, calls, result: RunResult::Completed(success) };
            },
            DispatchAction::Abort => {
                proof {
                    assert(spec_run_from(prev_state, replies_before).0
                        =~= Seq::<CollaboratorCall>::empty());
                    assert(calls@ + spec_run_from(prev_state, replies_before).0 =~= calls@);
                }
                return DispatchReport { name, calls, result: RunResult::Aborted };
            },
        }
    }
}

} // verus!

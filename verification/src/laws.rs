//! The dispatcher's laws: for every variant, the dispatch makes exactly the
//! collaborator calls documented for that variant, in order, and reduces
//! their outcomes to the documented success flag. Each law quantifies over
//! all payloads and all collaborator replies of the right shape.

use vstd::prelude::*;

use crate::dispatch::{
    CallReply, CollaboratorCall, DispatchAction, DispatchState, RunResult, spec_run,
    spec_run_from, spec_start, spec_step,
};
use crate::jobs::{ApplicationJob, MetadataRecord};

verus! {

/// A variant handled by a single collaborator call whose status is the
/// reported outcome.
pub open spec fn is_single_call_variant(job: ApplicationJob) -> bool {
    match job {
        ApplicationJob::ImportFromExternalSource(_, _) => true,
        ApplicationJob::RecalculateUserSummary(_) => true,
        ApplicationJob::UpdateExerciseJob(_) => true,
        ApplicationJob::BulkProgressUpdate(_, _) => true,
        ApplicationJob::RecalculateCalendarEvents => true,
        ApplicationJob::AssociatePersonWithMetadata(_, _, _) => true,
        ApplicationJob::AssociateGroupWithMetadata(_, _, _) => true,
        ApplicationJob::UserCreated(_) => false,
        ApplicationJob::UpdateMetadata(_) => false,
    }
}

/// Law: a single-call variant's dispatch invokes exactly the one collaborator
/// call its variant is documented with — and none of any other variant's —
/// and reports that call's status as the outcome.
pub proof fn lemma_single_call_dispatch(job: ApplicationJob, replies: Seq<CallReply>)
    requires
        is_single_call_variant(job),
        replies.len() >= 1,
        replies[0] is Status,
    ensures
        spec_run(job, replies).0 =~= seq![spec_start(job).1],
        spec_run(job, replies).1 == RunResult::Completed(replies[0].status_spec()),
{
    let start = spec_start(job);
    assert(start.0 == DispatchState::AwaitingReported);
    assert(spec_run_from(start.0, replies).0 =~= Seq::<CollaboratorCall>::empty());
}

/// Law: `UserCreated` issues the post-registration setup call twice, with the
/// same user id both times, then exactly one summary recalculation; the
/// summary call's status alone is the reported outcome — both setup replies
/// are ignored.
pub proof fn lemma_user_created_dispatch(user_id: i32, replies: Seq<CallReply>)
    requires
        replies.len() >= 3,
        replies[0] is Status,
        replies[1] is Status,
        replies[2] is Status,
    ensures
        spec_run(ApplicationJob::UserCreated(user_id), replies).0 =~= seq![
            CollaboratorCall::UserCreatedJob(user_id),
            CollaboratorCall::UserCreatedJob(user_id),
            CollaboratorCall::CalculateUserSummary(user_id, true),
        ],
        spec_run(ApplicationJob::UserCreated(user_id), replies).1 == RunResult::Completed(
            replies[2].status_spec(),
        ),
{
    let after_first = replies.drop_first();
    let after_second = after_first.drop_first();
    assert(after_first[0] == replies[1]);
    assert(after_second[0] == replies[2]);
    assert(spec_run_from(DispatchState::AwaitingSummary, after_second).0
        =~= Seq::<CollaboratorCall>::empty());
    assert(spec_run_from(DispatchState::AwaitingSecondSetup(user_id), after_first).0 =~= seq![
        CollaboratorCall::CalculateUserSummary(user_id, true),
    ]);
    assert(spec_run_from(DispatchState::AwaitingFirstSetup(user_id), replies).0 =~= seq![
        CollaboratorCall::UserCreatedJob(user_id),
        CollaboratorCall::CalculateUserSummary(user_id, true),
    ]);
}

/// Law: when the primary metadata refresh fails, the dispatch aborts at once:
/// beyond the refresh itself, no call is made — in particular no subscriber
/// resolution and no delivery is attempted.
pub proof fn lemma_update_metadata_refresh_failure(
    metadata: MetadataRecord,
    replies: Seq<CallReply>,
)
    requires
        replies.len() >= 1,
        replies[0] == CallReply::Notifications(None::<Vec<String>>),
    ensures
        spec_run(ApplicationJob::UpdateMetadata(metadata), replies).0 =~= seq![
            CollaboratorCall::UpdateMetadata(metadata.id),
        ],
        spec_run(ApplicationJob::UpdateMetadata(metadata), replies).1 == RunResult::Aborted,
{
    assert(spec_run_from(DispatchState::AwaitingRefresh(metadata.id), replies).0
        =~= Seq::<CollaboratorCall>::empty());
}

/// The states of the `UpdateMetadata` fan-out.
pub open spec fn in_metadata_phase(s: DispatchState) -> bool {
    s is AwaitingRefresh || s is AwaitingSubscribers || s is AwaitingDelivery
}

proof fn lemma_metadata_phase_never_reports_failure(s: DispatchState, replies: Seq<CallReply>)
    requires
        in_metadata_phase(s),
    ensures
        spec_run_from(s, replies).1 matches RunResult::Completed(success) ==> success,
    decreases replies.len(),
{
    if replies.len() > 0 {
        let step = spec_step(s, replies[0]);
        if step.1 is Invoke {
            assert(in_metadata_phase(step.0));
            lemma_metadata_phase_never_reports_failure(step.0, replies.drop_first());
        }
    }
}

/// Law: once the primary refresh has succeeded, nothing can make an
/// `UpdateMetadata` dispatch report failure: whatever any delivery or
/// subscriber reply holds, a completed run's success flag is `true`.
pub proof fn lemma_update_metadata_outcome_always_success(
    metadata: MetadataRecord,
    replies: Seq<CallReply>,
)
    ensures
        spec_run(ApplicationJob::UpdateMetadata(metadata), replies).1 matches
            RunResult::Completed(success) ==> success,
{
    lemma_metadata_phase_never_reports_failure(
        DispatchState::AwaitingRefresh(metadata.id),
        replies,
    );
}

/// The delivery calls for one notification: one send per subscriber, in
/// subscriber order.
pub open spec fn delivery_calls(note: String, subscribers: Seq<i32>) -> Seq<CollaboratorCall>
    decreases subscribers.len(),
{
    if subscribers.len() == 0 {
        Seq::<CollaboratorCall>::empty()
    } else {
        seq![
            CollaboratorCall::SendMediaStateChangedNotificationForUser(subscribers[0], note),
        ] + delivery_calls(note, subscribers.drop_first())
    }
}

/// Status replies, one per delivery attempt.
pub open spec fn status_replies(statuses: Seq<bool>) -> Seq<CallReply>
    decreases statuses.len(),
{
    if statuses.len() == 0 {
        Seq::<CallReply>::empty()
    } else {
        seq![CallReply::Status(statuses[0])] + status_replies(statuses.drop_first())
    }
}

/// The replies that drive the fan-out: for each notification, one subscriber
/// resolution, then one delivery status per resolved subscriber.
pub open spec fn fanout_replies(subscribers: Seq<Vec<i32>>, deliveries: Seq<Seq<bool>>) -> Seq<
    CallReply,
>
    decreases subscribers.len(),
{
    if subscribers.len() == 0 {
        Seq::<CallReply>::empty()
    } else {
        seq![CallReply::Subscribers(Some(subscribers[0]))] + status_replies(deliveries[0])
            + fanout_replies(subscribers.drop_first(), deliveries.drop_first())
    }
}

/// The calls the fan-out makes: for each notification, one subscriber
/// resolution and one delivery per resolved subscriber, in order.
pub open spec fn fanout_calls(
    metadata_id: i32,
    notes: Seq<String>,
    subscribers: Seq<Vec<i32>>,
) -> Seq<CollaboratorCall>
    decreases subscribers.len(),
{
    if subscribers.len() == 0 {
        Seq::<CollaboratorCall>::empty()
    } else {
        seq![CollaboratorCall::UsersToBeNotifiedForStateChanges(metadata_id)] + delivery_calls(
            notes[0],
            subscribers[0]@,
        ) + fanout_calls(metadata_id, notes.drop_first(), subscribers.drop_first())
    }
}

proof fn lemma_delivery_run(
    metadata_id: i32,
    notifications: Vec<String>,
    current: usize,
    subscribers: Vec<i32>,
    next_user: usize,
    statuses: Seq<bool>,
    more: Seq<CallReply>,
)
    requires
        notifications@.len() <= usize::MAX,
        subscribers@.len() <= usize::MAX,
        current < notifications@.len(),
        next_user < subscribers@.len(),
        statuses.len() == subscribers@.len() - next_user,
    ensures
        ({
            let state = DispatchState::AwaitingDelivery {
                metadata_id,
                notifications,
                current,
                subscribers,
                next_user,
            };
            let run = spec_run_from(state, status_replies(statuses) + more);
            let sends = delivery_calls(
                notifications@[current as int],
                subscribers@.skip(next_user + 1),
            );
            if current + 1 < notifications@.len() {
                let cont = spec_run_from(
                    DispatchState::AwaitingSubscribers {
                        metadata_id,
                        notifications,
                        current: (current + 1) as usize,
                    },
                    more,
                );
                run.0 =~= sends + seq![
                    CollaboratorCall::UsersToBeNotifiedForStateChanges(metadata_id),
                ] + cont.0 && run.1 == cont.1
            } else {
                run.0 =~= sends && run.1 == RunResult::Completed(true)
            }
        }),
    decreases statuses.len(),
{
    let state = DispatchState::AwaitingDelivery {
        metadata_id,
        notifications,
        current,
        subscribers,
        next_user,
    };
    let replies = status_replies(statuses) + more;
    assert(replies[0] == CallReply::Status(statuses[0]));
    assert(replies.drop_first() =~= status_replies(statuses.drop_first()) + more);
    let step = spec_step(state, replies[0]);
    if statuses.len() == 1 {
        assert(next_user + 1 == subscribers@.len());
        assert(subscribers@.skip(next_user + 1) =~= Seq::<i32>::empty());
        if current + 1 < notifications@.len() {
            assert(statuses.drop_first() =~= Seq::<bool>::empty());
            assert(status_replies(statuses.drop_first()) =~= Seq::<CallReply>::empty());
            assert(replies.drop_first() =~= more);
            assert(spec_run_from(state, replies).0 =~= seq![
                CollaboratorCall::UsersToBeNotifiedForStateChanges(metadata_id),
            ] + spec_run_from(step.0, more).0);
        } else {
            assert(step.1 == DispatchAction::Complete(true));
        }
    } else {
        assert(next_user + 1 < subscribers@.len());
        let next_state = DispatchState::AwaitingDelivery {
            metadata_id,
            notifications,
            current,
            subscribers,
            next_user: (next_user + 1) as usize,
        };
        assert(step.0 == next_state);
        lemma_delivery_run(
            metadata_id,
            notifications,
            current,
            subscribers,
            (next_user + 1) as usize,
            statuses.drop_first(),
            more,
        );
        assert(subscribers@.skip(next_user + 1) =~= seq![subscribers@[next_user + 1]]
            + subscribers@.skip(next_user + 2));
        assert(subscribers@.skip(next_user + 1)[0] == subscribers@[next_user + 1]);
        assert(subscribers@.skip(next_user + 1).drop_first() =~= subscribers@.skip(
            next_user + 2,
        ));
        assert(delivery_calls(notifications@[current as int], subscribers@.skip(next_user + 1))
            =~= seq![
            CollaboratorCall::SendMediaStateChangedNotificationForUser(
                subscribers@[next_user + 1],
                notifications@[current as int],
            ),
        ] + delivery_calls(notifications@[current as int], subscribers@.skip(next_user + 2)));
    }
}

proof fn lemma_fanout_run(
    metadata_id: i32,
    notifications: Vec<String>,
    current: usize,
    subscribers: Seq<Vec<i32>>,
    deliveries: Seq<Seq<bool>>,
)
    requires
        notifications@.len() <= usize::MAX,
        current < notifications@.len(),
        subscribers.len() == notifications@.len() - current,
        deliveries.len() == subscribers.len(),
        forall|i: int| 0 <= i < subscribers.len() ==> subscribers[i]@.len() <= usize::MAX,
        forall|i: int| 0 <= i < deliveries.len() ==> deliveries[i].len() == subscribers[i]@.len(),
    ensures
        ({
            let state = DispatchState::AwaitingSubscribers { metadata_id, notifications, current };
            let run = spec_run_from(state, fanout_replies(subscribers, deliveries));
            run.0 =~= fanout_calls(
                metadata_id,
                notifications@.skip(current as int),
                subscribers,
            ).drop_first() && run.1 == RunResult::Completed(true)
        }),
    decreases subscribers.len(),
{
    let state = DispatchState::AwaitingSubscribers { metadata_id, notifications, current };
    let replies = fanout_replies(subscribers, deliveries);
    let note = notifications@[current as int];
    assert(notifications@.skip(current as int)[0] == note);
    assert(notifications@.skip(current as int).drop_first() =~= notifications@.skip(
        current as int + 1,
    ));
    assert(replies[0] == CallReply::Subscribers(Some(subscribers[0])));
    assert(replies.drop_first() =~= status_replies(deliveries[0]) + fanout_replies(
        subscribers.drop_first(),
        deliveries.drop_first(),
    ));
    let step = spec_step(state, replies[0]);
    let first_subs = subscribers[0];
    if first_subs@.len() > 0 {
        let delivery_state = DispatchState::AwaitingDelivery {
            metadata_id,
            notifications,
            current,
            subscribers: first_subs,
            next_user: 0,
        };
        assert(step.0 == delivery_state);
        assert(step.1 == DispatchAction::Invoke(
            CollaboratorCall::SendMediaStateChangedNotificationForUser(first_subs@[0], note),
        ));
        lemma_delivery_run(
            metadata_id,
            notifications,
            current,
            first_subs,
            0,
            deliveries[0],
            fanout_replies(subscribers.drop_first(), deliveries.drop_first()),
        );
        assert(first_subs@.skip(1) =~= first_subs@.drop_first());
        assert(delivery_calls(note, first_subs@) =~= seq![
            CollaboratorCall::SendMediaStateChangedNotificationForUser(first_subs@[0], note),
        ] + delivery_calls(note, first_subs@.skip(1)));
        if current + 1 < notifications@.len() {
            lemma_fanout_run(
                metadata_id,
                notifications,
                (current + 1) as usize,
                subscribers.drop_first(),
                deliveries.drop_first(),
            );
            assert(fanout_calls(metadata_id, notifications@.skip(current as int), subscribers)
                =~= seq![CollaboratorCall::UsersToBeNotifiedForStateChanges(metadata_id)]
                + delivery_calls(note, first_subs@) + fanout_calls(
                metadata_id,
                notifications@.skip(current as int + 1),
                subscribers.drop_first(),
            ));
        } else {
            assert(subscribers.drop_first().len() == 0);
            assert(fanout_calls(
                metadata_id,
                notifications@.skip(current as int + 1),
                subscribers.drop_first(),
            ) =~= Seq::<CollaboratorCall>::empty());
        }
    } else {
        assert(delivery_calls(note, first_subs@) =~= Seq::<CollaboratorCall>::empty());
        assert(deliveries[0] =~= Seq::<bool>::empty());
        assert(status_replies(deliveries[0]) =~= Seq::<CallReply>::empty());
        assert(replies.drop_first() =~= fanout_replies(
            subscribers.drop_first(),
            deliveries.drop_first(),
        ));
        if current + 1 < notifications@.len() {
            lemma_fanout_run(
                metadata_id,
                notifications,
                (current + 1) as usize,
                subscribers.drop_first(),
                deliveries.drop_first(),
            );
        } else {
            assert(step.1 == DispatchAction::Complete(true));
            assert(subscribers.drop_first().len() == 0);
        }
    }
}

/// Law: when the primary refresh succeeds and returns notifications, the
/// dispatch resolves the subscriber list once per notification and attempts
/// delivery to every resolved subscriber of every notification, in order —
/// for uniform subscriber lists, notification-count times subscriber-count
/// attempts — and completes successfully whatever each individual delivery
/// replied: any subset of deliveries may fail without changing the outcome.
pub proof fn lemma_update_metadata_fanout(
    metadata: MetadataRecord,
    notifications: Vec<String>,
    subscribers: Seq<Vec<i32>>,
    deliveries: Seq<Seq<bool>>,
)
    requires
        notifications@.len() <= usize::MAX,
        notifications@.len() > 0,
        subscribers.len() == notifications@.len(),
        deliveries.len() == subscribers.len(),
        forall|i: int| 0 <= i < subscribers.len() ==> subscribers[i]@.len() <= usize::MAX,
        forall|i: int| 0 <= i < deliveries.len() ==> deliveries[i].len() == subscribers[i]@.len(),
    ensures
        ({
            let replies = seq![CallReply::Notifications(Some(notifications))] + fanout_replies(
                subscribers,
                deliveries,
            );
            let run = spec_run(ApplicationJob::UpdateMetadata(metadata), replies);
            run.0 =~= seq![CollaboratorCall::UpdateMetadata(metadata.id)] + fanout_calls(
                metadata.id,
                notifications@,
                subscribers,
            ) && run.1 == RunResult::Completed(true)
        }),
{
    let replies = seq![CallReply::Notifications(Some(notifications))] + fanout_replies(
        subscribers,
        deliveries,
    );
    let refresh_state = DispatchState::AwaitingRefresh(metadata.id);
    assert(replies[0] == CallReply::Notifications(Some(notifications)));
    assert(replies.drop_first() =~= fanout_replies(subscribers, deliveries));
    let step = spec_step(refresh_state, replies[0]);
    let subscriber_state = DispatchState::AwaitingSubscribers {
        metadata_id: metadata.id,
        notifications,
        current: 0,
    };
    assert(step.0 == subscriber_state);
    lemma_fanout_run(metadata.id, notifications, 0, subscribers, deliveries);
    assert(notifications@.skip(0) =~= notifications@);
    assert(fanout_calls(metadata.id, notifications@, subscribers) =~= seq![
        CollaboratorCall::UsersToBeNotifiedForStateChanges(metadata.id),
    ] + fanout_calls(metadata.id, notifications@, subscribers).drop_first());
}

} // verus!

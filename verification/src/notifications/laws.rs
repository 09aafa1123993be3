//! Who hears what of a session, and when.

use crate::decimal::{decimal_text, signed_text};
use crate::identity::{hyphenated, uuid_v5};
use crate::notifications::consumer::{
    backoff_delay, backoff_power, consumer_expects, consumer_stepped, delivers,
    saturated, ConsumerActionView, ConsumerEvent, ConsumerView, Delivery,
};
use crate::notifications::plan::{
    audience_of, law_the_audience_begins_with_the_owner, plan_of, requests, Action, ActionView,
    EntityType, EntityView, Notify, RefView, SendNotificationRequest, NOTIFICATION_ID_NAMESPACE,
};
use crate::sessions::events::{
    AgentSessionLifecycleEvent, SessionIdentity, SessionMentionedMetadata, SessionSettledMetadata,
    WaitingForInputMetadata,
};
use crate::sessions::model::{first_occurrences, law_first_occurrences};
use crate::text::Text;
use vstd::prelude::*;

verus! {

/// Whether a notification is filed under its session's place: the channel with
/// the thread's root beside it where the session was opened from a thread, and
/// the session itself otherwise.
pub open spec fn is_filed_for(
    entity: EntityView,
    secondary: Option<EntityView>,
    identity: SessionIdentity,
) -> bool {
    match identity.origin {
        Some(origin) => {
            &&& entity.entity_type == EntityType::Channel
            &&& entity.entity_id == hyphenated(origin.channel_id)
            &&& secondary is Some
            &&& secondary->0.entity_type == EntityType::ChannelMessage
            &&& secondary->0.entity_id == hyphenated(origin.thread_id)
        },
        None => {
            &&& entity.entity_type == EntityType::AgentSession
            &&& entity.entity_id == hyphenated(identity.session_id.value)
            &&& secondary is None
        },
    }
}

/// Whether a notification refers to its session: by its id and its name, its
/// bot, and where it was opened from.
pub open spec fn refers_to(
    session: RefView,
    identity: SessionIdentity,
    announcement: Option<u128>,
) -> bool {
    &&& session.session_id == identity.session_id.value
    &&& session.session_name == identity.session_name@
    &&& session.bot_id == identity.bot_id.value
    &&& session.bot_name == identity.bot_name@
    &&& identity.origin is None ==> session.channel_id is None && session.thread_id is None
    &&& identity.origin matches Some(origin) ==> session.channel_id == Some(origin.channel_id)
        && session.thread_id == Some(origin.thread_id)
    &&& session.announcement_message_id == announcement
}

/// The id of a notification about a turn, of some kind.
pub open spec fn turn_notification(session: u128, turn: u32, kind: Text) -> u128 {
    uuid_v5(
        NOTIFICATION_ID_NAMESPACE,
        hyphenated(session) + ":"@ + decimal_text(turn as nat) + ":"@ + kind,
    )
}

/// A settled session tells its whole audience, owner first, once, of the turn
/// that finished: which, by whom, why it ended, and the end of the answer.
/// Without the turn's record there is nothing to tell.
pub proof fn law_a_settled_session_tells_its_audience(settled: SessionSettledMetadata)
    ensures
        ({
            let plan = plan_of(AgentSessionLifecycleEvent::Settled(settled));
            match settled.last_turn {
                None => plan.len() == 0,
                Some(turn) => {
                    &&& plan.len() == 1
                    &&& plan[0] is Settled
                    &&& {
                        let notify = plan[0]->Settled_0;
                        &&& notify.notification_id == turn_notification(
                            settled.identity.session_id.value,
                            turn.turn.0,
                            "agent_session_settled"@,
                        )
                        &&& is_filed_for(notify.entity, notify.secondary_entity, settled.identity)
                        &&& notify.recipients.len() > 0
                        &&& notify.recipients[0] == settled.identity.owner_id.deep_view()
                        &&& forall|user: Text| #[trigger]
                            notify.recipients.contains(user) <==> user
                                == settled.identity.owner_id.deep_view()
                                || settled.identity.audience.deep_view().contains(user)
                        &&& notify.recipients.no_duplicates()
                        &&& refers_to(
                            notify.metadata.session,
                            settled.identity,
                            turn.announcement_message_id,
                        )
                        &&& notify.metadata.turn == turn.turn.0
                        &&& notify.metadata.actor == turn.actor.deep_view()
                        &&& notify.metadata.stop_reason == turn.stop_reason@
                        &&& notify.metadata.excerpt == turn.excerpt.deep_view()
                    }
                },
            }
        }),
{
    law_the_audience_begins_with_the_owner(settled.identity);
}

/// A waiting session tells its owner, and nobody else, what it asks and in
/// which turn.
pub proof fn law_a_waiting_session_tells_its_owner(waiting: WaitingForInputMetadata)
    ensures
        ({
            let plan = plan_of(AgentSessionLifecycleEvent::WaitingForInput(waiting));
            &&& plan.len() == 1
            &&& plan[0] is WaitingForInput
            &&& {
                let notify = plan[0]->WaitingForInput_0;
                &&& notify.notification_id == turn_notification(
                    waiting.identity.session_id.value,
                    waiting.turn.0,
                    "agent_session_waiting_for_input"@,
                )
                &&& is_filed_for(notify.entity, notify.secondary_entity, waiting.identity)
                &&& notify.recipients.len() == 1
                &&& notify.recipients[0] == waiting.identity.owner_id.deep_view()
                &&& refers_to(
                    notify.metadata.session,
                    waiting.identity,
                    waiting.announcement_message_id,
                )
                &&& notify.metadata.turn == waiting.turn.0
                &&& notify.metadata.question == waiting.question@
            }
        }),
{
}

/// A mention tells exactly those it names, each once, who wrote the prompt and
/// which it was; one that names nobody tells nobody.
pub proof fn law_a_mention_tells_those_it_names(mentioned: SessionMentionedMetadata)
    ensures
        ({
            let plan = plan_of(AgentSessionLifecycleEvent::Mentioned(mentioned));
            if mentioned.mentioned@.len() == 0 {
                plan.len() == 0
            } else {
                &&& plan.len() == 1
                &&& plan[0] is Mentioned
                &&& {
                    let notify = plan[0]->Mentioned_0;
                    &&& notify.notification_id == uuid_v5(
                        NOTIFICATION_ID_NAMESPACE,
                        hyphenated(mentioned.identity.session_id.value) + ":"@ + hyphenated(
                            mentioned.action_id.value,
                        ) + ":"@ + "agent_session_mentioned"@,
                    )
                    &&& is_filed_for(notify.entity, notify.secondary_entity, mentioned.identity)
                    &&& notify.recipients.no_duplicates()
                    &&& forall|user: Text| #[trigger]
                        notify.recipients.contains(user)
                            <==> mentioned.mentioned.deep_view().contains(user)
                    &&& refers_to(notify.metadata.session, mentioned.identity, None)
                    &&& notify.metadata.mentioned_by == mentioned.mentioned_by.deep_view()
                    &&& notify.metadata.action_id == mentioned.action_id.value
                }
            }
        }),
{
    law_first_occurrences(mentioned.mentioned.deep_view());
}

/// What a new turn, and an answer, retract: the notification of the turn
/// before, for everyone who heard it, each once; the question's, for the owner.
/// The first turn retracts nothing, and nothing else on the topic tells or
/// retracts anything.
pub proof fn law_what_is_retracted(event: AgentSessionLifecycleEvent)
    ensures
        match event {
            AgentSessionLifecycleEvent::TurnStarted(started) => {
                &&& started.turn.0 == 0 ==> plan_of(event).len() == 0
                &&& started.turn.0 > 0 ==> {
                    &&& plan_of(event).len() == audience_of(started.identity).len()
                    &&& forall|i: int|
                        0 <= i < plan_of(event).len() ==> #[trigger] plan_of(event)[i]
                            == (ActionView::MarkDone {
                            user: audience_of(started.identity)[i],
                            notification_id: turn_notification(
                                started.identity.session_id.value,
                                (started.turn.0 - 1) as u32,
                                "agent_session_settled"@,
                            ),
                        })
                }
            },
            AgentSessionLifecycleEvent::InputReceived(received) => {
                &&& plan_of(event).len() == 1
                &&& plan_of(event)[0] == (ActionView::MarkDone {
                    user: received.identity.owner_id.deep_view(),
                    notification_id: turn_notification(
                        received.identity.session_id.value,
                        received.turn.0,
                        "agent_session_waiting_for_input"@,
                    ),
                })
            },
            AgentSessionLifecycleEvent::Settled(_) => true,
            AgentSessionLifecycleEvent::WaitingForInput(_) => true,
            AgentSessionLifecycleEvent::Mentioned(_) => true,
            _ => plan_of(event).len() == 0,
        },
{
}

/// A notification is requested as it was planned: under its id, about its
/// entity, with its payload, for its recipients and nobody else, on the phone
/// and in the browser, and from nobody, so that nobody is left out as its
/// sender.
pub proof fn law_a_notification_is_requested_as_planned<Metadata>(
    request: SendNotificationRequest<Metadata>,
    notify: Notify<Metadata>,
)
    requires
        requests(request, notify),
    ensures
        request.uuid_to_write == notify.notification_id,
        request.notification_entity == notify.entity,
        request.secondary_notification_entity == notify.secondary_entity,
        request.notification == notify.metadata,
        request.sender_id is None,
        request.send_apns,
        request.send_conn_gateway,
        request.recipient_ids.deep_view().no_duplicates(),
        forall|user: Text| #[trigger]
            request.recipient_ids.deep_view().contains(user)
                <==> notify.recipients.deep_view().contains(user),
        notify.recipients.deep_view().no_duplicates() ==> request.recipient_ids.deep_view()
            == notify.recipients.deep_view(),
{
    law_first_occurrences(notify.recipients.deep_view());
    if notify.recipients.deep_view().no_duplicates() {
        lemma_distinct_stay(notify.recipients.deep_view());
    }
}

proof fn lemma_distinct_stay(items: Seq<Text>)
    requires
        items.no_duplicates(),
    ensures
        first_occurrences(items) == items,
    decreases items.len(),
{
    if items.len() > 0 {
        let rest = items.drop_last();
        assert(rest.no_duplicates());
        lemma_distinct_stay(rest);
        if rest.contains(items.last()) {
            let i = rest.index_of(items.last());
            assert(items[i] == items[items.len() - 1]);
        }
        assert(rest.push(items.last()) =~= items);
    } else {
        assert(first_occurrences(items) =~= items);
    }
}

/// An action is delivered as the call of its own kind; marking done marks that
/// one notification, for that one user, and marks it done.
pub proof fn law_an_action_is_delivered_as_its_kind(delivery: Delivery, action: Action)
    requires
        delivers(delivery, action),
    ensures
        match action {
            Action::Settled(notify) => delivery is Settled && requests(
                delivery->Settled_0,
                notify,
            ),
            Action::WaitingForInput(notify) => delivery is WaitingForInput && requests(
                delivery->WaitingForInput_0,
                notify,
            ),
            Action::Mentioned(notify) => delivery is Mentioned && requests(
                delivery->Mentioned_0,
                notify,
            ),
            Action::MarkDone { user, notification_id } => {
                &&& delivery is Update
                &&& delivery->Update_0.user_id == user
                &&& delivery->Update_0.notification_ids@.len() == 1
                &&& delivery->Update_0.notification_ids@[0] == notification_id
                &&& delivery->Update_0.done
            },
        },
{
}

/// A fact's actions are those its plan holds, begun with the first and with no
/// failure counted; a fact without any is settled at once.
pub proof fn law_a_fact_is_carried_out_as_planned(
    event: AgentSessionLifecycleEvent,
    partition: i32,
    offset: i64,
)
    ensures
        ({
            let next = consumer_stepped(
                ConsumerView::Receiving,
                ConsumerEvent::Fact { event, partition, offset },
            );
            if plan_of(event).len() > 0 {
                &&& next.1 == ConsumerActionView::Deliver(plan_of(event)[0])
                &&& next.0 == (ConsumerView::Applying {
                    partition,
                    offset,
                    failed: 0,
                    actions: plan_of(event),
                    at: 0,
                })
            } else {
                &&& next.1 is CommitAndReceive
                &&& next.0 is Receiving
            }
        }),
{
}

/// An accepted action is followed by the next, and by the commit after the
/// last. A refused one is retried from the first after one second, then two,
/// four and eight; a fifth refusal ends the consumer with words that name the
/// record.
pub proof fn law_a_refused_action_is_retried(
    partition: i32,
    offset: i64,
    failed: usize,
    actions: Seq<ActionView>,
    at: nat,
)
    requires
        failed < 5,
        at < actions.len(),
    ensures
        ({
            let applying = ConsumerView::Applying { partition, offset, failed, actions, at };
            let accepted = consumer_stepped(applying, ConsumerEvent::Delivered { accepted: true });
            let refused = consumer_stepped(applying, ConsumerEvent::Delivered { accepted: false });
            &&& at + 1 < actions.len() ==> accepted.1 == ConsumerActionView::Deliver(
                actions[at as int + 1],
            ) && accepted.0 == (ConsumerView::Applying {
                partition,
                offset,
                failed,
                actions,
                at: at + 1,
            })
            &&& at + 1 == actions.len() ==> accepted.1 is CommitAndReceive && accepted.0
                is Receiving
            &&& failed == 0 ==> refused.1 == (ConsumerActionView::Sleep { millis: 1000 })
            &&& failed == 1 ==> refused.1 == (ConsumerActionView::Sleep { millis: 2000 })
            &&& failed == 2 ==> refused.1 == (ConsumerActionView::Sleep { millis: 4000 })
            &&& failed == 3 ==> refused.1 == (ConsumerActionView::Sleep { millis: 8000 })
            &&& failed < 4 ==> consumer_stepped(refused.0, ConsumerEvent::Slept) == (
                ConsumerView::Applying {
                    partition,
                    offset,
                    failed: (failed + 1) as usize,
                    actions,
                    at: 0,
                },
                ConsumerActionView::Deliver(actions[0]),
            )
            &&& failed == 4 ==> refused.0 is Stopped && refused.1 == ConsumerActionView::Exit(
                Err(
                    "agent session notification actions failed after "@ + decimal_text(5)
                        + " attempts (partition "@ + signed_text(partition as int) + " offset "@
                        + signed_text(offset as int) + ")"@,
                ),
            )
        }),
{
}

/// A consumer stops when told to, and successfully; a failed read is read
/// again, and a record nobody can read is skipped.
pub proof fn law_a_consumer_reads_on()
    ensures
        consumer_stepped(ConsumerView::Receiving, ConsumerEvent::Shutdown).1
            == ConsumerActionView::Exit(Ok(())),
        consumer_stepped(ConsumerView::Receiving, ConsumerEvent::ReceiveFailed) == (
            ConsumerView::Receiving,
            ConsumerActionView::Receive,
        ),
        consumer_stepped(ConsumerView::Receiving, ConsumerEvent::Undecodable) == (
            ConsumerView::Receiving,
            ConsumerActionView::CommitAndReceive,
        ),
{
}

/// Each delay is the base times the one before, and the first is the base times
/// the factor; none is past what the type holds.
pub proof fn law_delays_grow_by_the_base(base: u64, factor: u64, attempt: nat)
    ensures
        base * factor <= u64::MAX ==> backoff_delay(base, factor, 0) == base * factor,
        backoff_delay(base, factor, attempt) <= u64::MAX,
        backoff_delay(base, factor, attempt + 1) < u64::MAX && base > 0 && factor > 0
            ==> backoff_delay(base, factor, attempt + 1) == base * backoff_delay(
            base,
            factor,
            attempt,
        ),
{
    let power = backoff_power(base, attempt);
    let next = backoff_power(base, attempt + 1);
    assert(next == saturated(power * base as nat));
    if base > 0 && factor > 0 && backoff_delay(base, factor, attempt + 1) < u64::MAX {
        assert(next * factor as nat >= next) by (nonlinear_arith)
            requires
                factor > 0,
        ;
        assert(next < u64::MAX);
        assert(next == power * base as nat);
        assert(next * factor as nat == base as nat * (power * factor as nat)) by (nonlinear_arith)
            requires
                next == power * base as nat,
        ;
        assert(base as nat * (power * factor as nat) >= power * factor as nat) by (nonlinear_arith)
            requires
                base > 0,
        ;
    }
}

/// A settled notification is made of the fact's own words: whom it tells, what
/// it calls the session and its bot, why the turn ended, and the end of the
/// answer.
pub proof fn law_a_settled_notification_holds_the_facts_words(
    settled: SessionSettledMetadata,
    action: Action,
)
    requires
        settled.last_turn is Some,
        action.deep_view() == plan_of(AgentSessionLifecycleEvent::Settled(settled))[0],
    ensures
        action matches Action::Settled(notify) && {
            &&& notify.recipients.deep_view() == audience_of(settled.identity)
            &&& notify.metadata.session.session_id == settled.identity.session_id.value
            &&& notify.metadata.session.session_name@ == settled.identity.session_name@
            &&& notify.metadata.session.bot_id == settled.identity.bot_id.value
            &&& notify.metadata.session.bot_name@ == settled.identity.bot_name@
            &&& notify.metadata.turn == settled.last_turn->0.turn.0
            &&& notify.metadata.stop_reason@ == settled.last_turn->0.stop_reason@
            &&& notify.metadata.excerpt.deep_view() == settled.last_turn->0.excerpt.deep_view()
            &&& notify.metadata.actor.deep_view() == settled.last_turn->0.actor.deep_view()
        },
{
}

/// A question is told in the fact's own words, to the owner.
pub proof fn law_a_question_is_told_in_its_own_words(
    waiting: WaitingForInputMetadata,
    action: Action,
)
    requires
        action.deep_view() == plan_of(AgentSessionLifecycleEvent::WaitingForInput(waiting))[0],
    ensures
        action matches Action::WaitingForInput(notify) && {
            &&& notify.recipients@.len() == 1
            &&& notify.recipients@[0].deep_view() == waiting.identity.owner_id.deep_view()
            &&& notify.metadata.question@ == waiting.question@
            &&& notify.metadata.turn == waiting.turn.0
            &&& notify.metadata.session.session_id == waiting.identity.session_id.value
        },
{
    if let Action::WaitingForInput(notify) = action {
        assert(notify.recipients.deep_view().len() == notify.recipients@.len());
        assert(notify.recipients.deep_view()[0] == notify.recipients@[0].deep_view());
    }
}

/// What a consumer waits for: a record or a signal while it receives, an answer
/// while it delivers, the end of a pause while it pauses.
pub proof fn law_what_a_consumer_waits_for(consumer: ConsumerView, event: ConsumerEvent)
    ensures
        consumer is Stopped ==> !consumer_expects(consumer, event),
        consumer is Receiving ==> (consumer_expects(consumer, event) <==> !(event is Delivered)
            && !(event is Slept)),
        consumer is Applying ==> (consumer_expects(consumer, event) <==> event is Delivered),
        consumer is Pausing ==> (consumer_expects(consumer, event) <==> event is Slept),
{
}

} // verus!

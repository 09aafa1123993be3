//! Consuming lifecycle facts: retried, committed, or left for the next reader.

use agent_sessions::notifications::consumer::{
    after_failure, delivery, failure_context, retry_strategy, AfterFailure, Consumer,
    ConsumerAction, ConsumerEvent, Delivery, UpdateNotificationsRequest, MAX_ATTEMPTS,
};
use agent_sessions::notifications::plan::{plan, settled_notification_id, waiting_notification_id};
use agent_sessions::sessions::events::{
    AgentSessionLifecycleEvent, SessionIdentity, SessionRenamedMetadata, TurnStartedMetadata,
    WaitingForInputMetadata,
};
use agent_sessions::sessions::model::{AgentActionId, AgentSessionId, BotId, MacroUserId, TurnId};

fn identity() -> SessionIdentity {
    SessionIdentity {
        session_id: AgentSessionId::new_from_uuid(5),
        session_name: "s".to_owned(),
        bot_id: BotId { value: 1 },
        bot_name: "b".to_owned(),
        owner_id: MacroUserId::new("macro|o@macro.com"),
        origin: None,
        audience: Vec::new(),
    }
}

fn fact() -> AgentSessionLifecycleEvent {
    AgentSessionLifecycleEvent::TurnStarted(TurnStartedMetadata {
        identity: identity(),
        turn: TurnId(1),
        action_id: AgentActionId { value: 2 },
        actor: None,
        announcement_message_id: None,
    })
}

/// A fact with more than one person to tell.
fn crowded() -> AgentSessionLifecycleEvent {
    let audience = vec![MacroUserId::new("macro|a@macro.com")];
    AgentSessionLifecycleEvent::TurnStarted(TurnStartedMetadata {
        identity: SessionIdentity { audience, ..identity() },
        turn: TurnId(1),
        action_id: AgentActionId { value: 2 },
        actor: None,
        announcement_message_id: None,
    })
}

#[test]
fn delays_double_from_one_second() {
    assert_eq!(retry_strategy(), vec![1000, 2000, 4000, 8000]);
    assert_eq!(after_failure(1), AfterFailure::Retry { millis: 1000 });
    assert_eq!(after_failure(4), AfterFailure::Retry { millis: 8000 });
    assert_eq!(after_failure(5), AfterFailure::GiveUp);
}

#[test]
fn a_fact_is_delivered_in_order_and_then_committed() {
    let (consumer, action) = Consumer::start();
    assert_eq!(action, ConsumerAction::Receive);
    let planned = plan(&crowded());
    assert_eq!(planned.len(), 2);
    let event = ConsumerEvent::Fact { event: crowded(), partition: 0, offset: 9 };
    assert!(consumer.expects(&event));
    let (consumer, action) = consumer.step(event);
    assert_eq!(action, ConsumerAction::Deliver(planned[0].clone()));
    let (consumer, action) = consumer.step(ConsumerEvent::Delivered { accepted: true });
    assert_eq!(action, ConsumerAction::Deliver(planned[1].clone()));
    let (consumer, action) = consumer.step(ConsumerEvent::Delivered { accepted: true });
    assert_eq!(action, ConsumerAction::CommitAndReceive);
    assert_eq!(consumer, Consumer::Receiving);
}

#[test]
fn a_fact_that_failed_in_the_middle_is_delivered_from_the_top() {
    let planned = plan(&crowded());
    let (consumer, _) = Consumer::start();
    let (consumer, _) =
        consumer.step(ConsumerEvent::Fact { event: crowded(), partition: 0, offset: 9 });
    let (consumer, _) = consumer.step(ConsumerEvent::Delivered { accepted: true });
    let (consumer, action) = consumer.step(ConsumerEvent::Delivered { accepted: false });
    assert_eq!(action, ConsumerAction::Sleep { millis: 1000 });
    let (_, action) = consumer.step(ConsumerEvent::Slept);
    assert_eq!(action, ConsumerAction::Deliver(planned[0].clone()));
}

#[test]
fn a_fact_that_warrants_nothing_is_committed_at_once() {
    let renamed =
        AgentSessionLifecycleEvent::Renamed(SessionRenamedMetadata { identity: identity() });
    assert!(plan(&renamed).is_empty());
    let (consumer, _) = Consumer::start();
    let (_, action) =
        consumer.step(ConsumerEvent::Fact { event: renamed, partition: 0, offset: 1 });
    assert_eq!(action, ConsumerAction::CommitAndReceive);
}

#[test]
fn an_undecodable_record_is_passed_over_and_a_failed_receive_is_not() {
    let (consumer, _) = Consumer::start();
    let (consumer, action) = consumer.step(ConsumerEvent::Undecodable);
    assert_eq!(action, ConsumerAction::CommitAndReceive);
    let (consumer, action) = consumer.step(ConsumerEvent::ReceiveFailed);
    assert_eq!(action, ConsumerAction::Receive);
    let (consumer, action) = consumer.step(ConsumerEvent::Shutdown);
    assert_eq!(action, ConsumerAction::Exit(Ok(())));
    assert!(!consumer.expects(&ConsumerEvent::Shutdown));
}

#[test]
fn a_record_that_keeps_failing_stops_the_consumer_uncommitted() {
    let (consumer, _) = Consumer::start();
    let (mut consumer, mut action) =
        consumer.step(ConsumerEvent::Fact { event: fact(), partition: 3, offset: 9 });
    let mut applied = 0usize;
    let mut slept = Vec::new();
    let outcome = loop {
        let event = match action {
            ConsumerAction::Deliver(_) => {
                applied += 1;
                ConsumerEvent::Delivered { accepted: false }
            }
            ConsumerAction::Sleep { millis } => {
                slept.push(millis);
                ConsumerEvent::Slept
            }
            ConsumerAction::Exit(outcome) => break outcome,
            other => panic!("nothing is committed: {other:?}"),
        };
        assert!(consumer.expects(&event));
        (consumer, action) = consumer.step(event);
    };
    assert_eq!(applied, MAX_ATTEMPTS);
    assert_eq!(slept, retry_strategy());
    let message = outcome.expect_err("it never succeeded");
    assert!(message.contains('3') && message.contains('9'), "{message}");
}

#[test]
fn a_retraction_marks_one_copy_done() {
    let mut actions = plan(&fact());
    assert_eq!(actions.len(), 1);
    let action = actions.remove(0);
    let context = failure_context(&action);
    assert!(!context.is_empty());
    assert_eq!(
        delivery(action),
        Delivery::Update(UpdateNotificationsRequest {
            user_id: MacroUserId::new("macro|o@macro.com"),
            notification_ids: vec![settled_notification_id(5, TurnId(0))],
            done: true,
        })
    );
}

#[test]
fn a_notification_is_delivered_to_browser_and_phone_without_a_sender() {
    let question = AgentSessionLifecycleEvent::WaitingForInput(WaitingForInputMetadata {
        identity: identity(),
        turn: TurnId(3),
        action_id: AgentActionId { value: 2 },
        announcement_message_id: None,
        question: "Which approach?".to_owned(),
    });
    let mut actions = plan(&question);
    assert_eq!(actions.len(), 1);
    let Delivery::WaitingForInput(request) = delivery(actions.remove(0)) else {
        panic!("a question is asked");
    };
    assert_eq!(request.uuid_to_write, waiting_notification_id(5, TurnId(3)));
    assert_eq!(request.recipient_ids, vec![MacroUserId::new("macro|o@macro.com")]);
    assert_eq!(request.sender_id, None);
    assert!(request.send_apns);
    assert!(request.send_conn_gateway);
    assert_eq!(request.notification.question, "Which approach?");
}

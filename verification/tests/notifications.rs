//! Which facts of a session become news to people.

use agent_sessions::notifications::plan::{
    mentioned_notification_id, plan, settled_notification_id, waiting_notification_id, Action,
    AgentSessionMentionedMetadata, AgentSessionSettledMetadata,
    AgentSessionWaitingForInputMetadata, Entity, EntityType, Notify,
};
use agent_sessions::sessions::events::{
    AgentSessionLifecycleEvent, AgentSessionLifecycleMacroEvent, InputReceivedMetadata,
    SessionDeletedMetadata, SessionIdentity, SessionMentionedMetadata, SessionOpenedMetadata,
    SessionRenamedMetadata, SessionSettledMetadata, SessionStoppedMetadata, ThreadOrigin,
    TurnEndedMetadata, TurnStartedMetadata, TurnSummary, WaitingForInputMetadata,
};
use agent_sessions::sessions::model::{AgentActionId, AgentSessionId, BotId, MacroUserId, TurnId};

const SESSION: u128 = 0xA;

fn user(email: &str) -> MacroUserId {
    MacroUserId::new(&format!("macro|{email}"))
}

fn owner() -> MacroUserId {
    user("owner@macro.com")
}

fn action_id() -> AgentActionId {
    AgentActionId { value: 0xAC7 }
}

fn identity() -> SessionIdentity {
    SessionIdentity {
        session_id: AgentSessionId::new_from_uuid(SESSION),
        session_name: "Fix the flaky test".to_owned(),
        bot_id: BotId { value: 0xB07 },
        bot_name: "Macro Coder".to_owned(),
        owner_id: owner(),
        origin: Some(ThreadOrigin {
            channel_id: 1,
            thread_id: 2,
            originating_message_id: 3,
        }),
        audience: vec![owner(), user("alice@macro.com"), user("bob@macro.com")],
    }
}

fn detached_identity() -> SessionIdentity {
    SessionIdentity { origin: None, ..identity() }
}

fn settled(identity: SessionIdentity, turn: u32) -> AgentSessionLifecycleEvent {
    AgentSessionLifecycleEvent::Settled(SessionSettledMetadata {
        identity,
        last_turn: Some(TurnSummary {
            turn: TurnId(turn),
            action_id: action_id(),
            actor: Some(user("alice@macro.com")),
            announcement_message_id: Some(4),
            stop_reason: "end_turn".to_owned(),
            excerpt: Some("Done.".to_owned()),
        }),
    })
}

fn one_settled(mut actions: Vec<Action>) -> Notify<AgentSessionSettledMetadata> {
    assert_eq!(actions.len(), 1, "expected one settled notification, got {actions:#?}");
    match actions.remove(0) {
        Action::Settled(notify) => notify,
        other => panic!("expected one settled notification, got {other:#?}"),
    }
}

#[test]
fn settled_notifies_the_whole_audience_under_the_thread() {
    let notify = one_settled(plan(&settled(identity(), 2)));

    assert_eq!(
        notify.entity,
        Entity {
            entity_type: EntityType::Channel,
            entity_id: "00000000-0000-0000-0000-000000000001".to_owned(),
        }
    );
    assert_eq!(
        notify.secondary_entity,
        Some(Entity {
            entity_type: EntityType::ChannelMessage,
            entity_id: "00000000-0000-0000-0000-000000000002".to_owned(),
        })
    );
    assert_eq!(
        notify.recipients,
        vec![owner(), user("alice@macro.com"), user("bob@macro.com")]
    );
    assert_eq!(notify.metadata.turn, 2);
    assert_eq!(notify.metadata.excerpt.as_deref(), Some("Done."));
    assert_eq!(notify.metadata.session.bot_name, "Macro Coder");
    assert_eq!(notify.metadata.session.announcement_message_id, Some(4));
    assert_eq!(notify.metadata.session.thread_id, Some(2));
}

#[test]
fn a_session_with_no_thread_files_as_itself() {
    let notify = one_settled(plan(&settled(detached_identity(), 0)));

    assert_eq!(
        notify.entity,
        Entity {
            entity_type: EntityType::AgentSession,
            entity_id: "00000000-0000-0000-0000-00000000000a".to_owned(),
        }
    );
    assert_eq!(notify.secondary_entity, None);
    assert_eq!(notify.metadata.session.channel_id, None);
}

#[test]
fn the_owner_always_hears_settled_even_when_the_audience_is_empty() {
    // An event published before the audience field existed.
    let notify = one_settled(plan(&settled(
        SessionIdentity { audience: Vec::new(), ..identity() },
        0,
    )));

    assert_eq!(notify.recipients, vec![owner()]);
}

#[test]
fn settled_ids_are_stable_per_turn_and_distinct_across_turns() {
    let first = one_settled(plan(&settled(identity(), 1)));
    let again = one_settled(plan(&settled(identity(), 1)));
    let next = one_settled(plan(&settled(identity(), 2)));

    assert_eq!(
        first.notification_id, again.notification_id,
        "a redelivery is a no-op"
    );
    assert_ne!(first.notification_id, next.notification_id);
    assert_eq!(
        first.notification_id,
        settled_notification_id(SESSION, TurnId(1))
    );
}

#[test]
fn a_redelivery_keeps_its_id_whatever_else_changed() {
    let first = one_settled(plan(&settled(identity(), 1)));
    let renamed = SessionIdentity {
        session_name: "Renamed".to_owned(),
        audience: Vec::new(),
        ..detached_identity()
    };
    let again = one_settled(plan(&settled(renamed, 1)));
    assert_ne!(first.recipients, again.recipients);
    assert_eq!(first.notification_id, again.notification_id);
}

#[test]
fn settled_without_a_turn_record_notifies_nobody() {
    let actions = plan(&AgentSessionLifecycleEvent::Settled(
        SessionSettledMetadata { identity: identity(), last_turn: None },
    ));

    assert!(actions.is_empty());
}

#[test]
fn waiting_for_input_goes_to_the_owner_alone() {
    let actions = plan(&AgentSessionLifecycleEvent::WaitingForInput(
        WaitingForInputMetadata {
            identity: identity(),
            turn: TurnId(3),
            action_id: action_id(),
            announcement_message_id: None,
            question: "Which approach?".to_owned(),
        },
    ));

    let [Action::WaitingForInput(notify)] = actions.as_slice() else {
        panic!("expected one waiting notification, got {actions:#?}");
    };
    assert_eq!(notify.recipients, vec![owner()]);
    assert_eq!(notify.metadata.question, "Which approach?");
    assert_eq!(notify.metadata.turn, 3);
    assert_eq!(
        notify.notification_id,
        waiting_notification_id(SESSION, TurnId(3))
    );
}

#[test]
fn an_answer_retracts_the_question_for_the_owner() {
    let actions = plan(&AgentSessionLifecycleEvent::InputReceived(
        InputReceivedMetadata {
            identity: identity(),
            turn: TurnId(3),
            action_id: action_id(),
        },
    ));

    assert_eq!(
        actions,
        vec![Action::MarkDone {
            user: owner(),
            notification_id: waiting_notification_id(SESSION, TurnId(3)),
        }]
    );
}

#[test]
fn a_new_turn_retracts_the_previous_settled_for_the_audience() {
    let actions = plan(&AgentSessionLifecycleEvent::TurnStarted(
        TurnStartedMetadata {
            identity: identity(),
            turn: TurnId(5),
            action_id: action_id(),
            actor: Some(owner()),
            announcement_message_id: None,
        },
    ));

    let previous = settled_notification_id(SESSION, TurnId(4));
    assert_eq!(
        actions,
        [owner(), user("alice@macro.com"), user("bob@macro.com")]
            .into_iter()
            .map(|user| Action::MarkDone { user, notification_id: previous })
            .collect::<Vec<_>>()
    );
}

#[test]
fn the_first_turn_has_nothing_to_retract() {
    let actions = plan(&AgentSessionLifecycleEvent::TurnStarted(
        TurnStartedMetadata {
            identity: identity(),
            turn: TurnId(0),
            action_id: action_id(),
            actor: Some(owner()),
            announcement_message_id: None,
        },
    ));

    assert!(actions.is_empty());
}

#[test]
fn mentioned_notifies_exactly_the_people_named() {
    let action_id = action_id();
    let actions = plan(&AgentSessionLifecycleEvent::Mentioned(
        SessionMentionedMetadata {
            identity: identity(),
            action_id,
            mentioned_by: Some(owner()),
            mentioned: vec![
                user("carol@macro.com"),
                user("alice@macro.com"),
                user("carol@macro.com"),
            ],
        },
    ));

    let [Action::Mentioned(notify)] = actions.as_slice() else {
        panic!("expected one mention notification, got {actions:#?}");
    };
    assert_eq!(
        notify.recipients,
        vec![user("carol@macro.com"), user("alice@macro.com")]
    );
    assert_eq!(notify.metadata.mentioned_by, Some(owner()));
    assert_eq!(notify.metadata.action_id, action_id.value);
    assert_eq!(
        notify.notification_id,
        mentioned_notification_id(SESSION, action_id.value)
    );
}

#[test]
fn a_mention_of_nobody_is_nothing() {
    let actions = plan(&AgentSessionLifecycleEvent::Mentioned(
        SessionMentionedMetadata {
            identity: identity(),
            action_id: action_id(),
            mentioned_by: Some(owner()),
            mentioned: Vec::new(),
        },
    ));

    assert!(actions.is_empty());
}

#[test]
fn facts_that_are_not_news_to_people_plan_nothing() {
    for event in [
        AgentSessionLifecycleEvent::Opened(SessionOpenedMetadata {
            identity: identity(),
            model: "sonnet".to_owned(),
            harness: "opencode".to_owned(),
        }),
        AgentSessionLifecycleEvent::Deleted(SessionDeletedMetadata { identity: identity() }),
    ] {
        assert!(plan(&event).is_empty(), "{event:?}");
    }
}

#[test]
fn a_notify_becomes_a_realtime_and_push_request_with_its_own_id() {
    let notify = one_settled(plan(&settled(identity(), 2)));
    let expected_id = notify.notification_id;

    let request = notify.into_request();

    assert_eq!(request.uuid_to_write, expected_id);
    assert!(request.send_conn_gateway);
    assert!(request.send_apns, "push is built");
    assert_eq!(request.sender_id, None, "a bot is nobody's sender");
    assert_eq!(AgentSessionSettledMetadata::tag(), "agent_session_settled");
}

#[test]
fn each_kind_of_notification_has_its_own_ids_and_tag() {
    let settled = settled_notification_id(SESSION, TurnId(1));
    let waiting = waiting_notification_id(SESSION, TurnId(1));
    let mentioned = mentioned_notification_id(SESSION, 1);
    assert_ne!(settled, waiting);
    assert_ne!(waiting, mentioned);
    assert_ne!(settled, mentioned);
    assert_ne!(settled, settled_notification_id(SESSION + 1, TurnId(1)));
    assert_ne!(AgentSessionWaitingForInputMetadata::tag(), AgentSessionSettledMetadata::tag());
    assert_ne!(AgentSessionMentionedMetadata::tag(), AgentSessionSettledMetadata::tag());
}

#[test]
fn notification_ids_are_uuids_of_their_names() {
    let namespace = uuid::Uuid::from_u128(0x6d61_6372_6f2d_6167_656e_742d_6e6f_7469);
    let session = uuid::Uuid::from_u128(SESSION);
    let expected =
        uuid::Uuid::new_v5(&namespace, format!("{session}:1:agent_session_settled").as_bytes());
    assert_eq!(settled_notification_id(SESSION, TurnId(1)), expected.as_u128());
}

fn one_of_each() -> Vec<(AgentSessionLifecycleEvent, &'static str)> {
    vec![
        (
            AgentSessionLifecycleEvent::Opened(SessionOpenedMetadata {
                identity: identity(),
                model: "sonnet".to_owned(),
                harness: "claude_code".to_owned(),
            }),
            "opened",
        ),
        (
            AgentSessionLifecycleEvent::TurnStarted(TurnStartedMetadata {
                identity: identity(),
                turn: TurnId(0),
                action_id: action_id(),
                actor: Some(owner()),
                announcement_message_id: Some(4),
            }),
            "turn_started",
        ),
        (
            AgentSessionLifecycleEvent::TurnEnded(TurnEndedMetadata {
                identity: identity(),
                turn: TurnId(0),
                action_id: action_id(),
                actor: Some(owner()),
                announcement_message_id: Some(4),
                stop_reason: "end_turn".to_owned(),
                queued_remaining: 0,
            }),
            "turn_ended",
        ),
        (settled(identity(), 0), "settled"),
        (
            AgentSessionLifecycleEvent::WaitingForInput(WaitingForInputMetadata {
                identity: identity(),
                turn: TurnId(1),
                action_id: action_id(),
                announcement_message_id: None,
                question: "Which approach?".to_owned(),
            }),
            "waiting_for_input",
        ),
        (
            AgentSessionLifecycleEvent::InputReceived(InputReceivedMetadata {
                identity: identity(),
                turn: TurnId(1),
                action_id: action_id(),
            }),
            "input_received",
        ),
        (
            AgentSessionLifecycleEvent::Mentioned(SessionMentionedMetadata {
                identity: identity(),
                action_id: action_id(),
                mentioned_by: Some(owner()),
                mentioned: vec![user("colleague@macro.com")],
            }),
            "mentioned",
        ),
        (
            AgentSessionLifecycleEvent::Stopped(SessionStoppedMetadata {
                identity: identity(),
                reason: "transport closed".to_owned(),
                turn_in_flight: None,
            }),
            "stopped",
        ),
        (
            AgentSessionLifecycleEvent::Renamed(SessionRenamedMetadata { identity: identity() }),
            "renamed",
        ),
        (
            AgentSessionLifecycleEvent::Deleted(SessionDeletedMetadata { identity: identity() }),
            "deleted",
        ),
    ]
}

#[test]
fn name_is_the_wire_name() {
    for (event, name) in one_of_each() {
        assert!(event.name() == format!("agent_session.{name}"), "{} is not {name}", event.name());
        assert_eq!(*event.identity(), identity());
    }
}

#[test]
fn macro_event_is_keyed_by_session_id() {
    let event = AgentSessionLifecycleMacroEvent::new(AgentSessionLifecycleEvent::Renamed(
        SessionRenamedMetadata { identity: identity() },
    ));

    assert_eq!(event.key(), "00000000-0000-0000-0000-00000000000a");
    assert_eq!(event.event().schema_version, 1);
    assert_eq!(
        event.event().event.session_id(),
        AgentSessionId::new_from_uuid(SESSION)
    );
}

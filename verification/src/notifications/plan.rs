//! From one lifecycle fact to the notifications it warrants.
//!
//! The fact comes in with everything it needs, and what comes out is a list of
//! things to do against the notification service.
//!
//! # Who hears what
//!
//! | fact | notification | recipients |
//! | --- | --- | --- |
//! | `settled` | [`AgentSessionSettledMetadata`] | the session's audience: owner plus everyone who has driven it |
//! | `waiting_for_input` | [`AgentSessionWaitingForInputMetadata`] | the owner, the one person who may answer |
//! | `mentioned` | [`AgentSessionMentionedMetadata`] | the users the prompt named |
//! | `input_received` | marks the question's notification done | the owner |
//! | `turn_started` | marks the previous turn's `settled` done | the audience |
//!
//! Everything else on the topic is somebody else's business.
//!
//! # Ids
//!
//! A notification's id is derived from what it is about — the session, the
//! turn (or prompt), and the kind — not from the event that carried it. The
//! notification service creates idempotently on id, so a redelivered event is
//! a no-op, and a later fact can name the notification it retracts without
//! looking anything up.

use crate::decimal::{decimal, decimal_text, lemma_decimal_text, lemma_decimal_text_injective};
use crate::identity::{
    derive_uuid, hyphenate, hyphenated, lemma_hyphenated, lemma_hyphenated_injective, uuid_v5,
};
use crate::sessions::events::{
    AgentSessionLifecycleEvent, SessionIdentity, SessionMentionedMetadata, SessionSettledMetadata,
    WaitingForInputMetadata,
};
use crate::sessions::model::{
    clone_users, dedup, first_occurrences, law_first_occurrences, AgentActionId, AgentSessionId,
    MacroUserId, TurnId,
};
use crate::text::Text;
use vstd::prelude::*;

verus! {

/// The namespace agent-session notification ids are derived in. Fixed forever:
/// changing it would orphan every retraction of a notification created before
/// the change.
pub const NOTIFICATION_ID_NAMESPACE: u128 = 0x6d61_6372_6f2d_6167_656e_742d_6e6f_7469;

/// What kind of thing a notification is filed under.
#[derive(Debug, Clone, Copy, PartialEq, Eq, Structural)]
pub enum EntityType {
    /// A channel.
    Channel,
    /// A message in a channel.
    ChannelMessage,
    /// An agent session.
    AgentSession,
}

/// What a notification is filed under.
#[derive(Debug, PartialEq, Eq)]
pub struct Entity {
    /// Its kind.
    pub entity_type: EntityType,
    /// Its id.
    pub entity_id: String,
}

/// The session a notification is about, as much of it as rendering needs.
#[derive(Debug, PartialEq, Eq)]
pub struct AgentSessionNotificationRef {
    /// The session.
    pub session_id: u128,
    /// Its user-facing name.
    pub session_name: String,
    /// The bot running it.
    pub bot_id: u128,
    /// The bot's display name.
    pub bot_name: String,
    /// The channel it was opened from.
    pub channel_id: Option<u128>,
    /// The thread it was opened from.
    pub thread_id: Option<u128>,
    /// The message that announced the turn.
    pub announcement_message_id: Option<u128>,
}

/// The agent finished.
#[derive(Debug, PartialEq, Eq)]
pub struct AgentSessionSettledMetadata {
    /// The session.
    pub session: AgentSessionNotificationRef,
    /// The turn that finished.
    pub turn: u32,
    /// Who asked for it.
    pub actor: Option<MacroUserId>,
    /// Why it ended.
    pub stop_reason: String,
    /// The end of the agent's answer.
    pub excerpt: Option<String>,
}

/// The agent needs an answer.
#[derive(Debug, PartialEq, Eq)]
pub struct AgentSessionWaitingForInputMetadata {
    /// The session.
    pub session: AgentSessionNotificationRef,
    /// The turn that asks.
    pub turn: u32,
    /// The question.
    pub question: String,
}

/// A prompt named the recipient.
#[derive(Debug, PartialEq, Eq)]
pub struct AgentSessionMentionedMetadata {
    /// The session.
    pub session: AgentSessionNotificationRef,
    /// Who wrote the prompt.
    pub mentioned_by: Option<MacroUserId>,
    /// The prompt.
    pub action_id: u128,
}

/// One notification to create: everything the request is built from.
#[derive(Debug, PartialEq, Eq)]
pub struct Notify<Metadata> {
    /// The notification's id.
    pub notification_id: u128,
    /// What the notification is about, for the inbox and for unsubscribes.
    pub entity: Entity,
    /// The thread the chip lives in, when the session has one.
    pub secondary_entity: Option<Entity>,
    /// Who is told.
    pub recipients: Vec<MacroUserId>,
    /// The kind-specific payload.
    pub metadata: Metadata,
}

/// One thing to do against the notification service.
#[derive(Debug, PartialEq, Eq)]
pub enum Action {
    /// Tell the audience the agent finished.
    Settled(Notify<AgentSessionSettledMetadata>),
    /// Tell the owner the agent is waiting on them.
    WaitingForInput(Notify<AgentSessionWaitingForInputMetadata>),
    /// Tell the people a prompt named.
    Mentioned(Notify<AgentSessionMentionedMetadata>),
    /// A notification is no longer news for `user`: mark it done, which also
    /// clears its push from their lock screen.
    MarkDone {
        /// Whose copy of the notification.
        user: MacroUserId,
        /// The notification, by the id it was created with.
        notification_id: u128,
    },
}

/// The request the notification service takes.
#[derive(Debug, PartialEq, Eq)]
pub struct SendNotificationRequest<Metadata> {
    /// The id the notification is created under.
    pub uuid_to_write: u128,
    /// What the notification is about.
    pub notification_entity: Entity,
    /// The thread the chip lives in.
    pub secondary_notification_entity: Option<Entity>,
    /// The kind-specific payload.
    pub notification: Metadata,
    /// Who sent it; a sender is not told of their own notifications.
    pub sender_id: Option<MacroUserId>,
    /// Who is told, each once.
    pub recipient_ids: Vec<MacroUserId>,
    /// Whether phones get a push.
    pub send_apns: bool,
    /// Whether open browsers hear of it at once.
    pub send_conn_gateway: bool,
}

/// The mathematical model of [`Entity`].
pub struct EntityView {
    pub entity_type: EntityType,
    pub entity_id: Text,
}

/// The mathematical model of [`AgentSessionNotificationRef`].
pub struct RefView {
    pub session_id: u128,
    pub session_name: Text,
    pub bot_id: u128,
    pub bot_name: Text,
    pub channel_id: Option<u128>,
    pub thread_id: Option<u128>,
    pub announcement_message_id: Option<u128>,
}

/// The mathematical model of [`AgentSessionSettledMetadata`].
pub struct SettledView {
    pub session: RefView,
    pub turn: u32,
    pub actor: Option<Text>,
    pub stop_reason: Text,
    pub excerpt: Option<Text>,
}

/// The mathematical model of [`AgentSessionWaitingForInputMetadata`].
pub struct WaitingView {
    pub session: RefView,
    pub turn: u32,
    pub question: Text,
}

/// The mathematical model of [`AgentSessionMentionedMetadata`].
pub struct MentionedView {
    pub session: RefView,
    pub mentioned_by: Option<Text>,
    pub action_id: u128,
}

/// The mathematical model of [`Notify`].
pub struct NotifyView<Metadata> {
    pub notification_id: u128,
    pub entity: EntityView,
    pub secondary_entity: Option<EntityView>,
    pub recipients: Seq<Text>,
    pub metadata: Metadata,
}

/// The mathematical model of [`Action`].
pub enum ActionView {
    Settled(NotifyView<SettledView>),
    WaitingForInput(NotifyView<WaitingView>),
    Mentioned(NotifyView<MentionedView>),
    MarkDone { user: Text, notification_id: u128 },
}

impl DeepView for Entity {
    type V = EntityView;

    open spec fn deep_view(&self) -> EntityView {
        EntityView { entity_type: self.entity_type, entity_id: self.entity_id@ }
    }
}

impl DeepView for AgentSessionNotificationRef {
    type V = RefView;

    open spec fn deep_view(&self) -> RefView {
        RefView {
            session_id: self.session_id,
            session_name: self.session_name@,
            bot_id: self.bot_id,
            bot_name: self.bot_name@,
            channel_id: self.channel_id,
            thread_id: self.thread_id,
            announcement_message_id: self.announcement_message_id,
        }
    }
}

impl DeepView for AgentSessionSettledMetadata {
    type V = SettledView;

    open spec fn deep_view(&self) -> SettledView {
        SettledView {
            session: self.session.deep_view(),
            turn: self.turn,
            actor: self.actor.deep_view(),
            stop_reason: self.stop_reason@,
            excerpt: self.excerpt.deep_view(),
        }
    }
}

impl DeepView for AgentSessionWaitingForInputMetadata {
    type V = WaitingView;

    open spec fn deep_view(&self) -> WaitingView {
        WaitingView {
            session: self.session.deep_view(),
            turn: self.turn,
            question: self.question@,
        }
    }
}

impl DeepView for AgentSessionMentionedMetadata {
    type V = MentionedView;

    open spec fn deep_view(&self) -> MentionedView {
        MentionedView {
            session: self.session.deep_view(),
            mentioned_by: self.mentioned_by.deep_view(),
            action_id: self.action_id,
        }
    }
}

impl<Metadata: DeepView> DeepView for Notify<Metadata> {
    type V = NotifyView<Metadata::V>;

    open spec fn deep_view(&self) -> NotifyView<Metadata::V> {
        NotifyView {
            notification_id: self.notification_id,
            entity: self.entity.deep_view(),
            secondary_entity: self.secondary_entity.deep_view(),
            recipients: self.recipients.deep_view(),
            metadata: self.metadata.deep_view(),
        }
    }
}

impl DeepView for Action {
    type V = ActionView;

    open spec fn deep_view(&self) -> ActionView {
        match self {
            Action::Settled(notify) => ActionView::Settled(notify.deep_view()),
            Action::WaitingForInput(notify) => ActionView::WaitingForInput(notify.deep_view()),
            Action::Mentioned(notify) => ActionView::Mentioned(notify.deep_view()),
            Action::MarkDone { user, notification_id } => ActionView::MarkDone {
                user: user.deep_view(),
                notification_id: *notification_id,
            },
        }
    }
}

impl Clone for Entity {
    fn clone(&self) -> (copy: Self)
        ensures
            copy.deep_view() == self.deep_view(),
    {
        Entity { entity_type: self.entity_type, entity_id: self.entity_id.clone() }
    }
}

impl Clone for AgentSessionNotificationRef {
    fn clone(&self) -> (copy: Self)
        ensures
            copy.deep_view() == self.deep_view(),
    {
        AgentSessionNotificationRef {
            session_id: self.session_id,
            session_name: self.session_name.clone(),
            bot_id: self.bot_id,
            bot_name: self.bot_name.clone(),
            channel_id: self.channel_id,
            thread_id: self.thread_id,
            announcement_message_id: self.announcement_message_id,
        }
    }
}

fn clone_user(user: &Option<MacroUserId>) -> (copy: Option<MacroUserId>)
    ensures
        copy.deep_view() == user.deep_view(),
{
    match user {
        Some(user) => Some(user.clone()),
        None => None,
    }
}

impl Clone for AgentSessionSettledMetadata {
    fn clone(&self) -> (copy: Self)
        ensures
            copy.deep_view() == self.deep_view(),
    {
        AgentSessionSettledMetadata {
            session: self.session.clone(),
            turn: self.turn,
            actor: clone_user(&self.actor),
            stop_reason: self.stop_reason.clone(),
            excerpt: match &self.excerpt {
                Some(excerpt) => Some(excerpt.clone()),
                None => None,
            },
        }
    }
}

impl Clone for AgentSessionWaitingForInputMetadata {
    fn clone(&self) -> (copy: Self)
        ensures
            copy.deep_view() == self.deep_view(),
    {
        AgentSessionWaitingForInputMetadata {
            session: self.session.clone(),
            turn: self.turn,
            question: self.question.clone(),
        }
    }
}

impl Clone for AgentSessionMentionedMetadata {
    fn clone(&self) -> (copy: Self)
        ensures
            copy.deep_view() == self.deep_view(),
    {
        AgentSessionMentionedMetadata {
            session: self.session.clone(),
            mentioned_by: clone_user(&self.mentioned_by),
            action_id: self.action_id,
        }
    }
}

impl<Metadata> Notify<Metadata> {
    /// The same notification with a payload of its own.
    fn with_metadata(&self, metadata: Metadata) -> (copy: Notify<Metadata>)
        ensures
            copy.notification_id == self.notification_id,
            copy.entity.deep_view() == self.entity.deep_view(),
            copy.secondary_entity.deep_view() == self.secondary_entity.deep_view(),
            copy.recipients.deep_view() == self.recipients.deep_view(),
            copy.metadata == metadata,
    {
        Notify {
            notification_id: self.notification_id,
            entity: self.entity.clone(),
            secondary_entity: match &self.secondary_entity {
                Some(entity) => Some(entity.clone()),
                None => None,
            },
            recipients: clone_users(&self.recipients),
            metadata,
        }
    }
}

impl Clone for Action {
    fn clone(&self) -> (copy: Self)
        ensures
            copy.deep_view() == self.deep_view(),
    {
        match self {
            Action::Settled(notify) => Action::Settled(
                notify.with_metadata(notify.metadata.clone()),
            ),
            Action::WaitingForInput(notify) => Action::WaitingForInput(
                notify.with_metadata(notify.metadata.clone()),
            ),
            Action::Mentioned(notify) => Action::Mentioned(
                notify.with_metadata(notify.metadata.clone()),
            ),
            Action::MarkDone { user, notification_id } => Action::MarkDone {
                user: user.clone(),
                notification_id: *notification_id,
            },
        }
    }
}

impl AgentSessionSettledMetadata {
    /// The kind's name.
    pub fn tag() -> (name: &'static str)
        ensures
            name@ == "agent_session_settled"@,
    {
        "agent_session_settled"
    }
}

impl AgentSessionWaitingForInputMetadata {
    /// The kind's name.
    pub fn tag() -> (name: &'static str)
        ensures
            name@ == "agent_session_waiting_for_input"@,
    {
        "agent_session_waiting_for_input"
    }
}

impl AgentSessionMentionedMetadata {
    /// The kind's name.
    pub fn tag() -> (name: &'static str)
        ensures
            name@ == "agent_session_mentioned"@,
    {
        "agent_session_mentioned"
    }
}

/// The name a notification's id is derived from: the session, what in it the
/// notification is about, and the kind.
pub open spec fn id_name(session: u128, about: Text, kind: Text) -> Text {
    hyphenated(session) + ":"@ + about + ":"@ + kind
}

/// The id of the "finished" notification for one turn of one session.
pub open spec fn settled_id(session: u128, turn: u32) -> u128 {
    uuid_v5(
        NOTIFICATION_ID_NAMESPACE,
        id_name(session, decimal_text(turn as nat), "agent_session_settled"@),
    )
}

/// The id of the "needs an answer" notification for one turn of one session.
pub open spec fn waiting_id(session: u128, turn: u32) -> u128 {
    uuid_v5(
        NOTIFICATION_ID_NAMESPACE,
        id_name(session, decimal_text(turn as nat), "agent_session_waiting_for_input"@),
    )
}

/// The id of the "mentioned you" notification for one prompt to one session.
pub open spec fn mentioned_id(session: u128, action: u128) -> u128 {
    uuid_v5(
        NOTIFICATION_ID_NAMESPACE,
        id_name(session, hyphenated(action), "agent_session_mentioned"@),
    )
}

/// What a notification is filed under. A session opened from a thread files as
/// that thread: primary the channel, secondary the thread root. A session with
/// no thread files as itself.
pub open spec fn primary_entity(identity: SessionIdentity) -> EntityView {
    match identity.origin {
        Some(origin) => EntityView {
            entity_type: EntityType::Channel,
            entity_id: hyphenated(origin.channel_id),
        },
        None => EntityView {
            entity_type: EntityType::AgentSession,
            entity_id: hyphenated(identity.session_id.value),
        },
    }
}

/// The thread a notification is filed under.
pub open spec fn secondary_entity(identity: SessionIdentity) -> Option<EntityView> {
    match identity.origin {
        Some(origin) => Some(
            EntityView {
                entity_type: EntityType::ChannelMessage,
                entity_id: hyphenated(origin.thread_id),
            },
        ),
        None => None,
    }
}

/// The session as a notification refers to it.
pub open spec fn session_ref_of(identity: SessionIdentity, announcement: Option<u128>) -> RefView {
    RefView {
        session_id: identity.session_id.value,
        session_name: identity.session_name@,
        bot_id: identity.bot_id.value,
        bot_name: identity.bot_name@,
        channel_id: match identity.origin {
            Some(origin) => Some(origin.channel_id),
            None => None,
        },
        thread_id: match identity.origin {
            Some(origin) => Some(origin.thread_id),
            None => None,
        },
        announcement_message_id: announcement,
    }
}

/// The session's audience, owner first, never empty: an event published before
/// the audience existed still reaches the owner.
pub open spec fn audience_of(identity: SessionIdentity) -> Seq<Text> {
    first_occurrences(seq![identity.owner_id.deep_view()] + identity.audience.deep_view())
}

/// Mark a notification done for each of some users.
pub open spec fn mark_done_for(users: Seq<Text>, notification_id: u128) -> Seq<ActionView> {
    users.map_values(|user: Text| ActionView::MarkDone { user, notification_id })
}

/// What a settled session warrants. "Settled" without the turn's record is a
/// fact nobody can act on.
pub open spec fn settled_plan(settled: SessionSettledMetadata) -> Seq<ActionView> {
    match settled.last_turn {
        None => Seq::empty(),
        Some(turn) => seq![
            ActionView::Settled(
                NotifyView {
                    notification_id: settled_id(settled.identity.session_id.value, turn.turn.0),
                    entity: primary_entity(settled.identity),
                    secondary_entity: secondary_entity(settled.identity),
                    recipients: audience_of(settled.identity),
                    metadata: SettledView {
                        session: session_ref_of(settled.identity, turn.announcement_message_id),
                        turn: turn.turn.0,
                        actor: turn.actor.deep_view(),
                        stop_reason: turn.stop_reason@,
                        excerpt: turn.excerpt.deep_view(),
                    },
                },
            ),
        ],
    }
}

/// What a waiting session warrants. Only the owner may answer.
pub open spec fn waiting_plan(waiting: WaitingForInputMetadata) -> Seq<ActionView> {
    seq![
        ActionView::WaitingForInput(
            NotifyView {
                notification_id: waiting_id(waiting.identity.session_id.value, waiting.turn.0),
                entity: primary_entity(waiting.identity),
                secondary_entity: secondary_entity(waiting.identity),
                recipients: seq![waiting.identity.owner_id.deep_view()],
                metadata: WaitingView {
                    session: session_ref_of(waiting.identity, waiting.announcement_message_id),
                    turn: waiting.turn.0,
                    question: waiting.question@,
                },
            },
        ),
    ]
}

/// What a mention warrants.
pub open spec fn mentioned_plan(mentioned: SessionMentionedMetadata) -> Seq<ActionView> {
    if mentioned.mentioned@.len() == 0 {
        Seq::empty()
    } else {
        seq![
            ActionView::Mentioned(
                NotifyView {
                    notification_id: mentioned_id(
                        mentioned.identity.session_id.value,
                        mentioned.action_id.value,
                    ),
                    entity: primary_entity(mentioned.identity),
                    secondary_entity: secondary_entity(mentioned.identity),
                    recipients: first_occurrences(mentioned.mentioned.deep_view()),
                    metadata: MentionedView {
                        session: session_ref_of(mentioned.identity, None),
                        mentioned_by: mentioned.mentioned_by.deep_view(),
                        action_id: mentioned.action_id.value,
                    },
                },
            ),
        ]
    }
}

/// The notifications and retractions one lifecycle fact warrants.
///
/// A new turn makes the previous "finished" stale for everyone who heard it.
/// Turns are contiguous positions, so the previous turn is one less; a turn
/// that never settled has no notification, and the update is a no-op.
pub open spec fn plan_of(event: AgentSessionLifecycleEvent) -> Seq<ActionView> {
    match event {
        AgentSessionLifecycleEvent::Settled(settled) => settled_plan(settled),
        AgentSessionLifecycleEvent::WaitingForInput(waiting) => waiting_plan(waiting),
        AgentSessionLifecycleEvent::Mentioned(mentioned) => mentioned_plan(mentioned),
        AgentSessionLifecycleEvent::InputReceived(received) => mark_done_for(
            seq![received.identity.owner_id.deep_view()],
            waiting_id(received.identity.session_id.value, received.turn.0),
        ),
        AgentSessionLifecycleEvent::TurnStarted(started) => if started.turn.0 == 0 {
            Seq::empty()
        } else {
            mark_done_for(
                audience_of(started.identity),
                settled_id(started.identity.session_id.value, (started.turn.0 - 1) as u32),
            )
        },
        _ => Seq::empty(),
    }
}

fn derived_id(session: u128, about: &str, kind: &str) -> (id: u128)
    ensures
        id == uuid_v5(NOTIFICATION_ID_NAMESPACE, id_name(session, about@, kind@)),
{
    let mut name: String = hyphenate(session);
    name.append(":");
    name.append(about);
    name.append(":");
    name.append(kind);
    derive_uuid(NOTIFICATION_ID_NAMESPACE, name.as_str())
}

/// The id of the "finished" notification for one turn of one session.
pub fn settled_notification_id(session_id: u128, turn: TurnId) -> (id: u128)
    ensures
        id == settled_id(session_id, turn.0),
{
    derived_id(
        session_id,
        decimal(turn.0 as u64).as_str(),
        AgentSessionSettledMetadata::tag(),
    )
}

/// The id of the "needs an answer" notification for one turn of one session.
pub fn waiting_notification_id(session_id: u128, turn: TurnId) -> (id: u128)
    ensures
        id == waiting_id(session_id, turn.0),
{
    derived_id(
        session_id,
        decimal(turn.0 as u64).as_str(),
        AgentSessionWaitingForInputMetadata::tag(),
    )
}

/// The id of the "mentioned you" notification for one prompt to one session.
pub fn mentioned_notification_id(session_id: u128, action_id: u128) -> (id: u128)
    ensures
        id == mentioned_id(session_id, action_id),
{
    derived_id(
        session_id,
        hyphenate(action_id).as_str(),
        AgentSessionMentionedMetadata::tag(),
    )
}

fn entities(identity: &SessionIdentity) -> (filed: (Entity, Option<Entity>))
    ensures
        filed.0.deep_view() == primary_entity(*identity),
        filed.1.deep_view() == secondary_entity(*identity),
{
    match &identity.origin {
        Some(origin) => (
            Entity {
                entity_type: EntityType::Channel,
                entity_id: hyphenate(origin.channel_id),
            },
            Some(
                Entity {
                    entity_type: EntityType::ChannelMessage,
                    entity_id: hyphenate(origin.thread_id),
                },
            ),
        ),
        None => (
            Entity {
                entity_type: EntityType::AgentSession,
                entity_id: hyphenate(identity.session_id.value),
            },
            None,
        ),
    }
}

fn session_ref(identity: &SessionIdentity, announcement: Option<u128>) -> (reference:
    AgentSessionNotificationRef)
    ensures
        reference.deep_view() == session_ref_of(*identity, announcement),
{
    let (channel_id, thread_id): (Option<u128>, Option<u128>) = match &identity.origin {
        Some(origin) => (Some(origin.channel_id), Some(origin.thread_id)),
        None => (None, None),
    };
    AgentSessionNotificationRef {
        session_id: identity.session_id.value,
        session_name: identity.session_name.clone(),
        bot_id: identity.bot_id.value,
        bot_name: identity.bot_name.clone(),
        channel_id,
        thread_id,
        announcement_message_id: announcement,
    }
}

fn audience(identity: &SessionIdentity) -> (users: Vec<MacroUserId>)
    ensures
        users.deep_view() == audience_of(*identity),
{
    let mut everyone: Vec<MacroUserId> = Vec::new();
    everyone.push(identity.owner_id.clone());
    let mut i: usize = 0;
    while i < identity.audience.len()
        invariant
            i <= identity.audience@.len(),
            everyone@.len() == i + 1,
            everyone@[0].deep_view() == identity.owner_id.deep_view(),
            forall|k: int|
                0 <= k < i ==> (#[trigger] everyone@[k + 1]).deep_view()
                    == identity.audience@[k].deep_view(),
        decreases identity.audience@.len() - i,
    {
        everyone.push(identity.audience[i].clone());
        i = i + 1;
    }
    proof {
        let expected = seq![identity.owner_id.deep_view()] + identity.audience.deep_view();
        assert forall|k: int| 0 <= k < expected.len() implies #[trigger] everyone.deep_view()[k]
            == expected[k] by {
            if k > 0 {
                assert(everyone@[(k - 1) + 1].deep_view() == identity.audience@[k
                    - 1].deep_view());
            }
        }
        assert(everyone.deep_view() =~= expected);
    }
    dedup(&everyone)
}

fn clone_text(text: &Option<String>) -> (copy: Option<String>)
    ensures
        copy.deep_view() == text.deep_view(),
{
    match text {
        Some(text) => Some(text.clone()),
        None => None,
    }
}

fn nothing() -> (actions: Vec<Action>)
    ensures
        actions.deep_view() == Seq::<ActionView>::empty(),
{
    let actions: Vec<Action> = Vec::new();
    assert(actions.deep_view() =~= Seq::<ActionView>::empty());
    actions
}

fn only(action: Action) -> (actions: Vec<Action>)
    ensures
        actions.deep_view() == seq![action.deep_view()],
{
    let mut actions: Vec<Action> = Vec::new();
    actions.push(action);
    assert(actions.deep_view() =~= seq![action.deep_view()]);
    actions
}

fn mark_done(users: Vec<MacroUserId>, notification_id: u128) -> (actions: Vec<Action>)
    ensures
        actions.deep_view() == mark_done_for(users.deep_view(), notification_id),
{
    let mut actions: Vec<Action> = Vec::new();
    for user in it: users
        invariant
            it.seq() == users@,
            actions@.len() == it.index(),
            forall|k: int|
                0 <= k < it.index() ==> (#[trigger] actions@[k]).deep_view() == (
                ActionView::MarkDone { user: users@[k].deep_view(), notification_id }),
    {
        actions.push(Action::MarkDone { user, notification_id });
    }
    assert(actions.deep_view() =~= mark_done_for(users.deep_view(), notification_id));
    actions
}

fn plan_settled(settled: &SessionSettledMetadata) -> (actions: Vec<Action>)
    ensures
        actions.deep_view() == settled_plan(*settled),
{
    let turn = match &settled.last_turn {
        Some(turn) => turn,
        None => return nothing(),
    };
    let (entity, secondary_entity) = entities(&settled.identity);
    only(
        Action::Settled(
            Notify {
                notification_id: settled_notification_id(
                    settled.identity.session_id.value,
                    turn.turn,
                ),
                entity,
                secondary_entity,
                recipients: audience(&settled.identity),
                metadata: AgentSessionSettledMetadata {
                    session: session_ref(&settled.identity, turn.announcement_message_id),
                    turn: turn.turn.0,
                    actor: clone_user(&turn.actor),
                    stop_reason: turn.stop_reason.clone(),
                    excerpt: clone_text(&turn.excerpt),
                },
            },
        ),
    )
}

fn plan_waiting(waiting: &WaitingForInputMetadata) -> (actions: Vec<Action>)
    ensures
        actions.deep_view() == waiting_plan(*waiting),
{
    let (entity, secondary_entity) = entities(&waiting.identity);
    let mut recipients: Vec<MacroUserId> = Vec::new();
    recipients.push(waiting.identity.owner_id.clone());
    assert(recipients.deep_view() =~= seq![waiting.identity.owner_id.deep_view()]);
    only(
        Action::WaitingForInput(
            Notify {
                notification_id: waiting_notification_id(
                    waiting.identity.session_id.value,
                    waiting.turn,
                ),
                entity,
                secondary_entity,
                recipients,
                metadata: AgentSessionWaitingForInputMetadata {
                    session: session_ref(&waiting.identity, waiting.announcement_message_id),
                    turn: waiting.turn.0,
                    question: waiting.question.clone(),
                },
            },
        ),
    )
}

fn plan_mentioned(mentioned: &SessionMentionedMetadata) -> (actions: Vec<Action>)
    ensures
        actions.deep_view() == mentioned_plan(*mentioned),
{
    if mentioned.mentioned.is_empty() {
        return nothing();
    }
    let (entity, secondary_entity) = entities(&mentioned.identity);
    only(
        Action::Mentioned(
            Notify {
                notification_id: mentioned_notification_id(
                    mentioned.identity.session_id.value,
                    mentioned.action_id.value,
                ),
                entity,
                secondary_entity,
                recipients: dedup(&mentioned.mentioned),
                metadata: AgentSessionMentionedMetadata {
                    session: session_ref(&mentioned.identity, None),
                    mentioned_by: clone_user(&mentioned.mentioned_by),
                    action_id: mentioned.action_id.value,
                },
            },
        ),
    )
}

/// The notifications and retractions one lifecycle fact warrants.
pub fn plan(event: &AgentSessionLifecycleEvent) -> (actions: Vec<Action>)
    ensures
        actions.deep_view() == plan_of(*event),
{
    match event {
        AgentSessionLifecycleEvent::Settled(settled) => plan_settled(settled),
        AgentSessionLifecycleEvent::WaitingForInput(waiting) => plan_waiting(waiting),
        AgentSessionLifecycleEvent::Mentioned(mentioned) => plan_mentioned(mentioned),
        AgentSessionLifecycleEvent::InputReceived(received) => {
            let mut owner: Vec<MacroUserId> = Vec::new();
            owner.push(received.identity.owner_id.clone());
            assert(owner.deep_view() =~= seq![received.identity.owner_id.deep_view()]);
            mark_done(
                owner,
                waiting_notification_id(received.identity.session_id.value, received.turn),
            )
        },
        AgentSessionLifecycleEvent::TurnStarted(started) => {
            if started.turn.0 == 0 {
                return nothing();
            }
            let previous = TurnId(started.turn.0 - 1);
            mark_done(
                audience(&started.identity),
                settled_notification_id(started.identity.session_id.value, previous),
            )
        },
        _ => nothing(),
    }
}

/// Whether a request creates a notification: under its id, for its recipients,
/// each once, in the browser and on the phone. It has no sender, so nobody is
/// filtered as their own.
pub open spec fn requests<Metadata>(
    request: SendNotificationRequest<Metadata>,
    notify: Notify<Metadata>,
) -> bool {
    &&& request.uuid_to_write == notify.notification_id
    &&& request.notification_entity == notify.entity
    &&& request.secondary_notification_entity == notify.secondary_entity
    &&& request.notification == notify.metadata
    &&& request.sender_id is None
    &&& request.recipient_ids.deep_view() == first_occurrences(notify.recipients.deep_view())
    &&& request.send_apns
    &&& request.send_conn_gateway
}

impl<Metadata> Notify<Metadata> {
    /// The request: realtime for the browser, push for the phone. No sender: a
    /// bot is not a user, so nobody is filtered as their own sender and the
    /// kind's own title names the bot.
    pub fn into_request(self) -> (request: SendNotificationRequest<Metadata>)
        ensures
            requests(request, self),
    {
        SendNotificationRequest {
            uuid_to_write: self.notification_id,
            notification_entity: self.entity,
            secondary_notification_entity: self.secondary_entity,
            recipient_ids: dedup(&self.recipients),
            notification: self.metadata,
            sender_id: None,
            send_apns: true,
            send_conn_gateway: true,
        }
    }
}

/// The owner is always told, first and once; so is everyone else in the
/// audience, each once, and nobody outside it.
pub proof fn law_the_audience_begins_with_the_owner(identity: SessionIdentity)
    ensures
        audience_of(identity).len() > 0,
        audience_of(identity)[0] == identity.owner_id.deep_view(),
        audience_of(identity).no_duplicates(),
        forall|user: Text| #[trigger]
            audience_of(identity).contains(user) <==> user == identity.owner_id.deep_view()
                || identity.audience.deep_view().contains(user),
{
    let owner = identity.owner_id.deep_view();
    let rest = identity.audience.deep_view();
    let everyone = seq![owner] + rest;
    law_first_occurrences(everyone);
    assert(everyone[0] == owner);
    assert forall|user: Text| #[trigger] audience_of(identity).contains(user) <==> user == owner
        || rest.contains(user) by {
        if everyone.contains(user) {
            let i = everyone.index_of(user);
            if i > 0 {
                assert(rest[i - 1] == user);
            }
        }
        if rest.contains(user) {
            assert(everyone[rest.index_of(user) + 1] == user);
        }
    }
}

/// Whether two facts are about the same session with the same people.
pub open spec fn same_session(left: SessionIdentity, right: SessionIdentity) -> bool {
    &&& left.session_id == right.session_id
    &&& left.owner_id.deep_view() == right.owner_id.deep_view()
    &&& left.audience.deep_view() == right.audience.deep_view()
}

/// A new turn retracts exactly what the turn before it announced: the same
/// notification, for the same people, in the same order.
pub proof fn law_a_new_turn_retracts_the_previous_settled(
    settled: AgentSessionLifecycleEvent,
    started: AgentSessionLifecycleEvent,
)
    requires
        settled is Settled && settled->Settled_0.last_turn is Some,
        started is TurnStarted,
        same_session(settled->Settled_0.identity, started->TurnStarted_0.identity),
        started->TurnStarted_0.turn.0 == settled->Settled_0.last_turn->0.turn.0 + 1,
    ensures
        plan_of(settled).len() == 1,
        plan_of(settled)[0] matches ActionView::Settled(notify) && plan_of(started)
            == mark_done_for(notify.recipients, notify.notification_id),
{
}

/// An answer retracts exactly the question it answers, for the one person who
/// was asked.
pub proof fn law_an_answer_retracts_its_question(
    waiting: AgentSessionLifecycleEvent,
    received: AgentSessionLifecycleEvent,
)
    requires
        waiting is WaitingForInput,
        received is InputReceived,
        same_session(waiting->WaitingForInput_0.identity, received->InputReceived_0.identity),
        waiting->WaitingForInput_0.turn == received->InputReceived_0.turn,
    ensures
        plan_of(waiting).len() == 1,
        plan_of(waiting)[0] matches ActionView::WaitingForInput(notify) && plan_of(received)
            == mark_done_for(notify.recipients, notify.notification_id),
{
}

/// What a fact tells people about, where it tells them anything.
pub enum Subject {
    /// A turn that finished.
    Finished { session: AgentSessionId, turn: TurnId },
    /// A turn that needs an answer.
    Question { session: AgentSessionId, turn: TurnId },
    /// A prompt that names people.
    Mention { session: AgentSessionId, action: AgentActionId },
}

/// What a fact tells people about, where it tells them anything.
pub open spec fn subject_of(event: AgentSessionLifecycleEvent) -> Option<Subject> {
    match event {
        AgentSessionLifecycleEvent::Settled(settled) => match settled.last_turn {
            Some(last) => Some(
                Subject::Finished { session: settled.identity.session_id, turn: last.turn },
            ),
            None => None,
        },
        AgentSessionLifecycleEvent::WaitingForInput(waiting) => Some(
            Subject::Question { session: waiting.identity.session_id, turn: waiting.turn },
        ),
        AgentSessionLifecycleEvent::Mentioned(mentioned) => if mentioned.mentioned@.len() == 0 {
            None
        } else {
            Some(
                Subject::Mention {
                    session: mentioned.identity.session_id,
                    action: mentioned.action_id,
                },
            )
        },
        _ => None,
    }
}

/// The id an action creates a notification under, where it creates one.
pub open spec fn created_id(action: ActionView) -> Option<u128> {
    match action {
        ActionView::Settled(notify) => Some(notify.notification_id),
        ActionView::WaitingForInput(notify) => Some(notify.notification_id),
        ActionView::Mentioned(notify) => Some(notify.notification_id),
        ActionView::MarkDone { .. } => None,
    }
}

/// A redelivered fact creates no second notification: facts about the same
/// turn, question or prompt of the same session create one notification each,
/// under the same id, whatever else they carry.
pub proof fn law_redelivery_keeps_the_id(
    first: AgentSessionLifecycleEvent,
    again: AgentSessionLifecycleEvent,
)
    requires
        subject_of(first) is Some,
        subject_of(first) == subject_of(again),
    ensures
        plan_of(first).len() == 1,
        plan_of(again).len() == 1,
        created_id(plan_of(first)[0]) is Some,
        created_id(plan_of(first)[0]) == created_id(plan_of(again)[0]),
{
}

proof fn lemma_split_at_colon(left: Text, left_rest: Text, right: Text, right_rest: Text)
    requires
        left + ":"@ + left_rest == right + ":"@ + right_rest,
        forall|i: int| 0 <= i < left.len() ==> #[trigger] left[i] != ':',
        forall|i: int| 0 <= i < right.len() ==> #[trigger] right[i] != ':',
    ensures
        left == right,
        left_rest == right_rest,
{
    reveal_strlit(":");
    let whole = left + ":"@ + left_rest;
    let other = right + ":"@ + right_rest;
    assert(whole[left.len() as int] == ':');
    assert(other[right.len() as int] == ':');
    if left.len() < right.len() {
        assert(other[left.len() as int] == right[left.len() as int]);
    }
    if right.len() < left.len() {
        assert(whole[right.len() as int] == left[right.len() as int]);
    }
    assert(left =~= whole.take(left.len() as int));
    assert(right =~= other.take(left.len() as int));
    assert(left_rest =~= whole.skip((left.len() + 1) as int));
    assert(right_rest =~= other.skip((left.len() + 1) as int));
}

/// Notifications about different things are derived from different names: the
/// session, what in it the notification is about, and the kind can all be read
/// back from the name.
pub proof fn law_names_tell_notifications_apart(
    left_session: u128,
    left_about: Text,
    left_kind: Text,
    right_session: u128,
    right_about: Text,
    right_kind: Text,
)
    requires
        id_name(left_session, left_about, left_kind) == id_name(
            right_session,
            right_about,
            right_kind,
        ),
        forall|i: int| 0 <= i < left_about.len() ==> #[trigger] left_about[i] != ':',
        forall|i: int| 0 <= i < right_about.len() ==> #[trigger] right_about[i] != ':',
    ensures
        left_session == right_session,
        left_about == right_about,
        left_kind == right_kind,
{
    let left = hyphenated(left_session);
    let right = hyphenated(right_session);
    lemma_hyphenated(left_session);
    lemma_hyphenated(right_session);
    let left_rest = left_about + ":"@ + left_kind;
    let right_rest = right_about + ":"@ + right_kind;
    assert(id_name(left_session, left_about, left_kind) =~= left + ":"@ + left_rest);
    assert(id_name(right_session, right_about, right_kind) =~= right + ":"@ + right_rest);
    lemma_split_at_colon(left, left_rest, right, right_rest);
    lemma_hyphenated_injective(left_session, right_session);
    lemma_split_at_colon(left_about, left_kind, right_about, right_kind);
}

/// The names of a session's "finished" notifications differ from turn to turn,
/// from session to session, and from those of every other kind.
pub proof fn law_turn_names_are_distinct(
    left_session: u128,
    left_turn: u32,
    left_kind: Text,
    right_session: u128,
    right_turn: u32,
    right_kind: Text,
)
    requires
        id_name(left_session, decimal_text(left_turn as nat), left_kind) == id_name(
            right_session,
            decimal_text(right_turn as nat),
            right_kind,
        ),
    ensures
        left_session == right_session,
        left_turn == right_turn,
        left_kind == right_kind,
{
    lemma_decimal_text(left_turn as nat);
    lemma_decimal_text(right_turn as nat);
    law_names_tell_notifications_apart(
        left_session,
        decimal_text(left_turn as nat),
        left_kind,
        right_session,
        decimal_text(right_turn as nat),
        right_kind,
    );
    lemma_decimal_text_injective(left_turn as nat, right_turn as nat);
}

/// No two kinds of notification share a name, so the same turn's "finished"
/// and "needs an answer" never collide.
pub proof fn law_kinds_are_distinct()
    ensures
        "agent_session_settled"@ != "agent_session_waiting_for_input"@,
        "agent_session_settled"@ != "agent_session_mentioned"@,
        "agent_session_waiting_for_input"@ != "agent_session_mentioned"@,
{
    reveal_strlit("agent_session_settled");
    reveal_strlit("agent_session_waiting_for_input");
    reveal_strlit("agent_session_mentioned");
    assert("agent_session_settled"@.len() == 21);
    assert("agent_session_waiting_for_input"@.len() == 31);
    assert("agent_session_mentioned"@.len() == 23);
}

} // verus!

//! The facts of a session's lifecycle, as the platform's other parts hear them.

use crate::identity::{hyphenate, hyphenated};
use crate::sessions::model::{AgentActionId, AgentSessionId, BotId, MacroUserId, TurnId};
use crate::text::Text;
use vstd::prelude::*;

verus! {

/// The thread a session was opened from.
#[derive(Debug, Clone, Copy, PartialEq, Eq, Structural)]
pub struct ThreadOrigin {
    /// The channel.
    pub channel_id: u128,
    /// The thread's root message.
    pub thread_id: u128,
    /// The message that invoked the bot.
    pub originating_message_id: u128,
}

/// The session a fact is about.
#[derive(Debug, PartialEq, Eq)]
pub struct SessionIdentity {
    /// The session.
    pub session_id: AgentSessionId,
    /// Its user-facing name.
    pub session_name: String,
    /// The bot running it.
    pub bot_id: BotId,
    /// The bot's display name.
    pub bot_name: String,
    /// The user who owns the session.
    pub owner_id: MacroUserId,
    /// The thread it was opened from, when it was.
    pub origin: Option<ThreadOrigin>,
    /// Everyone who has driven the session. Empty on facts published before
    /// the audience existed.
    pub audience: Vec<MacroUserId>,
}

/// A session was opened.
#[derive(Debug, PartialEq, Eq)]
pub struct SessionOpenedMetadata {
    /// The session.
    pub identity: SessionIdentity,
    /// Model slug.
    pub model: String,
    /// Harness slug.
    pub harness: String,
}

/// A turn started.
#[derive(Debug, PartialEq, Eq)]
pub struct TurnStartedMetadata {
    /// The session.
    pub identity: SessionIdentity,
    /// The turn.
    pub turn: TurnId,
    /// The action it runs.
    pub action_id: AgentActionId,
    /// Who asked for it.
    pub actor: Option<MacroUserId>,
    /// The message that announced it.
    pub announcement_message_id: Option<u128>,
}

/// A turn ended.
#[derive(Debug, PartialEq, Eq)]
pub struct TurnEndedMetadata {
    /// The session.
    pub identity: SessionIdentity,
    /// The turn.
    pub turn: TurnId,
    /// The action it ran.
    pub action_id: AgentActionId,
    /// Who asked for it.
    pub actor: Option<MacroUserId>,
    /// The message that announced it.
    pub announcement_message_id: Option<u128>,
    /// Why it ended.
    pub stop_reason: String,
    /// How many actions still wait.
    pub queued_remaining: u64,
}

/// What is said of the turn after which a session settled.
#[derive(Debug, PartialEq, Eq)]
pub struct TurnSummary {
    /// The turn.
    pub turn: TurnId,
    /// The action it ran.
    pub action_id: AgentActionId,
    /// Who asked for it.
    pub actor: Option<MacroUserId>,
    /// The message that announced it.
    pub announcement_message_id: Option<u128>,
    /// Why it ended.
    pub stop_reason: String,
    /// The end of the agent's answer.
    pub excerpt: Option<String>,
}

/// A session has nothing left to do.
#[derive(Debug, PartialEq, Eq)]
pub struct SessionSettledMetadata {
    /// The session.
    pub identity: SessionIdentity,
    /// Its last turn.
    pub last_turn: Option<TurnSummary>,
}

/// A session waits for its owner to answer a question.
#[derive(Debug, PartialEq, Eq)]
pub struct WaitingForInputMetadata {
    /// The session.
    pub identity: SessionIdentity,
    /// The turn that asks.
    pub turn: TurnId,
    /// The action it runs.
    pub action_id: AgentActionId,
    /// The message that announced it.
    pub announcement_message_id: Option<u128>,
    /// The question.
    pub question: String,
}

/// The owner answered.
#[derive(Debug, PartialEq, Eq)]
pub struct InputReceivedMetadata {
    /// The session.
    pub identity: SessionIdentity,
    /// The turn that asked.
    pub turn: TurnId,
    /// The action it runs.
    pub action_id: AgentActionId,
}

/// A prompt named people.
#[derive(Debug, PartialEq, Eq)]
pub struct SessionMentionedMetadata {
    /// The session.
    pub identity: SessionIdentity,
    /// The prompt.
    pub action_id: AgentActionId,
    /// Who wrote it.
    pub mentioned_by: Option<MacroUserId>,
    /// Who it named, already narrowed to those with access.
    pub mentioned: Vec<MacroUserId>,
}

/// A session stopped without settling.
#[derive(Debug, PartialEq, Eq)]
pub struct SessionStoppedMetadata {
    /// The session.
    pub identity: SessionIdentity,
    /// Why.
    pub reason: String,
    /// The turn it stopped in.
    pub turn_in_flight: Option<TurnId>,
}

/// A session was renamed.
#[derive(Debug, PartialEq, Eq)]
pub struct SessionRenamedMetadata {
    /// The session, under its new name.
    pub identity: SessionIdentity,
}

/// A session was deleted.
#[derive(Debug, PartialEq, Eq)]
pub struct SessionDeletedMetadata {
    /// The session.
    pub identity: SessionIdentity,
}

/// One fact of a session's lifecycle.
#[derive(Debug, PartialEq, Eq)]
pub enum AgentSessionLifecycleEvent {
    /// The session was opened.
    Opened(SessionOpenedMetadata),
    /// A turn started.
    TurnStarted(TurnStartedMetadata),
    /// A turn ended.
    TurnEnded(TurnEndedMetadata),
    /// The session has nothing left to do.
    Settled(SessionSettledMetadata),
    /// The session waits for its owner.
    WaitingForInput(WaitingForInputMetadata),
    /// The owner answered.
    InputReceived(InputReceivedMetadata),
    /// A prompt named people.
    Mentioned(SessionMentionedMetadata),
    /// The session stopped without settling.
    Stopped(SessionStoppedMetadata),
    /// The session was renamed.
    Renamed(SessionRenamedMetadata),
    /// The session was deleted.
    Deleted(SessionDeletedMetadata),
}

impl AgentSessionLifecycleEvent {
    /// The session the fact is about.
    pub open spec fn subject(self) -> SessionIdentity {
        match self {
            AgentSessionLifecycleEvent::Opened(fact) => fact.identity,
            AgentSessionLifecycleEvent::TurnStarted(fact) => fact.identity,
            AgentSessionLifecycleEvent::TurnEnded(fact) => fact.identity,
            AgentSessionLifecycleEvent::Settled(fact) => fact.identity,
            AgentSessionLifecycleEvent::WaitingForInput(fact) => fact.identity,
            AgentSessionLifecycleEvent::InputReceived(fact) => fact.identity,
            AgentSessionLifecycleEvent::Mentioned(fact) => fact.identity,
            AgentSessionLifecycleEvent::Stopped(fact) => fact.identity,
            AgentSessionLifecycleEvent::Renamed(fact) => fact.identity,
            AgentSessionLifecycleEvent::Deleted(fact) => fact.identity,
        }
    }

    /// The name subscribers filter on.
    pub open spec fn wire_name(self) -> Text {
        match self {
            AgentSessionLifecycleEvent::Opened(_) => "agent_session.opened"@,
            AgentSessionLifecycleEvent::TurnStarted(_) => "agent_session.turn_started"@,
            AgentSessionLifecycleEvent::TurnEnded(_) => "agent_session.turn_ended"@,
            AgentSessionLifecycleEvent::Settled(_) => "agent_session.settled"@,
            AgentSessionLifecycleEvent::WaitingForInput(_) => "agent_session.waiting_for_input"@,
            AgentSessionLifecycleEvent::InputReceived(_) => "agent_session.input_received"@,
            AgentSessionLifecycleEvent::Mentioned(_) => "agent_session.mentioned"@,
            AgentSessionLifecycleEvent::Stopped(_) => "agent_session.stopped"@,
            AgentSessionLifecycleEvent::Renamed(_) => "agent_session.renamed"@,
            AgentSessionLifecycleEvent::Deleted(_) => "agent_session.deleted"@,
        }
    }

    /// The session the fact is about.
    pub fn identity(&self) -> (identity: &SessionIdentity)
        ensures
            *identity == self.subject(),
    {
        match self {
            AgentSessionLifecycleEvent::Opened(fact) => &fact.identity,
            AgentSessionLifecycleEvent::TurnStarted(fact) => &fact.identity,
            AgentSessionLifecycleEvent::TurnEnded(fact) => &fact.identity,
            AgentSessionLifecycleEvent::Settled(fact) => &fact.identity,
            AgentSessionLifecycleEvent::WaitingForInput(fact) => &fact.identity,
            AgentSessionLifecycleEvent::InputReceived(fact) => &fact.identity,
            AgentSessionLifecycleEvent::Mentioned(fact) => &fact.identity,
            AgentSessionLifecycleEvent::Stopped(fact) => &fact.identity,
            AgentSessionLifecycleEvent::Renamed(fact) => &fact.identity,
            AgentSessionLifecycleEvent::Deleted(fact) => &fact.identity,
        }
    }

    /// The id of the session the fact is about.
    pub fn session_id(&self) -> (id: AgentSessionId)
        ensures
            id == self.subject().session_id,
    {
        self.identity().session_id
    }

    /// The name subscribers filter on.
    pub fn name(&self) -> (name: &'static str)
        ensures
            name@ == self.wire_name(),
    {
        match self {
            AgentSessionLifecycleEvent::Opened(_) => "agent_session.opened",
            AgentSessionLifecycleEvent::TurnStarted(_) => "agent_session.turn_started",
            AgentSessionLifecycleEvent::TurnEnded(_) => "agent_session.turn_ended",
            AgentSessionLifecycleEvent::Settled(_) => "agent_session.settled",
            AgentSessionLifecycleEvent::WaitingForInput(_) => "agent_session.waiting_for_input",
            AgentSessionLifecycleEvent::InputReceived(_) => "agent_session.input_received",
            AgentSessionLifecycleEvent::Mentioned(_) => "agent_session.mentioned",
            AgentSessionLifecycleEvent::Stopped(_) => "agent_session.stopped",
            AgentSessionLifecycleEvent::Renamed(_) => "agent_session.renamed",
            AgentSessionLifecycleEvent::Deleted(_) => "agent_session.deleted",
        }
    }
}

/// A fact goes by the name of its kind, under one prefix for all of them, and no
/// two kinds share a name.
pub proof fn law_a_fact_goes_by_its_kind(event: AgentSessionLifecycleEvent)
    ensures
        event.wire_name() == "agent_session.opened"@ <==> event is Opened,
        event.wire_name() == "agent_session.turn_started"@ <==> event is TurnStarted,
        event.wire_name() == "agent_session.turn_ended"@ <==> event is TurnEnded,
        event.wire_name() == "agent_session.settled"@ <==> event is Settled,
        event.wire_name() == "agent_session.waiting_for_input"@ <==> event is WaitingForInput,
        event.wire_name() == "agent_session.input_received"@ <==> event is InputReceived,
        event.wire_name() == "agent_session.mentioned"@ <==> event is Mentioned,
        event.wire_name() == "agent_session.stopped"@ <==> event is Stopped,
        event.wire_name() == "agent_session.renamed"@ <==> event is Renamed,
        event.wire_name() == "agent_session.deleted"@ <==> event is Deleted,
{
    reveal_strlit("agent_session.opened");
    reveal_strlit("agent_session.turn_started");
    reveal_strlit("agent_session.turn_ended");
    reveal_strlit("agent_session.settled");
    reveal_strlit("agent_session.waiting_for_input");
    reveal_strlit("agent_session.input_received");
    reveal_strlit("agent_session.mentioned");
    reveal_strlit("agent_session.stopped");
    reveal_strlit("agent_session.renamed");
    reveal_strlit("agent_session.deleted");
    assert("agent_session.opened"@.len() == 20 && "agent_session.opened"@[14] == 'o' && "agent_session.opened"@[15] == 'p');
    assert("agent_session.turn_started"@.len() == 26 && "agent_session.turn_started"@[14] == 't' && "agent_session.turn_started"@[15] == 'u');
    assert("agent_session.turn_ended"@.len() == 24 && "agent_session.turn_ended"@[14] == 't' && "agent_session.turn_ended"@[15] == 'u');
    assert("agent_session.settled"@.len() == 21 && "agent_session.settled"@[14] == 's' && "agent_session.settled"@[15] == 'e');
    assert("agent_session.waiting_for_input"@.len() == 31 && "agent_session.waiting_for_input"@[14] == 'w' && "agent_session.waiting_for_input"@[15] == 'a');
    assert("agent_session.input_received"@.len() == 28 && "agent_session.input_received"@[14] == 'i' && "agent_session.input_received"@[15] == 'n');
    assert("agent_session.mentioned"@.len() == 23 && "agent_session.mentioned"@[14] == 'm' && "agent_session.mentioned"@[15] == 'e');
    assert("agent_session.stopped"@.len() == 21 && "agent_session.stopped"@[14] == 's' && "agent_session.stopped"@[15] == 't');
    assert("agent_session.renamed"@.len() == 21 && "agent_session.renamed"@[14] == 'r' && "agent_session.renamed"@[15] == 'e');
    assert("agent_session.deleted"@.len() == 21 && "agent_session.deleted"@[14] == 'd' && "agent_session.deleted"@[15] == 'e');
}

/// A fact is about the session it names, whatever its kind.
pub proof fn law_a_fact_is_about_its_session(event: AgentSessionLifecycleEvent)
    ensures
        match event {
            AgentSessionLifecycleEvent::Opened(fact) => event.subject() == fact.identity,
            AgentSessionLifecycleEvent::TurnStarted(fact) => event.subject() == fact.identity,
            AgentSessionLifecycleEvent::TurnEnded(fact) => event.subject() == fact.identity,
            AgentSessionLifecycleEvent::Settled(fact) => event.subject() == fact.identity,
            AgentSessionLifecycleEvent::WaitingForInput(fact) => event.subject() == fact.identity,
            AgentSessionLifecycleEvent::InputReceived(fact) => event.subject() == fact.identity,
            AgentSessionLifecycleEvent::Mentioned(fact) => event.subject() == fact.identity,
            AgentSessionLifecycleEvent::Stopped(fact) => event.subject() == fact.identity,
            AgentSessionLifecycleEvent::Renamed(fact) => event.subject() == fact.identity,
            AgentSessionLifecycleEvent::Deleted(fact) => event.subject() == fact.identity,
        },
{
}

/// A fact in the envelope the broker carries.
#[derive(Debug, PartialEq, Eq)]
pub struct LifecycleEnvelope {
    /// The version of the envelope's shape.
    pub schema_version: u32,
    /// The fact.
    pub event: AgentSessionLifecycleEvent,
}

/// A fact on its way to the broker.
#[derive(Debug, PartialEq, Eq)]
pub struct AgentSessionLifecycleMacroEvent {
    envelope: LifecycleEnvelope,
}

impl AgentSessionLifecycleMacroEvent {
    /// The envelope the broker carries.
    pub closed spec fn carried(self) -> LifecycleEnvelope {
        self.envelope
    }

    /// Put a fact into its envelope.
    pub fn new(event: AgentSessionLifecycleEvent) -> (message: Self)
        ensures
            message.carried() == (LifecycleEnvelope { schema_version: 1, event }),
    {
        AgentSessionLifecycleMacroEvent { envelope: LifecycleEnvelope { schema_version: 1, event } }
    }

    /// The envelope the broker carries.
    pub fn event(&self) -> (envelope: &LifecycleEnvelope)
        ensures
            *envelope == self.carried(),
    {
        &self.envelope
    }

    /// The topic lifecycle facts travel on.
    pub fn topic(&self) -> (topic: &'static str)
        ensures
            topic@ == "macro.agent_session_lifecycle"@,
    {
        "macro.agent_session_lifecycle"
    }

    /// The partition key: the session, so its facts stay in order.
    pub fn key(&self) -> (key: String)
        ensures
            key@ == hyphenated(self.carried().event.subject().session_id.value),
    {
        hyphenate(self.envelope.event.session_id().value)
    }
}

} // verus!

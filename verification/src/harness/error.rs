//! Harness errors, and their collapse into the session vocabulary.

use crate::identity::{hyphenate, hyphenated};
use crate::sessions::model::AgentSessionId;
use crate::text::Text;
use vstd::prelude::*;

verus! {

/// A failure of a session operation.
#[derive(Debug, PartialEq, Eq)]
pub enum AgentSessionError {
    /// The session has no runtime to talk to any more.
    Disconnected(AgentSessionId),
    /// A failure of one of the kinds the session service names.
    Known(String),
    /// Anything else.
    Unknown(String),
}

/// A failure while provisioning or running an agent session.
#[derive(Debug, PartialEq, Eq)]
#[non_exhaustive]
pub enum HarnessError {
    /// A container could not be spawned or reattached.
    Container(String),
    /// The session's owner has no Cursor API key registered. The one
    /// provisioning failure that is the user's to fix.
    CursorNotConnected,
    /// The agent would not open a session.
    Handshake(String),
    /// The session has no container to talk to any more.
    Disconnected(AgentSessionId),
    /// The session's transport failed.
    Transport(String),
    /// An action could not be expressed in the agent's protocol.
    Action(String),
    /// Building or reading a protocol message failed.
    Acp(String),
    /// Reading or writing the session's persistent state failed.
    Session(AgentSessionError),
    /// A session command worker stopped before reporting its result.
    CommandWorkerStopped(AgentSessionId),
    /// The sandbox's egress environment could not be prepared.
    Egress(String),
    /// The session link could not be posted back to the mention's thread.
    Announce(String),
    /// Required context for a channel-originated prompt could not be loaded.
    PromptContext(String),
    /// A prompt could not be composed for the agent runtime.
    PromptComposition(String),
    /// Forwarding a command to the session's managing replica failed.
    Forward(String),
    /// A bot's persisted agent runtime configuration could not be loaded.
    RuntimeDirectory(String),
    /// Who a prompt mentions could not be resolved.
    Mentions(String),
}

/// What a session error says.
pub open spec fn session_error_words(error: AgentSessionError) -> Text {
    match error {
        AgentSessionError::Disconnected(session) => "agent session "@ + hyphenated(session.value)
            + " is no longer connected"@,
        AgentSessionError::Known(message) => message@,
        AgentSessionError::Unknown(message) => message@,
    }
}

/// What a harness error says.
pub open spec fn harness_error_words(error: HarnessError) -> Text {
    match error {
        HarnessError::Container(reason) => "container unavailable: "@ + reason@,
        HarnessError::CursorNotConnected => {
            "connect your Cursor account in Settings → Agents → Harness to use @cursor"@
        },
        HarnessError::Handshake(reason) => "acp handshake failed: "@ + reason@,
        HarnessError::Disconnected(session) => "agent session "@ + hyphenated(session.value)
            + " is no longer connected"@,
        HarnessError::Transport(reason) => reason@,
        HarnessError::Action(reason) => reason@,
        HarnessError::Acp(reason) => reason@,
        HarnessError::Session(error) => session_error_words(error),
        HarnessError::CommandWorkerStopped(session) => "agent session "@ + hyphenated(
            session.value,
        ) + " command worker stopped"@,
        HarnessError::Egress(reason) => "failed to provision sandbox egress: "@ + reason@,
        HarnessError::Announce(reason) => "failed to announce the agent session: "@ + reason@,
        HarnessError::PromptContext(reason) => "failed to load channel prompt context: "@
            + reason@,
        HarnessError::PromptComposition(reason) => "failed to compose agent prompt: "@ + reason@,
        HarnessError::Forward(reason) => "failed to forward an agent session command: "@ + reason@,
        HarnessError::RuntimeDirectory(reason) => {
            "failed to resolve agent runtime configuration: "@ + reason@
        },
        HarnessError::Mentions(reason) => "failed to resolve prompt mentions: "@ + reason@,
    }
}

fn sentence(beginning: &str, end: &str) -> (words: String)
    ensures
        words@ == beginning@ + end@,
{
    let mut words: String = beginning.to_owned();
    words.append(end);
    words
}

fn about_session(session: AgentSessionId, end: &str) -> (words: String)
    ensures
        words@ == "agent session "@ + hyphenated(session.value) + end@,
{
    let mut words: String = "agent session ".to_owned();
    words.append(hyphenate(session.value).as_str());
    words.append(end);
    words
}

impl AgentSessionError {
    /// The error in words.
    pub fn message(&self) -> (words: String)
        ensures
            words@ == session_error_words(*self),
    {
        match self {
            AgentSessionError::Disconnected(session) => about_session(
                *session,
                " is no longer connected",
            ),
            AgentSessionError::Known(message) => message.clone(),
            AgentSessionError::Unknown(message) => message.clone(),
        }
    }
}

impl HarnessError {
    /// The error in words.
    pub fn message(&self) -> (words: String)
        ensures
            words@ == harness_error_words(*self),
    {
        match self {
            HarnessError::Container(reason) => sentence("container unavailable: ", reason.as_str()),
            HarnessError::CursorNotConnected => {
                "connect your Cursor account in Settings → Agents → Harness to use @cursor"
                    .to_owned()
            },
            HarnessError::Handshake(reason) => sentence("acp handshake failed: ", reason.as_str()),
            HarnessError::Disconnected(session) => about_session(
                *session,
                " is no longer connected",
            ),
            HarnessError::Transport(reason) => reason.clone(),
            HarnessError::Action(reason) => reason.clone(),
            HarnessError::Acp(reason) => reason.clone(),
            HarnessError::Session(error) => error.message(),
            HarnessError::CommandWorkerStopped(session) => about_session(
                *session,
                " command worker stopped",
            ),
            HarnessError::Egress(reason) => sentence(
                "failed to provision sandbox egress: ",
                reason.as_str(),
            ),
            HarnessError::Announce(reason) => sentence(
                "failed to announce the agent session: ",
                reason.as_str(),
            ),
            HarnessError::PromptContext(reason) => sentence(
                "failed to load channel prompt context: ",
                reason.as_str(),
            ),
            HarnessError::PromptComposition(reason) => sentence(
                "failed to compose agent prompt: ",
                reason.as_str(),
            ),
            HarnessError::Forward(reason) => sentence(
                "failed to forward an agent session command: ",
                reason.as_str(),
            ),
            HarnessError::RuntimeDirectory(reason) => sentence(
                "failed to resolve agent runtime configuration: ",
                reason.as_str(),
            ),
            HarnessError::Mentions(reason) => sentence(
                "failed to resolve prompt mentions: ",
                reason.as_str(),
            ),
        }
    }
}

/// Collapse a harness failure back into the session vocabulary.
///
/// A harness error that started life as a session error is unwrapped rather
/// than re-wrapped, so a caller still sees `Disconnected` as `Disconnected`.
pub fn into_session_error(error: HarnessError) -> (collapsed: AgentSessionError)
    ensures
        match error {
            HarnessError::Session(inner) => collapsed == inner,
            HarnessError::Disconnected(session) => collapsed == AgentSessionError::Disconnected(
                session,
            ),
            _ => collapsed matches AgentSessionError::Unknown(words) && words@
                == harness_error_words(error),
        },
{
    match error {
        HarnessError::Session(error) => error,
        HarnessError::Disconnected(session) => AgentSessionError::Disconnected(session),
        other => AgentSessionError::Unknown(other.message()),
    }
}

} // verus!

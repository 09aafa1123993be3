//! Session-level state derived from a session's log.

use vstd::prelude::*;

verus! {

/// Which agent produced a session's log.
///
/// [`Harness::Unknown`] is a real state, not a failure: every reader falls
/// back to the harness-neutral conventions.
#[derive(Debug, Clone, Copy, PartialEq, Eq, Hash, Structural)]
pub enum Harness {
    /// Anthropic's coding agent.
    ClaudeCode,
    /// `OpenCode`, whose protocol server is built in.
    OpenCode,
    /// OpenAI Codex.
    Codex,
    /// Cursor cloud agents.
    Cursor,
    /// Macro's own in-process agent.
    Macro,
    /// Nous Research's Hermes agent.
    Hermes,
    /// OpenClaw.
    OpenClaw,
    /// Not announced, or an agent nobody knows.
    Unknown,
}

impl Default for Harness {
    /// Nobody has announced themselves yet.
    fn default() -> (harness: Self)
        ensures
            harness == Harness::Unknown,
    {
        Harness::Unknown
    }
}

/// Session-level state derived from the log, latest-wins and carried whole.
/// Fields start absent and fill in as the log reveals them.
#[derive(Debug, PartialEq, Eq)]
pub struct SessionMetadata {
    /// The agent that produced the log.
    pub harness: Harness,
    /// Current model per the runtime's own responses, so a rejected model
    /// change never moves it.
    pub model: Option<String>,
    /// The models the runtime offers, in the order it listed them.
    pub supported_models: Vec<ModelOption>,
    /// Session title, when the harness reports one.
    pub title: Option<String>,
    /// The slash commands the harness most recently advertised, in the order
    /// it listed them.
    pub available_commands: Vec<AvailableCommand>,
    /// The last system event's wire name, `None` until the runtime reports
    /// one.
    pub status: Option<String>,
    /// The one question the user can answer right now, as its JSON text.
    pub pending_elicitation: Option<String>,
    /// The pull request the session's work is on, when the harness reports
    /// one. Latest-wins and never cleared: no harness reports a pull request
    /// going away.
    pub pull_request_url: Option<String>,
}

impl Default for SessionMetadata {
    /// What is known before the log says anything.
    fn default() -> (metadata: Self)
        ensures
            metadata.harness == Harness::Unknown,
            metadata.model is None,
            metadata.supported_models@.len() == 0,
            metadata.title is None,
            metadata.available_commands@.len() == 0,
            metadata.status is None,
            metadata.pending_elicitation is None,
            metadata.pull_request_url is None,
    {
        SessionMetadata {
            harness: Harness::Unknown,
            model: None,
            supported_models: Vec::new(),
            title: None,
            available_commands: Vec::new(),
            status: None,
            pending_elicitation: None,
            pull_request_url: None,
        }
    }
}

/// One slash command the harness advertises.
#[derive(Debug, PartialEq, Eq)]
pub struct AvailableCommand {
    /// Bare name as advertised, without a leading slash.
    pub name: String,
    /// Human-readable description, verbatim from the harness.
    pub description: String,
    /// Placeholder text for the command's input, when it takes any.
    pub input_hint: Option<String>,
}

/// One model the runtime offers.
#[derive(Debug, PartialEq, Eq)]
pub struct ModelOption {
    /// The value to send back to select this model.
    pub id: String,
    /// Human-readable label.
    pub name: String,
    /// Descriptive copy: pricing, context size, and the like.
    pub description: Option<String>,
    /// The heading the runtime listed this model under, when it grouped its
    /// options.
    pub group: Option<String>,
}

} // verus!

//! The harness's stand-ins for parts a deployment does without.

use crate::harness::error::HarnessError;
use crate::sessions::model::{AgentSessionId, MacroUserId, ReplicaId};
use vstd::prelude::*;

verus! {

/// The distributed destination for a forwarded command.
#[derive(Debug, Clone, Copy, PartialEq, Eq, Structural)]
pub enum CommandTarget {
    /// The replica that owns the session actor.
    Replica(ReplicaId),
    /// The replica holding a registered harness's runtime socket, by the
    /// harness's UUID.
    Harness(u128),
}

/// A forwarder for deployments with exactly one replica, where a live peer
/// cannot exist: being asked to forward is itself the error, loudly, rather
/// than a silent local fallback that would mask a mis-wiring.
#[derive(Debug, Clone, Copy, PartialEq, Eq, Structural)]
pub struct NoPeers;

impl NoPeers {
    /// Refuse to forward a command.
    pub fn forward<Command, Outcome>(
        &self,
        session: AgentSessionId,
        command: Command,
        target: CommandTarget,
    ) -> (outcome: Result<Outcome, HarnessError>)
        ensures
            outcome == Err::<Outcome, HarnessError>(HarnessError::Disconnected(session)),
    {
        Err(HarnessError::Disconnected(session))
    }
}

/// A mention lookup that finds nobody: tests and tooling that never notify.
#[derive(Debug, Clone, Copy, PartialEq, Eq, Structural)]
pub struct NoPromptMentions;

impl NoPromptMentions {
    /// Nobody.
    pub fn mentioned_users(&self, session: AgentSessionId, prompt: &str) -> (users: Vec<
        MacroUserId,
    >)
        ensures
            users@.len() == 0,
    {
        Vec::new()
    }
}

/// A scripted mention lookup: answers every prompt with the same users, or
/// fails every time. Finds nobody by default.
#[derive(Debug, PartialEq, Eq)]
pub struct PromptMentionsMock {
    /// Whom every prompt mentions.
    pub mentioned: Vec<MacroUserId>,
    /// Why every lookup fails, when it does.
    pub failure: Option<String>,
    /// Every prompt that was asked about, in order.
    pub prompts: Vec<String>,
}

impl PromptMentionsMock {
    /// A script that mentions nobody and never fails.
    pub fn new() -> (mock: Self)
        ensures
            mock.mentioned@.len() == 0,
            mock.failure is None,
            mock.prompts@.len() == 0,
    {
        PromptMentionsMock { mentioned: Vec::new(), failure: None, prompts: Vec::new() }
    }

    /// Answer every prompt with `users` from now on.
    pub fn mentions(&mut self, users: Vec<MacroUserId>)
        ensures
            final(self).mentioned == users,
            final(self).failure == old(self).failure,
            final(self).prompts == old(self).prompts,
    {
        self.mentioned = users;
    }

    /// Fail every lookup from now on.
    pub fn fails(&mut self, message: &str)
        ensures
            final(self).failure.deep_view() == Some(message@),
            final(self).mentioned == old(self).mentioned,
            final(self).prompts == old(self).prompts,
    {
        self.failure = Some(message.to_owned());
    }

    /// Every prompt that was asked about, in order.
    pub fn prompts(&self) -> (asked: Vec<String>)
        ensures
            asked.deep_view() == self.prompts.deep_view(),
    {
        let asked: Vec<String> = self.prompts.clone();
        assert(asked.deep_view() =~= self.prompts.deep_view());
        asked
    }

    /// Answer one prompt by the script.
    pub fn mentioned_users(&mut self, session: AgentSessionId, prompt: &str) -> (answer: Result<
        Vec<MacroUserId>,
        HarnessError,
    >)
        ensures
            final(self).prompts.deep_view() == old(self).prompts.deep_view().push(prompt@),
            final(self).mentioned == old(self).mentioned,
            final(self).failure == old(self).failure,
            match old(self).failure {
                Some(message) => answer matches Err(HarnessError::Mentions(words)) && words@
                    == message@,
                None => answer matches Ok(users) && users.deep_view()
                    == old(self).mentioned.deep_view(),
            },
    {
        self.prompts.push(prompt.to_owned());
        assert(self.prompts.deep_view() =~= old(self).prompts.deep_view().push(prompt@));
        match &self.failure {
            Some(message) => Err(HarnessError::Mentions(message.clone())),
            None => {
                let users: Vec<MacroUserId> = self.mentioned.clone();
                assert(users.deep_view() =~= self.mentioned.deep_view());
                Ok(users)
            },
        }
    }
}

} // verus!

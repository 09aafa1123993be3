//! The records of agent sessions.

use crate::identity::{is_random_uuid, random_uuid};
use crate::text::Text;
use vstd::prelude::*;

verus! {

/// A person, by the id the platform knows them under.
#[derive(Debug, PartialEq, Eq)]
pub struct MacroUserId {
    /// The id, `macro|` followed by an email.
    pub value: String,
}

impl DeepView for MacroUserId {
    type V = Text;

    open spec fn deep_view(&self) -> Text {
        self.value@
    }
}

impl Clone for MacroUserId {
    fn clone(&self) -> (copy: Self)
        ensures
            copy == *self,
    {
        MacroUserId { value: self.value.clone() }
    }
}

impl MacroUserId {
    /// A person by their id.
    pub fn new(id: &str) -> (user: Self)
        ensures
            user.deep_view() == id@,
    {
        MacroUserId { value: id.to_owned() }
    }

    /// Whether two ids name the same person.
    pub fn same(&self, other: &MacroUserId) -> (same: bool)
        ensures
            same == (self.deep_view() == other.deep_view()),
    {
        self.value == other.value
    }
}

/// Whether a person is in a list.
pub fn contains_user(users: &Vec<MacroUserId>, user: &MacroUserId) -> (found: bool)
    ensures
        found == users.deep_view().contains(user.deep_view()),
{
    let ghost all = users.deep_view();
    let mut i: usize = 0;
    while i < users.len()
        invariant
            i <= users@.len(),
            all == users.deep_view(),
            forall|k: int| 0 <= k < i ==> #[trigger] all[k] != user.deep_view(),
        decreases users@.len() - i,
    {
        assert(all[i as int] == users@[i as int].deep_view());
        if users[i].same(user) {
            assert(all[i as int] == user.deep_view());
            return true;
        }
        i = i + 1;
    }
    false
}

/// A copy of a list of people.
pub fn clone_users(users: &Vec<MacroUserId>) -> (copy: Vec<MacroUserId>)
    ensures
        copy.deep_view() == users.deep_view(),
{
    let mut copy: Vec<MacroUserId> = Vec::new();
    let mut i: usize = 0;
    while i < users.len()
        invariant
            i <= users@.len(),
            copy@.len() == i,
            forall|k: int| 0 <= k < i ==> #[trigger] copy@[k] == users@[k],
        decreases users@.len() - i,
    {
        copy.push(users[i].clone());
        i = i + 1;
    }
    assert(copy.deep_view() =~= users.deep_view());
    copy
}

/// The first occurrence of each element, in order.
pub open spec fn first_occurrences(items: Seq<Text>) -> Seq<Text>
    decreases items.len(),
{
    if items.len() == 0 {
        Seq::empty()
    } else {
        let before = first_occurrences(items.drop_last());
        if before.contains(items.last()) {
            before
        } else {
            before.push(items.last())
        }
    }
}

/// Elements stay in the order of their first occurrence: what a longer list adds
/// comes after what the shorter one holds.
pub proof fn law_first_occurrences_stay_in_order(items: Seq<Text>, more: Seq<Text>)
    ensures
        first_occurrences(items).len() <= first_occurrences(items + more).len(),
        first_occurrences(items + more).take(first_occurrences(items).len() as int)
            == first_occurrences(items),
    decreases more.len(),
{
    let all = items + more;
    let before = first_occurrences(items);
    if more.len() == 0 {
        assert(all =~= items);
        assert(before.take(before.len() as int) =~= before);
    } else {
        law_first_occurrences_stay_in_order(items, more.drop_last());
        assert(all.drop_last() =~= items + more.drop_last());
        let shorter = first_occurrences(items + more.drop_last());
        assert(first_occurrences(all).take(before.len() as int) =~= shorter.take(
            before.len() as int,
        ));
    }
}

/// The list without repetitions holds exactly the same elements, each once,
/// and begins with the same one.
pub proof fn law_first_occurrences(items: Seq<Text>)
    ensures
        first_occurrences(items).no_duplicates(),
        forall|item: Text| #[trigger]
            first_occurrences(items).contains(item) <==> items.contains(item),
        items.len() > 0 ==> first_occurrences(items).len() > 0 && first_occurrences(items)[0]
            == items[0],
    decreases items.len(),
{
    if items.len() > 0 {
        let rest = items.drop_last();
        let before = first_occurrences(rest);
        let after = first_occurrences(items);
        law_first_occurrences(rest);
        assert(items =~= rest.push(items.last()));
        assert forall|item: Text| #[trigger] after.contains(item) <==> items.contains(item) by {
            if after.contains(item) {
                if before.contains(item) {
                    let i = rest.index_of(item);
                    assert(items[i] == item);
                } else {
                    assert(item == items.last());
                    assert(items[items.len() - 1] == item);
                }
            }
            if items.contains(item) {
                let i = items.index_of(item);
                if i < rest.len() {
                    assert(rest[i] == item);
                    assert(before.contains(item));
                    let k = before.index_of(item);
                    assert(after[k] == item);
                } else if !before.contains(item) {
                    assert(after[before.len() as int] == item);
                }
            }
        }
        if rest.len() == 0 {
            assert(before.len() == 0);
        }
    }
}

/// Each person once, in order of first mention.
pub fn dedup(users: &Vec<MacroUserId>) -> (unique: Vec<MacroUserId>)
    ensures
        unique.deep_view() == first_occurrences(users.deep_view()),
{
    let ghost all = users.deep_view();
    let mut unique: Vec<MacroUserId> = Vec::new();
    assert(unique.deep_view() =~= Seq::<Text>::empty());
    let mut i: usize = 0;
    while i < users.len()
        invariant
            i <= users@.len(),
            all == users.deep_view(),
            unique.deep_view() == first_occurrences(all.take(i as int)),
        decreases users@.len() - i,
    {
        proof {
            assert(all.take(i + 1).drop_last() =~= all.take(i as int));
            assert(all.take(i + 1).last() == users@[i as int].deep_view());
        }
        if !contains_user(&unique, &users[i]) {
            let ghost before = unique.deep_view();
            unique.push(users[i].clone());
            assert(unique.deep_view() =~= before.push(users@[i as int].deep_view()));
        }
        i = i + 1;
    }
    assert(all.take(i as int) =~= all);
    unique
}

/// An agent session.
#[derive(Debug, Clone, Copy, PartialEq, Eq, Structural)]
pub struct AgentSessionId {
    /// Its UUID.
    pub value: u128,
}

impl AgentSessionId {
    /// The session of a UUID.
    pub fn new_from_uuid(value: u128) -> (id: Self)
        ensures
            id.value == value,
    {
        AgentSessionId { value }
    }

    /// The session's UUID.
    pub fn as_uuid(&self) -> (value: u128)
        ensures
            value == self.value,
    {
        self.value
    }
}

/// A bot.
#[derive(Debug, Clone, Copy, PartialEq, Eq, Structural)]
pub struct BotId {
    /// Its UUID.
    pub value: u128,
}

/// One action accepted for a session, such as a prompt.
#[derive(Debug, Clone, Copy, PartialEq, Eq, Structural)]
pub struct AgentActionId {
    /// Its UUID.
    pub value: u128,
}

/// A turn's position in its session, counted from zero without gaps.
#[derive(Debug, Clone, Copy, PartialEq, Eq, Structural)]
pub struct TurnId(pub u32);

/// Identity of one harness participant, minted fresh at construction.
///
/// A restarted process is a new replica: whatever the old identity claimed is
/// released by its heartbeat going stale, never inherited.
#[derive(Debug, Clone, Copy, PartialEq, Eq, Structural)]
pub struct ReplicaId {
    value: u128,
}

impl ReplicaId {
    /// The replica's UUID.
    pub closed spec fn uuid(self) -> u128 {
        self.value
    }

    /// Mint a fresh replica identity: a random UUID. Which one is left to
    /// chance.
    pub fn mint() -> (replica: ReplicaId)
        ensures
            is_random_uuid(replica.uuid()),
    {
        ReplicaId { value: random_uuid() }
    }

    /// The raw UUID, for persistence.
    pub fn as_uuid(&self) -> (value: u128)
        ensures
            value == self.uuid(),
    {
        self.value
    }

    /// Rebuild an identity from its persisted UUID.
    pub fn from_uuid(value: u128) -> (replica: ReplicaId)
        ensures
            replica.uuid() == value,
    {
        ReplicaId { value }
    }
}

/// Persisting a replica's identity and rebuilding it gives the same replica.
pub proof fn law_replica_identity_round_trip(replica: ReplicaId, rebuilt: ReplicaId)
    requires
        rebuilt.uuid() == replica.uuid(),
    ensures
        rebuilt == replica,
{
}

/// A replica's own base URL, as peers should dial it for command forwarding.
#[derive(Debug, PartialEq, Eq)]
pub struct ReplicaAddress {
    value: String,
}

impl DeepView for ReplicaAddress {
    type V = Text;

    closed spec fn deep_view(&self) -> Text {
        self.value@
    }
}

impl ReplicaAddress {
    /// Wrap a base URL, such as `http://10.0.1.7:8100`.
    pub fn new(address: String) -> (wrapped: Self)
        ensures
            wrapped.deep_view() == address@,
    {
        ReplicaAddress { value: address }
    }

    /// The base URL as a string.
    pub fn as_str(&self) -> (address: &str)
        ensures
            address@ == self.deep_view(),
    {
        self.value.as_str()
    }
}

/// The live manager of a session, as read from the lease.
#[derive(Debug, PartialEq, Eq)]
pub struct SessionManager {
    /// The replica holding the claim.
    pub replica: ReplicaId,
    /// Where to forward its commands, when the replica has published one.
    /// `None` means the manager is live but unreachable.
    pub address: Option<ReplicaAddress>,
}

/// Where a session's live actor runs, from one service instance's viewpoint.
#[derive(Debug, PartialEq, Eq)]
pub enum SessionManagement {
    /// No live replica manages the session; this instance may claim it.
    Unmanaged,
    /// This instance's replica manages it.
    Ours,
    /// A live peer manages it; commands belong at its address.
    Peer(SessionManager),
}

/// A session's takeover counter, bumped by every successful claim.
#[derive(Debug, Clone, Copy, PartialEq, Eq, PartialOrd, Ord, Structural)]
pub struct ManagerFence(pub i64);

/// Proof that this replica claimed a session's live management.
#[derive(Debug, Clone, Copy, PartialEq, Eq, Structural)]
pub struct SessionClaim {
    /// The claimed session.
    pub session: AgentSessionId,
    /// The replica holding the claim.
    pub replica: ReplicaId,
    /// The fence this claim writes under.
    pub fence: ManagerFence,
}

/// What claiming a session yielded.
#[derive(Debug, Clone, Copy, PartialEq, Eq, Structural)]
pub enum ClaimOutcome {
    /// This replica now manages the session.
    Claimed(SessionClaim),
    /// A replica with a fresh heartbeat already manages it.
    ManagedElsewhere(ReplicaId),
}

/// Maximum number of Unicode scalar values in a session name.
pub const MAX_AGENT_SESSION_NAME_CHARS: usize = 100;

/// Maximum number of session ids one preview request may ask about.
pub const MAX_PREVIEW_SESSION_IDS: usize = 100;

/// Display name assigned to a newly created agent session.
pub const DEFAULT_AGENT_SESSION_NAME: &'static str = "Agent Session";

/// How a session last reported itself.
#[derive(Debug, PartialEq, Eq)]
pub enum SessionStatus {
    /// No status updates received.
    NoMessages,
    /// The latest status received from the container, as JSON.
    Event(String),
    /// The session disconnected without sending a closed event.
    Disconnected,
}

/// The name a status goes by.
pub open spec fn session_status_name(status: SessionStatus) -> Text {
    match status {
        SessionStatus::NoMessages => "no_messages"@,
        SessionStatus::Event(_) => "event"@,
        SessionStatus::Disconnected => "disconnected"@,
    }
}

/// A status goes by its own name, whatever the event it holds.
pub proof fn law_a_status_goes_by_its_name(status: SessionStatus)
    ensures
        session_status_name(status) == "no_messages"@ <==> status is NoMessages,
        session_status_name(status) == "event"@ <==> status is Event,
        session_status_name(status) == "disconnected"@ <==> status is Disconnected,
{
    reveal_strlit("no_messages");
    reveal_strlit("event");
    reveal_strlit("disconnected");
    assert("no_messages"@.len() == 11 && "event"@.len() == 5 && "disconnected"@.len() == 12);
}

impl Default for SessionStatus {
    /// Nothing has been heard yet.
    fn default() -> (status: Self)
        ensures
            status == SessionStatus::NoMessages,
    {
        SessionStatus::NoMessages
    }
}

impl SessionStatus {
    /// The name the status goes by.
    pub fn as_str(&self) -> (name: &'static str)
        ensures
            name@ == session_status_name(*self),
    {
        match self {
            SessionStatus::NoMessages => "no_messages",
            SessionStatus::Event(_) => "event",
            SessionStatus::Disconnected => "disconnected",
        }
    }
}

/// One of an owner's recent sessions, as much of it as describing their recent
/// work needs.
#[derive(Debug, PartialEq, Eq)]
pub struct RecentAgentSession {
    /// The session, for a caller that needs to open it.
    pub id: AgentSessionId,
    /// User-facing session name, already a generated title of the work.
    pub name: String,
    /// Harness slug the session ran on.
    pub harness: String,
    /// Repository the agent worked with, when one was stated.
    pub repo_url: Option<String>,
    /// When the session was created, in milliseconds since the epoch.
    pub created_at_millis: i64,
}

/// A persisted agent-session name changed and should be shown to live viewers.
#[derive(Debug, PartialEq, Eq)]
pub struct AgentSessionRenamed {
    /// Renamed session.
    pub agent_session_id: AgentSessionId,
    /// New user-facing name.
    pub name: String,
}

/// The provider-side identity of a session served by an external provider.
#[derive(Debug, PartialEq, Eq)]
pub struct ExternalSession {
    /// Which provider serves the session, such as `cursor`.
    pub provider: String,
    /// The provider's id for the agent, such as `bc-…`.
    pub external_id: String,
    /// The provider's display name for the agent, when it reported one.
    pub external_name: Option<String>,
    /// The agent's page on the provider's site, for opening it there.
    pub external_url: Option<String>,
    /// The last provider run whose output was delivered to this session.
    pub last_run_id: Option<String>,
}

/// An action a session was given.
#[derive(Debug, PartialEq, Eq)]
pub enum AgentAction {
    /// Run a prompt.
    Prompt {
        /// The prompt's raw text.
        prompt: String,
    },
    /// Any other action, by its kind, such as `compact`.
    Other {
        /// The kind.
        kind: String,
    },
}

/// An action waiting in a session's queue.
#[derive(Debug, PartialEq, Eq)]
pub struct QueuedControl {
    /// The id the action was accepted under.
    pub action_id: AgentActionId,
    /// The action.
    pub action: AgentAction,
    /// The user who queued it, absent when a bot acted on nobody's behalf.
    pub actor: Option<MacroUserId>,
    /// When it was accepted, in milliseconds since the epoch.
    pub created_at_millis: i64,
}

/// One action waiting in a session's queue, as clients see it.
#[derive(Debug, PartialEq, Eq)]
pub struct QueuedActionDto {
    /// The id the action was accepted under.
    pub action_id: AgentActionId,
    /// What kind of action waits.
    pub kind: String,
    /// The prompt's raw text, present for prompts only. What an edit replaces.
    pub prompt: Option<String>,
    /// The user who queued it, absent when a bot acted on nobody's behalf.
    pub actor_user_id: Option<String>,
    /// When it was accepted, in milliseconds since the epoch.
    pub created_at_millis: i64,
}

impl QueuedActionDto {
    /// The queued action as clients see it.
    pub fn from_queued(queued: QueuedControl) -> (dto: QueuedActionDto)
        ensures
            dto.action_id == queued.action_id,
            dto.created_at_millis == queued.created_at_millis,
            dto.actor_user_id.deep_view() == queued.actor.deep_view(),
            match queued.action {
                AgentAction::Prompt { prompt } => dto.kind@ == "prompt"@ && dto.prompt.deep_view()
                    == Some(prompt@),
                AgentAction::Other { kind } => dto.kind@ == kind@ && dto.prompt is None,
            },
    {
        let (kind, prompt): (String, Option<String>) = match queued.action {
            AgentAction::Prompt { prompt } => ("prompt".to_owned(), Some(prompt)),
            AgentAction::Other { kind } => (kind, None),
        };
        QueuedActionDto {
            action_id: queued.action_id,
            kind,
            prompt,
            actor_user_id: match queued.actor {
                Some(actor) => Some(actor.value),
                None => None,
            },
            created_at_millis: queued.created_at_millis,
        }
    }
}

/// The subset of a session a chip or mention renders.
#[derive(Debug, PartialEq, Eq)]
pub struct AgentSessionPreviewData {
    /// The session.
    pub id: AgentSessionId,
    /// User-facing session name.
    pub name: String,
    /// The user who owns the session.
    pub owner_id: MacroUserId,
    /// The bot running the agent, for its avatar.
    pub bot_id: BotId,
    /// The session's last known status, for a live status indicator.
    pub status: SessionStatus,
    /// When the session was created, in milliseconds since the epoch.
    pub created_at_millis: i64,
    /// When the session was last modified, in milliseconds since the epoch.
    pub modified_at_millis: i64,
}

/// What one requested id resolved to in a batch preview.
#[derive(Debug, PartialEq, Eq)]
pub enum AgentSessionPreview {
    /// The viewer holds at least view access; here is what a chip needs.
    Access(AgentSessionPreviewData),
    /// The session exists, but the viewer holds no grant on it.
    NoAccess(AgentSessionId),
    /// No session with this id exists.
    DoesNotExist(AgentSessionId),
}

impl AgentSessionPreview {
    /// The id this preview answers for, whichever way it resolved.
    pub fn id(&self) -> (id: AgentSessionId)
        ensures
            id == (match *self {
                AgentSessionPreview::Access(data) => data.id,
                AgentSessionPreview::NoAccess(id) => id,
                AgentSessionPreview::DoesNotExist(id) => id,
            }),
    {
        match self {
            AgentSessionPreview::Access(data) => data.id,
            AgentSessionPreview::NoAccess(id) => *id,
            AgentSessionPreview::DoesNotExist(id) => *id,
        }
    }
}

} // verus!

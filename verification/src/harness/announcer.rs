//! Announcing sessions into the thread they were asked for in.
//!
//! The announcement places a structured reply target above the session's chip.
//! It is posted silently: the chip is a pointer, not news, and the thread hears
//! about the session when it finishes or asks.

use crate::harness::error::HarnessError;
use crate::identity::{hyphenate, hyphenated, parse_uuid, parsed_uuid};
use crate::sessions::model::{AgentSessionId, BotId, MacroUserId};
use crate::text::Text;
use vstd::prelude::*;

verus! {

/// One message of a session's derived conversation.
#[derive(Debug, PartialEq, Eq)]
pub struct MessageId {
    /// The id.
    pub value: String,
}

/// Where a prompt came from.
#[derive(Debug, Clone, Copy, PartialEq, Eq, Structural)]
pub struct AnnounceOrigin {
    /// The channel.
    pub channel_id: u128,
    /// The thread's root message.
    pub thread_id: u128,
    /// The message that holds the prompt.
    pub message_id: u128,
}

/// A prompt an external runtime delivers, to be announced.
#[derive(Debug, PartialEq, Eq)]
pub struct AnnouncePrompt {
    /// The bot the trigger names.
    pub bot_id: BotId,
    /// Where the prompt came from.
    pub origin: AnnounceOrigin,
    /// The prompt.
    pub content: String,
    /// Who wrote it.
    pub sender: MacroUserId,
}

/// A session to announce.
#[derive(Debug, PartialEq, Eq)]
pub struct SessionAnnouncement {
    /// The session.
    pub session_id: AgentSessionId,
    /// The bot it runs for, which posts.
    pub bot_id: BotId,
    /// The channel to post in.
    pub origin_channel_id: u128,
    /// The thread to post in.
    pub origin_thread_id: u128,
    /// The message that asked.
    pub origin_message_id: u128,
    /// The message the prompt becomes in the session.
    pub prompted_message_id: MessageId,
    /// The prompt.
    pub prompted_content: String,
    /// Who asked.
    pub triggered_by: MacroUserId,
}

/// The chip the session's replies render into.
#[derive(Debug, PartialEq, Eq)]
pub struct AgentAnnouncementChip {
    /// The session.
    pub agent_session_id: String,
    /// The session's own channel; sessions have none.
    pub channel_id: Option<String>,
    /// The message the prompt becomes in the session.
    pub prompted_message: MessageId,
    /// How far the session is.
    pub status: String,
}

/// The message the announcement answers.
#[derive(Debug, PartialEq, Eq)]
pub struct AgentAnnouncementReplyTarget {
    /// Its channel.
    pub channel_id: String,
    /// The message itself.
    pub target_message_id: String,
    /// Its thread.
    pub target_thread_id: String,
    /// What it says.
    pub display_text: String,
    /// Who wrote it.
    pub sender_id: String,
}

/// A message to post as a bot.
#[derive(Debug, PartialEq, Eq)]
pub struct AnnouncementPost {
    /// The bot that posts.
    pub sender: BotId,
    /// The channel to post in.
    pub channel_id: u128,
    /// The message.
    pub content: String,
    /// The thread to post in.
    pub thread_id: Option<u128>,
    /// Who the message mentions.
    pub mentions: Vec<String>,
    /// What is attached to it.
    pub attachments: Vec<String>,
    /// What the poster recognizes its own message by.
    pub nonce: Option<String>,
    /// Whether the thread is left unnotified.
    pub silent: bool,
    /// Who the post is attributed to.
    pub triggered_by: Option<String>,
}

/// The message an announcement became.
#[derive(Debug, Clone, Copy, PartialEq, Eq, Structural)]
pub struct AnnouncedMessage {
    /// The message.
    pub message_id: u128,
}

/// Whether a prompt's bot owns the session it names. The session's own record
/// is what vouches that the two belong together; a prompt for somebody else's
/// session is dropped.
pub fn owns_prompt(session_bot: BotId, prompt: &AnnouncePrompt) -> (owns: bool)
    ensures
        owns == (session_bot == prompt.bot_id),
{
    session_bot == prompt.bot_id
}

/// The announcement of a prompt an external runtime delivers, or `None` for a
/// prompt whose bot does not own the session.
pub fn external_announcement(
    session_id: AgentSessionId,
    session_bot: BotId,
    prompt: AnnouncePrompt,
    prompted_message_id: MessageId,
) -> (announcement: Option<SessionAnnouncement>)
    ensures
        announcement is Some <==> session_bot == prompt.bot_id,
        announcement matches Some(announced) ==> announced == (SessionAnnouncement {
            session_id,
            bot_id: session_bot,
            origin_channel_id: prompt.origin.channel_id,
            origin_thread_id: prompt.origin.thread_id,
            origin_message_id: prompt.origin.message_id,
            prompted_message_id,
            prompted_content: prompt.content,
            triggered_by: prompt.sender,
        }),
{
    if !owns_prompt(session_bot, &prompt) {
        return None;
    }
    Some(
        SessionAnnouncement {
            session_id,
            bot_id: session_bot,
            origin_channel_id: prompt.origin.channel_id,
            origin_thread_id: prompt.origin.thread_id,
            origin_message_id: prompt.origin.message_id,
            prompted_message_id,
            prompted_content: prompt.content,
            triggered_by: prompt.sender,
        },
    )
}

/// Whether a chip is the one of an announcement: its session is booting.
pub open spec fn is_chip_of(
    chip: AgentAnnouncementChip,
    announcement: SessionAnnouncement,
) -> bool {
    &&& chip.agent_session_id@ == hyphenated(announcement.session_id.value)
    &&& chip.channel_id is None
    &&& chip.prompted_message.value@ == announcement.prompted_message_id.value@
    &&& chip.status@ == "booting"@
}

/// Whether a target is the message an announcement answers.
pub open spec fn is_target_of(
    target: AgentAnnouncementReplyTarget,
    announcement: SessionAnnouncement,
) -> bool {
    &&& target.channel_id@ == hyphenated(announcement.origin_channel_id)
    &&& target.target_message_id@ == hyphenated(announcement.origin_message_id)
    &&& target.target_thread_id@ == hyphenated(announcement.origin_thread_id)
    &&& target.display_text@ == announcement.prompted_content@
    &&& target.sender_id@ == announcement.triggered_by.deep_view()
}

/// Whether a post is the one of an announcement with some content: by the
/// session's bot, into the thread that asked, attributed to whoever asked. It
/// mentions nobody, attaches nothing and notifies nobody: the chip is a
/// pointer, not news.
pub open spec fn is_post_of(
    post: AnnouncementPost,
    announcement: SessionAnnouncement,
    content: Text,
) -> bool {
    &&& post.sender == announcement.bot_id
    &&& post.channel_id == announcement.origin_channel_id
    &&& post.content@ == content
    &&& post.thread_id == Some(announcement.origin_thread_id)
    &&& post.mentions@.len() == 0
    &&& post.attachments@.len() == 0
    &&& post.nonce is None
    &&& post.silent
    &&& post.triggered_by.deep_view() == Some(announcement.triggered_by.deep_view())
}

/// The chip of an announcement: the session is booting.
pub fn announcement_chip(announcement: &SessionAnnouncement) -> (chip: AgentAnnouncementChip)
    ensures
        is_chip_of(chip, *announcement),
{
    AgentAnnouncementChip {
        agent_session_id: hyphenate(announcement.session_id.value),
        channel_id: None,
        prompted_message: MessageId { value: announcement.prompted_message_id.value.clone() },
        status: "booting".to_owned(),
    }
}

/// The message an announcement answers.
pub fn announcement_reply_target(announcement: &SessionAnnouncement) -> (target:
    AgentAnnouncementReplyTarget)
    ensures
        is_target_of(target, *announcement),
{
    AgentAnnouncementReplyTarget {
        channel_id: hyphenate(announcement.origin_channel_id),
        target_message_id: hyphenate(announcement.origin_message_id),
        target_thread_id: hyphenate(announcement.origin_thread_id),
        display_text: announcement.prompted_content.clone(),
        sender_id: announcement.triggered_by.value.clone(),
    }
}

/// The post of an announcement whose content was composed.
pub fn announcement_post(announcement: &SessionAnnouncement, content: String) -> (post:
    AnnouncementPost)
    ensures
        is_post_of(post, *announcement, content@),
{
    AnnouncementPost {
        sender: announcement.bot_id,
        channel_id: announcement.origin_channel_id,
        content,
        thread_id: Some(announcement.origin_thread_id),
        mentions: Vec::new(),
        attachments: Vec::new(),
        nonce: None,
        silent: true,
        triggered_by: Some(announcement.triggered_by.value.clone()),
    }
}

/// The complaint that a post's id is no UUID.
pub open spec fn not_a_uuid(posted: Text) -> Text {
    "announcement posted a non-uuid message id "@ + posted
}

/// Whether an answer is the message a post became, given what its id reads as.
pub open spec fn is_announced_as(
    message: Result<AnnouncedMessage, HarnessError>,
    posted: Text,
    read: Option<u128>,
) -> bool {
    match read {
        Some(message_id) => message == Ok::<AnnouncedMessage, HarnessError>(
            AnnouncedMessage { message_id },
        ),
        None => message matches Err(HarnessError::Announce(words)) && words@ == not_a_uuid(posted),
    }
}

/// The message a post became, given what its id reads as. Message ids are
/// UUIDs everywhere; anything else is a bug in the poster, not a shape to
/// tolerate.
pub fn announced_as(posted: &str, read: Option<u128>) -> (message: Result<
    AnnouncedMessage,
    HarnessError,
>)
    ensures
        is_announced_as(message, posted@, read),
{
    match read {
        Some(message_id) => Ok(AnnouncedMessage { message_id }),
        None => {
            let mut words: String = "announcement posted a non-uuid message id ".to_owned();
            words.append(posted);
            Err(HarnessError::Announce(words))
        },
    }
}

/// The message a post became, by the id the poster reports.
pub fn announced_message(posted: &str) -> (message: Result<AnnouncedMessage, HarnessError>)
    ensures
        is_announced_as(message, posted@, parsed_uuid(posted@)),
        forall|id: u128| #[trigger]
            hyphenated(id) == posted@ ==> message == Ok::<AnnouncedMessage, HarnessError>(
                AnnouncedMessage { message_id: id },
            ),
{
    announced_as(posted, parse_uuid(posted))
}

/// Where an announcement is.
#[derive(Debug, PartialEq, Eq)]
pub enum Announcing {
    /// Its content is being composed.
    Composing {
        /// The announcement.
        announcement: SessionAnnouncement,
    },
    /// It is being posted.
    Posting,
    /// It is posted, or failed.
    Finished,
}

/// What the host is to do next.
#[derive(Debug, PartialEq, Eq)]
pub enum AnnounceAction {
    /// Compose the content.
    Compose {
        /// The message the announcement answers.
        target: AgentAnnouncementReplyTarget,
        /// The chip the replies render into.
        chip: AgentAnnouncementChip,
    },
    /// Post the announcement.
    Post(AnnouncementPost),
    /// The announcement is over.
    Finish(Result<AnnouncedMessage, HarnessError>),
}

/// What came of an action.
#[derive(Debug, PartialEq, Eq)]
pub enum AnnounceEvent {
    /// The content, or why it could not be composed.
    Composed(Result<String, String>),
    /// The id of the message posted, or why it could not be.
    Posted(Result<String, String>),
}

/// Whether an event answers what an announcement is waiting for.
pub open spec fn announce_expects(announcing: Announcing, event: AnnounceEvent) -> bool {
    match announcing {
        Announcing::Composing { .. } => event is Composed,
        Announcing::Posting => event is Posted,
        Announcing::Finished => false,
    }
}

/// Whether an action answers a failure: the announcement failed, in the words
/// of what did.
pub open spec fn fails_with(action: AnnounceAction, words: Text) -> bool {
    action matches AnnounceAction::Finish(Err(HarnessError::Announce(said))) && said@ == words
}

impl Announcing {
    /// Begin an announcement.
    pub fn start(announcement: SessionAnnouncement) -> (begun: (Announcing, AnnounceAction))
        ensures
            begun.0 == (Announcing::Composing { announcement }),
            begun.1 matches AnnounceAction::Compose { target, chip } && is_target_of(
                target,
                announcement,
            ) && is_chip_of(chip, announcement),
    {
        let target = announcement_reply_target(&announcement);
        let chip = announcement_chip(&announcement);
        (Announcing::Composing { announcement }, AnnounceAction::Compose { target, chip })
    }

    /// Whether an event answers what the announcement is waiting for.
    pub fn expects(&self, event: &AnnounceEvent) -> (expected: bool)
        ensures
            expected == announce_expects(*self, *event),
    {
        match self {
            Announcing::Composing { .. } => matches!(event, AnnounceEvent::Composed(_)),
            Announcing::Posting => matches!(event, AnnounceEvent::Posted(_)),
            Announcing::Finished => false,
        }
    }

    /// Take in what came of the last action. What could not be composed is not
    /// posted, and what is composed is posted once.
    pub fn step(self, event: AnnounceEvent) -> (next: (Announcing, AnnounceAction))
        requires
            announce_expects(self, event),
        ensures
            match (self, event) {
                (_, AnnounceEvent::Composed(Ok(content))) => next.0 is Posting && (next.1 matches AnnounceAction::Post(post) && is_post_of(
                    post,
                    self->announcement,
                    content@,
                )),
                (_, AnnounceEvent::Composed(Err(words))) => next.0 is Finished && fails_with(
                    next.1,
                    words@,
                ),
                (_, AnnounceEvent::Posted(Err(words))) => next.0 is Finished && fails_with(
                    next.1,
                    words@,
                ),
                (_, AnnounceEvent::Posted(Ok(posted))) => next.0 is Finished && (next.1 matches
                    AnnounceAction::Finish(message) && is_announced_as(
                    message,
                    posted@,
                    parsed_uuid(posted@),
                )),
            },
    {
        match (self, event) {
            (Announcing::Composing { announcement }, AnnounceEvent::Composed(Ok(content))) => (
                Announcing::Posting,
                AnnounceAction::Post(announcement_post(&announcement, content)),
            ),
            (_, AnnounceEvent::Composed(Ok(words))) => (
                Announcing::Finished,
                AnnounceAction::Finish(Err(HarnessError::Announce(words))),
            ),
            (_, AnnounceEvent::Composed(Err(words))) => (
                Announcing::Finished,
                AnnounceAction::Finish(Err(HarnessError::Announce(words))),
            ),
            (_, AnnounceEvent::Posted(Err(words))) => (
                Announcing::Finished,
                AnnounceAction::Finish(Err(HarnessError::Announce(words))),
            ),
            (_, AnnounceEvent::Posted(Ok(posted))) => (
                Announcing::Finished,
                AnnounceAction::Finish(announced_message(posted.as_str())),
            ),
        }
    }
}

} // verus!

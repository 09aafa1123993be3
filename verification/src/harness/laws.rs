//! What the harness tells, and whom.

use crate::harness::announcer::{
    fails_with, is_announced_as, is_chip_of, is_post_of, is_target_of, AgentAnnouncementChip,
    AgentAnnouncementReplyTarget, AnnounceAction, AnnouncedMessage, AnnouncementPost,
    SessionAnnouncement,
};
use crate::harness::chooser::{
    allowed_answers, message_of, not_a_candidate, recent_line, recent_section, schema_of,
};
use crate::harness::error::{
    harness_error_words, session_error_words, AgentSessionError, HarnessError,
};
use crate::harness::mentions::{user_ids, visible_users, Mention};
use crate::identity::{hyphenated, lemma_hyphenated_injective};
use crate::json::{law_a_member_is_found_by_its_name, JsonView};
use crate::sessions::model::RecentAgentSession;
use crate::text::{has_prefix, has_suffix, joined, Text};
use vstd::prelude::*;

verus! {

/// An announcement is posted by its bot into the channel and the thread that
/// asked, with the composed content, attributed to whoever asked, silently, and
/// with nothing else in it.
pub proof fn law_an_announcement_is_posted_where_it_was_asked(
    post: AnnouncementPost,
    announcement: SessionAnnouncement,
    content: Text,
)
    requires
        is_post_of(post, announcement, content),
    ensures
        post.sender == announcement.bot_id,
        post.channel_id == announcement.origin_channel_id,
        post.thread_id == Some(announcement.origin_thread_id),
        post.content@ == content,
        post.silent,
        post.mentions@.len() == 0,
        post.attachments@.len() == 0,
        post.nonce is None,
        post.triggered_by is Some,
        post.triggered_by->0@ == announcement.triggered_by.deep_view(),
{
}

/// An announcement's chip names its session and the message its prompt becomes
/// there, and says that it boots; its target is the message that asked, in its
/// channel and thread, with its words and its author. Both tell sessions and
/// messages apart.
pub proof fn law_an_announcement_points_both_ways(
    chip: AgentAnnouncementChip,
    target: AgentAnnouncementReplyTarget,
    announcement: SessionAnnouncement,
    other: SessionAnnouncement,
)
    requires
        is_chip_of(chip, announcement),
        is_target_of(target, announcement),
    ensures
        chip.agent_session_id@ == hyphenated(announcement.session_id.value),
        chip.channel_id is None,
        chip.prompted_message.value@ == announcement.prompted_message_id.value@,
        chip.status@ == "booting"@,
        target.channel_id@ == hyphenated(announcement.origin_channel_id),
        target.target_message_id@ == hyphenated(announcement.origin_message_id),
        target.target_thread_id@ == hyphenated(announcement.origin_thread_id),
        target.display_text@ == announcement.prompted_content@,
        target.sender_id@ == announcement.triggered_by.deep_view(),
        is_chip_of(chip, other) ==> other.session_id.value == announcement.session_id.value,
        is_target_of(target, other) ==> other.origin_message_id == announcement.origin_message_id,
{
    if is_chip_of(chip, other) {
        lemma_hyphenated_injective(other.session_id.value, announcement.session_id.value);
    }
    if is_target_of(target, other) {
        lemma_hyphenated_injective(other.origin_message_id, announcement.origin_message_id);
    }
}

/// An announcement became the message whose id it was told; an id that reads as
/// none is complained of by quoting it, and a failure is answered in its own
/// words.
pub proof fn law_an_announcement_became_its_message(
    message: Result<AnnouncedMessage, HarnessError>,
    posted: Text,
    read: Option<u128>,
    action: AnnounceAction,
    words: Text,
)
    requires
        is_announced_as(message, posted, read),
    ensures
        message is Ok <==> read is Some,
        message matches Ok(announced) ==> Some(announced.message_id) == read,
        message matches Err(error) ==> (error matches HarnessError::Announce(said) && said@
            == "announcement posted a non-uuid message id "@ + posted),
        fails_with(action, words) ==> (action matches AnnounceAction::Finish(Err(error)) && (error
            matches HarnessError::Announce(said) && said@ == words)),
{
}

/// What the model reads holds every candidate, every recent session and the
/// prompt, each between its own marks and in that order.
pub proof fn law_the_model_reads_everything(
    prompt: Text,
    candidates: Seq<Text>,
    recent: Seq<RecentAgentSession>,
)
    ensures
        ({
            let message = message_of(prompt, candidates, recent);
            let asked = "<candidate_repositories>\n"@ + joined(candidates, "\n"@)
                + "\n</candidate_repositories>\n"@;
            let history = "<recent_sessions>\n"@ + recent_section(recent)
                + "\n</recent_sessions>\n"@;
            message == asked + history + "<prompt>\n"@ + prompt + "\n</prompt>"@
        }),
{
    reveal_strlit("\n</candidate_repositories>\n<recent_sessions>\n");
    reveal_strlit("\n</candidate_repositories>\n");
    reveal_strlit("<recent_sessions>\n");
    reveal_strlit("\n</recent_sessions>\n<prompt>\n");
    reveal_strlit("\n</recent_sessions>\n");
    reveal_strlit("<prompt>\n");
    assert("\n</candidate_repositories>\n<recent_sessions>\n"@ =~= "\n</candidate_repositories>\n"@
        + "<recent_sessions>\n"@);
    assert("\n</recent_sessions>\n<prompt>\n"@ =~= "\n</recent_sessions>\n"@ + "<prompt>\n"@);
    let message = message_of(prompt, candidates, recent);
    let asked = "<candidate_repositories>\n"@ + joined(candidates, "\n"@)
        + "\n</candidate_repositories>\n"@;
    let history = "<recent_sessions>\n"@ + recent_section(recent) + "\n</recent_sessions>\n"@;
    assert(message =~= asked + history + "<prompt>\n"@ + prompt + "\n</prompt>"@);
}

/// A recent session is told by its name, with its repository where it has one;
/// sessions are told one to a line, in order, and none are told as none.
pub proof fn law_recent_sessions_are_told_by_line(
    recent: Seq<RecentAgentSession>,
    session: RecentAgentSession,
)
    ensures
        recent_section(Seq::empty()) == "none"@,
        recent_section(seq![session]) == recent_line(session),
        recent.len() > 0 ==> recent_section(recent.push(session)) == recent_section(recent) + "\n"@
            + recent_line(session),
        session.repo_url is None ==> recent_line(session) == session.name@,
        session.repo_url matches Some(url) ==> recent_line(session) == session.name@ + " — "@ + url@,
{
    let lines = recent.map_values(|session: RecentAgentSession| recent_line(session));
    let more = recent.push(session).map_values(
        |session: RecentAgentSession| recent_line(session),
    );
    assert(more =~= lines.push(recent_line(session)));
    assert(more.drop_last() =~= lines);
    assert(seq![session].map_values(|session: RecentAgentSession| recent_line(session))
        =~= seq![recent_line(session)]);
}

/// The model may answer any candidate, or none, and nothing else: the schema's
/// answers are exactly the candidates, in order, and null.
pub proof fn law_only_candidates_can_be_answered(candidates: Seq<Text>, answer: JsonView, at: int)
    ensures
        allowed_answers(candidates).contains(answer) <==> answer == JsonView::Null || (answer
            matches JsonView::Text(url) && candidates.contains(url)),
        allowed_answers(candidates).len() == candidates.len() + 1,
        0 <= at < candidates.len() ==> allowed_answers(candidates)[at] == JsonView::Text(
            candidates[at],
        ),
        ({
            let properties = schema_of(candidates).member("properties"@);
            &&& schema_of(candidates).member("type"@) == Some(JsonView::Text("object"@))
            &&& properties is Some
            &&& properties->0.member("repository"@) is Some
            &&& properties->0.member("repository"@)->0.member("enum"@) == Some(
                JsonView::Array(allowed_answers(candidates)),
            )
            &&& properties->0.member("openPullRequest"@) is Some
            &&& properties->0.member("openPullRequest"@)->0.member("type"@) == Some(
                JsonView::Text("boolean"@),
            )
        }),
{
    let answers = allowed_answers(candidates);
    if answers.contains(answer) {
        let i = answers.index_of(answer);
        if i < candidates.len() {
            assert(answers[i] == JsonView::Text(candidates[i]));
        }
    }
    assert(answers[candidates.len() as int] == JsonView::Null);
    if let JsonView::Text(url) = answer {
        if candidates.contains(url) {
            assert(answers[candidates.index_of(url)] == answer);
        }
    }
    reveal_strlit("type");
    reveal_strlit("properties");
    reveal_strlit("repository");
    reveal_strlit("openPullRequest");
    assert("type"@.len() == 4 && "properties"@.len() == 10 && "repository"@.len() == 10
        && "openPullRequest"@.len() == 15);
    let schema = schema_of(candidates)->Object_0;
    law_a_member_is_found_by_its_name(schema, 0, "type"@);
    law_a_member_is_found_by_its_name(schema, 1, "properties"@);
    let properties = schema[1].1->Object_0;
    law_a_member_is_found_by_its_name(properties, 0, "repository"@);
    law_a_member_is_found_by_its_name(properties, 1, "openPullRequest"@);
    law_a_member_is_found_by_its_name(properties[0].1->Object_0, 0, "enum"@);
    law_a_member_is_found_by_its_name(properties[1].1->Object_0, 0, "type"@);
}

/// An answer nobody offered is quoted in its refusal.
pub proof fn law_a_refused_answer_is_quoted(answer: Text)
    ensures
        has_prefix(not_a_candidate(answer), answer),
        has_suffix(not_a_candidate(answer), " is not one of this user's repositories"@),
{
    let words = not_a_candidate(answer);
    assert(words.take(answer.len() as int) =~= answer);
    assert(words.skip(answer.len() as int) =~= " is not one of this user's repositories"@);
}

/// A session error says which session lost its runtime, and anything else in
/// its own words.
pub proof fn law_a_session_error_says_what_failed(error: AgentSessionError)
    ensures
        match error {
            AgentSessionError::Disconnected(session) => session_error_words(error)
                == "agent session "@ + hyphenated(session.value) + " is no longer connected"@,
            AgentSessionError::Known(message) => session_error_words(error) == message@,
            AgentSessionError::Unknown(message) => session_error_words(error) == message@,
        },
{
}

/// A harness error says what failed and then the reason it was given, word for
/// word; one about a session names the session, and the one a user can mend
/// says how.
pub proof fn law_a_harness_error_gives_its_reason(error: HarnessError)
    ensures
        match error {
            HarnessError::Container(reason) => harness_error_words(error)
                == "container unavailable: "@ + reason@,
            HarnessError::Handshake(reason) => harness_error_words(error)
                == "acp handshake failed: "@ + reason@,
            HarnessError::Egress(reason) => harness_error_words(error)
                == "failed to provision sandbox egress: "@ + reason@,
            HarnessError::Announce(reason) => harness_error_words(error)
                == "failed to announce the agent session: "@ + reason@,
            HarnessError::PromptContext(reason) => harness_error_words(error)
                == "failed to load channel prompt context: "@ + reason@,
            HarnessError::PromptComposition(reason) => harness_error_words(error)
                == "failed to compose agent prompt: "@ + reason@,
            HarnessError::Forward(reason) => harness_error_words(error)
                == "failed to forward an agent session command: "@ + reason@,
            HarnessError::RuntimeDirectory(reason) => harness_error_words(error)
                == "failed to resolve agent runtime configuration: "@ + reason@,
            HarnessError::Mentions(reason) => harness_error_words(error)
                == "failed to resolve prompt mentions: "@ + reason@,
            HarnessError::Transport(reason) => harness_error_words(error) == reason@,
            HarnessError::Action(reason) => harness_error_words(error) == reason@,
            HarnessError::Acp(reason) => harness_error_words(error) == reason@,
            HarnessError::Session(inner) => harness_error_words(error) == session_error_words(
                inner,
            ),
            HarnessError::Disconnected(session) => harness_error_words(error) == "agent session "@
                + hyphenated(session.value) + " is no longer connected"@,
            HarnessError::CommandWorkerStopped(session) => harness_error_words(error)
                == "agent session "@ + hyphenated(session.value) + " command worker stopped"@,
            HarnessError::CursorNotConnected => harness_error_words(error)
                == "connect your Cursor account in Settings → Agents → Harness to use @cursor"@,
        },
{
}

/// Mentioned users are read in order, and nothing else that is mentioned is: a
/// mention of a user adds that user's id at the end, any other adds nothing.
pub proof fn law_only_users_are_read_from_mentions(mentions: Seq<Mention>, mention: Mention)
    ensures
        user_ids(Seq::empty()).len() == 0,
        mention.entity_type@ == "user"@ ==> user_ids(mentions.push(mention)) == user_ids(
            mentions,
        ).push(mention.entity_id@),
        mention.entity_type@ != "user"@ ==> user_ids(mentions.push(mention)) == user_ids(mentions),
{
    assert(mentions.push(mention).drop_last() =~= mentions);
}

/// People are told in the order in which they were first mentioned: who is
/// mentioned later comes after everyone mentioned before.
pub proof fn law_people_are_told_in_the_order_of_mention(
    mentioned: Seq<Option<Text>>,
    later: Seq<Option<Text>>,
    viewers: Seq<Text>,
)
    ensures
        visible_users(mentioned, viewers).len() <= visible_users(mentioned + later, viewers).len(),
        visible_users(mentioned + later, viewers).take(
            visible_users(mentioned, viewers).len() as int,
        ) == visible_users(mentioned, viewers),
    decreases later.len(),
{
    let all = mentioned + later;
    let before = visible_users(mentioned, viewers);
    if later.len() == 0 {
        assert(all =~= mentioned);
        assert(before.take(before.len() as int) =~= before);
    } else {
        law_people_are_told_in_the_order_of_mention(mentioned, later.drop_last(), viewers);
        assert(all.drop_last() =~= mentioned + later.drop_last());
        let shorter = visible_users(mentioned + later.drop_last(), viewers);
        assert(visible_users(all, viewers).take(before.len() as int) =~= shorter.take(
            before.len() as int,
        ));
    }
}

} // verus!

//! The harness around the sessions: choosing, announcing, mentioning.

use std::sync::Arc;

use agent_sessions::cursor::git::SessionIntent;
use agent_sessions::cursor::model::RepoUrl;
use agent_sessions::harness::announcer::{
    announced_as, announced_message, announcement_chip, announcement_post,
    announcement_reply_target, external_announcement, owns_prompt, AnnounceAction, AnnounceEvent,
    AnnounceOrigin, AnnouncePrompt, AnnouncedMessage, Announcing, MessageId, SessionAnnouncement,
};
use agent_sessions::harness::chooser::{
    begin_choice, choice_schema, intent, user_message, ChoiceStep,
};
use agent_sessions::harness::error::{into_session_error, AgentSessionError, HarnessError};
use agent_sessions::harness::mentions::{
    mentioned_user_ids, LexicalPromptMentions, Mention, MentionStep,
};
use agent_sessions::harness::ports::{CommandTarget, NoPeers, NoPromptMentions, PromptMentionsMock};
use agent_sessions::json::Json;
use agent_sessions::sessions::model::{AgentSessionId, BotId, MacroUserId, RecentAgentSession};

const SESSION: AgentSessionId = AgentSessionId { value: 0xA };

fn candidates() -> Vec<String> {
    vec![
        "https://github.com/macro-inc/macro".to_owned(),
        "https://github.com/macro-inc/infra".to_owned(),
    ]
}

fn user(email: &str) -> MacroUserId {
    MacroUserId::new(&format!("macro|{email}"))
}

#[test]
fn no_reachable_repository_chooses_none_without_asking_the_model() {
    assert_eq!(begin_choice(&Vec::new()), ChoiceStep::ChooseNone);
    assert_eq!(begin_choice(&candidates()), ChoiceStep::Ask);
}

#[test]
fn a_repository_outside_the_candidates_is_refused() {
    let error = intent(
        &candidates(),
        Some("https://github.com/someone-else/secrets"),
        true,
    )
    .expect_err("a non-candidate is refused");
    assert!(
        error
            .to_string()
            .contains("not one of this user's repositories"),
        "{error}"
    );
}

#[test]
fn a_candidate_is_taken_with_its_pull_request_decision() {
    let chosen = intent(
        &candidates(),
        Some("https://github.com/macro-inc/infra"),
        true,
    )
    .expect("a candidate is taken");
    assert_eq!(
        chosen.repository.as_ref().map(RepoUrl::as_str),
        Some("https://github.com/macro-inc/infra")
    );
    assert!(chosen.open_pull_request);
}

#[test]
fn no_repository_means_no_pull_request() {
    let chosen = intent(&candidates(), None, true).expect("no repository is an answer");
    assert_eq!(chosen, SessionIntent::default());
}

#[test]
fn the_user_message_carries_candidates_recent_sessions_and_the_prompt() {
    let message = user_message("rename the button", &candidates(), &vec![]);
    assert!(message.contains("<candidate_repositories>\nhttps://github.com/macro-inc/macro\n"));
    assert!(message.contains("<recent_sessions>\nnone\n</recent_sessions>"));
    assert!(message.contains("<prompt>\nrename the button\n</prompt>"));
}

#[test]
fn recent_sessions_are_listed_one_per_line() {
    let recent = |name: &str, repo: Option<&str>| RecentAgentSession {
        id: SESSION,
        name: name.to_owned(),
        harness: "cursor".to_owned(),
        repo_url: repo.map(str::to_owned),
        created_at_millis: 0,
    };
    let message = user_message(
        "p",
        &candidates(),
        &vec![recent("First", Some("https://github.com/a/b")), recent("Second", None)],
    );
    assert!(message.contains("First — https://github.com/a/b\nSecond\n</recent_sessions>"));
}

#[test]
fn the_schema_allows_only_the_candidates_and_null() {
    let schema = choice_schema(&candidates());
    let allowed = schema
        .get("properties")
        .and_then(|properties| properties.get("repository"))
        .and_then(|repository| repository.get("enum"))
        .expect("an enum of allowed answers");
    assert_eq!(
        *allowed,
        Json::Array(vec![
            Json::Text("https://github.com/macro-inc/macro".to_owned()),
            Json::Text("https://github.com/macro-inc/infra".to_owned()),
            Json::Null,
        ])
    );
}

#[test]
fn disconnected_harness_errors_keep_the_session_error_classification() {
    assert!(matches!(
        into_session_error(HarnessError::Disconnected(SESSION)),
        AgentSessionError::Disconnected(SESSION)
    ));
}

#[test]
fn session_errors_pass_through_and_others_keep_their_words() {
    let known = AgentSessionError::Known("busy".to_owned());
    assert_eq!(
        into_session_error(HarnessError::Session(AgentSessionError::Known("busy".to_owned()))),
        known
    );
    let error = HarnessError::Mentions("lexical down".to_owned());
    let words = error.message();
    assert!(words.contains("lexical down"), "{words}");
    assert!(!matches!(into_session_error(error), AgentSessionError::Disconnected(_)));
}

fn mentions() -> LexicalPromptMentions<(), ()> {
    LexicalPromptMentions::new((), Arc::new(()))
}

/// Reads an id the way the platform does: `macro|` and an email.
fn read(ids: &[String]) -> Vec<Option<MacroUserId>> {
    ids.iter()
        .map(|id| id.starts_with("macro|").then(|| MacroUserId::new(id)))
        .collect()
}

#[test]
fn keeps_only_mentioned_users_who_can_open_the_session() {
    let step = mentions().begin(Ok(vec![
        user("a@macro.com").value,
        user("b@macro.com").value,
        user("c@macro.com").value,
        user("a@macro.com").value,
    ]));
    let MentionStep::AskViewers { ids } = step else {
        panic!("somebody is named: {step:?}");
    };
    let users = mentions()
        .narrow(
            &read(&ids),
            Ok(vec![user("owner@macro.com"), user("a@macro.com"), user("b@macro.com")]),
        )
        .expect("mentions resolve");
    assert_eq!(users, vec![user("a@macro.com"), user("b@macro.com")]);
}

#[test]
fn a_prompt_naming_nobody_never_asks_who_can_see_the_session() {
    assert_eq!(mentions().begin(Ok(Vec::new())), MentionStep::Finish(Ok(Vec::new())));
}

#[test]
fn ids_that_are_not_macro_users_are_skipped() {
    let ids = vec!["not-a-user-id".to_owned(), user("a@macro.com").value];
    let users = mentions()
        .narrow(&read(&ids), Ok(vec![user("a@macro.com")]))
        .expect("mentions resolve");
    assert_eq!(users, vec![user("a@macro.com")]);
}

#[test]
fn a_lexical_failure_is_an_error_not_an_empty_answer() {
    let step = mentions().begin(Err(HarnessError::Mentions("down".to_owned())));
    assert!(matches!(
        step,
        MentionStep::Finish(Err(HarnessError::Mentions(_)))
    ));
    assert_eq!(
        mentions().narrow(
            &vec![Some(user("a@macro.com"))],
            Err(HarnessError::Mentions("no viewers".to_owned()))
        ),
        Err(HarnessError::Mentions("no viewers".to_owned()))
    );
}

#[test]
fn only_user_mentions_count() {
    let mention = |kind: &str, id: &str| Mention {
        entity_type: kind.to_owned(),
        entity_id: id.to_owned(),
    };
    assert_eq!(
        mentioned_user_ids(&vec![
            mention("user", "macro|a@macro.com"),
            mention("document", "doc-1"),
            mention("user", "macro|b@macro.com"),
        ]),
        vec!["macro|a@macro.com", "macro|b@macro.com"]
    );
}

#[test]
fn nobody_is_mentioned_and_nobody_is_a_peer() {
    assert!(NoPromptMentions.mentioned_users(SESSION, "@everyone").is_empty());
    let outcome: Result<(), HarnessError> =
        NoPeers.forward(SESSION, (), CommandTarget::Harness(7));
    assert_eq!(outcome, Err(HarnessError::Disconnected(SESSION)));
}

#[test]
fn the_mock_answers_as_told_and_remembers_what_it_was_asked() {
    let mut mock = PromptMentionsMock::new();
    assert_eq!(mock.mentioned_users(SESSION, "one"), Ok(Vec::new()));
    mock.mentions(vec![user("a@macro.com")]);
    assert_eq!(mock.mentioned_users(SESSION, "two"), Ok(vec![user("a@macro.com")]));
    mock.fails("down");
    assert!(matches!(
        mock.mentioned_users(SESSION, "three"),
        Err(HarnessError::Mentions(_))
    ));
    assert_eq!(mock.prompts(), vec!["one", "two", "three"]);
}

fn announce_prompt() -> AnnouncePrompt {
    AnnouncePrompt {
        bot_id: BotId { value: 7 },
        origin: AnnounceOrigin { channel_id: 1, thread_id: 2, message_id: 3 },
        content: "fix the login".to_owned(),
        sender: user("asker@macro.com"),
    }
}

#[test]
fn an_external_prompt_is_announced_where_it_was_observed() {
    let message = MessageId { value: "m-1".to_owned() };
    let announcement =
        external_announcement(SESSION, BotId { value: 7 }, announce_prompt(), message)
            .expect("the session's own bot");
    assert_eq!(announcement.origin_channel_id, 1);
    assert_eq!(announcement.origin_thread_id, 2);
    assert_eq!(announcement.origin_message_id, 3);
    assert_eq!(announcement.prompted_content, "fix the login");
    assert_eq!(announcement.triggered_by, user("asker@macro.com"));

    let post = announcement_post(&announcement, "posted".to_owned());
    assert_eq!(post.sender, BotId { value: 7 });
    assert_eq!(post.channel_id, 1);
    assert_eq!(post.thread_id, Some(2));
    assert_eq!(post.content, "posted");
    assert!(post.mentions.is_empty() && post.attachments.is_empty());
    assert_eq!(post.nonce, None);
    assert!(post.silent);

    let target = announcement_reply_target(&announcement);
    assert_eq!(target.channel_id, "00000000-0000-0000-0000-000000000001");
    assert_eq!(target.target_message_id, "00000000-0000-0000-0000-000000000003");
    assert_eq!(target.target_thread_id, "00000000-0000-0000-0000-000000000002");

    let chip = announcement_chip(&announcement);
    assert_eq!(chip.agent_session_id, "00000000-0000-0000-0000-00000000000a");
    assert_eq!(chip.prompted_message, MessageId { value: "m-1".to_owned() });
}

#[test]
fn an_announce_by_another_bot_is_dropped() {
    let message = MessageId { value: "m-1".to_owned() };
    assert!(!owns_prompt(BotId { value: 8 }, &announce_prompt()));
    assert!(owns_prompt(BotId { value: 7 }, &announce_prompt()));
    assert_eq!(
        external_announcement(SESSION, BotId { value: 8 }, announce_prompt(), message),
        None
    );
}

fn announcement() -> SessionAnnouncement {
    let message = MessageId { value: "m-1".to_owned() };
    external_announcement(SESSION, BotId { value: 7 }, announce_prompt(), message)
        .expect("the session's own bot")
}

#[test]
fn an_announcement_is_composed_posted_once_and_read_back() {
    let (announcing, action) = Announcing::start(announcement());
    assert_eq!(
        action,
        AnnounceAction::Compose {
            target: announcement_reply_target(&announcement()),
            chip: announcement_chip(&announcement()),
        }
    );
    let composed = AnnounceEvent::Composed(Ok("content".to_owned()));
    assert!(announcing.expects(&composed));
    let (announcing, action) = announcing.step(composed);
    assert_eq!(
        action,
        AnnounceAction::Post(announcement_post(&announcement(), "content".to_owned()))
    );
    let posted = "00000000-0000-0000-0000-00000000002a".to_owned();
    let (announcing, action) = announcing.step(AnnounceEvent::Posted(Ok(posted)));
    assert_eq!(action, AnnounceAction::Finish(Ok(AnnouncedMessage { message_id: 42 })));
    assert!(!announcing.expects(&AnnounceEvent::Posted(Ok(String::new()))));
}

#[test]
fn an_announcement_that_fails_says_so() {
    let down = || Err("down".to_owned());
    let failed = AnnounceAction::Finish(Err(HarnessError::Announce("down".to_owned())));
    let (announcing, _) = Announcing::start(announcement());
    let (announcing, action) = announcing.step(AnnounceEvent::Composed(down()));
    assert_eq!(action, failed, "nothing is posted");
    assert_eq!(announcing, Announcing::Finished);
    let (announcing, _) = Announcing::start(announcement());
    let (announcing, _) = announcing.step(AnnounceEvent::Composed(Ok("c".to_owned())));
    let (_, action) = announcing.step(AnnounceEvent::Posted(down()));
    assert_eq!(action, failed);
}

#[test]
fn a_posted_announcement_is_read_back_by_its_id() {
    let posted = announced_message("00000000-0000-0000-0000-00000000002a").expect("an id");
    assert_eq!(posted.message_id, 42);
    let error = announced_message("not-an-id").expect_err("not an id");
    assert!(matches!(error, HarnessError::Announce(_)));
    assert_eq!(announced_as("x", Some(9)).map(|message| message.message_id), Ok(9));
    assert!(announced_as("x", None).is_err());
}

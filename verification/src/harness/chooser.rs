//! Choosing the repository a prompt's work belongs to, from those its author
//! reaches.

use crate::cursor::git::SessionIntent;
use crate::cursor::model::RepoUrl;
use crate::json::{
    array, items_view, members_view, no_items, no_members, object, push_item, push_member, string, Json,
    JsonView, Member,
};
use crate::sessions::model::RecentAgentSession;
use crate::text::{join, joined, same_text, Text};
use vstd::prelude::*;

verus! {

/// How a choice begins.
#[derive(Debug, Clone, Copy, PartialEq, Eq, Structural)]
pub enum ChoiceStep {
    /// There is nothing to choose between: no repository, without asking.
    ChooseNone,
    /// Ask the model.
    Ask,
}

/// Decide whether the model is asked at all.
pub fn begin_choice(candidates: &Vec<String>) -> (step: ChoiceStep)
    ensures
        step is ChooseNone <==> candidates@.len() == 0,
{
    if candidates.is_empty() {
        ChoiceStep::ChooseNone
    } else {
        ChoiceStep::Ask
    }
}

/// The refusal of an answer nobody offered.
pub open spec fn not_a_candidate(answer: Text) -> Text {
    answer + " is not one of this user's repositories"@
}

/// What a model's answer means. An answer naming something nobody offered is
/// an error, not a pick, and no repository means no pull request.
pub fn intent(candidates: &Vec<String>, answer: Option<&str>, open_pull_request: bool) -> (chosen:
    Result<SessionIntent, String>)
    ensures
        match answer {
            None => chosen matches Ok(intent) && intent.repository is None
                && !intent.open_pull_request,
            Some(url) => if candidates.deep_view().contains(url@) {
                chosen matches Ok(intent) && intent.repository.deep_view() == Some(url@)
                    && intent.open_pull_request == open_pull_request
            } else {
                chosen matches Err(message) && message@ == not_a_candidate(url@)
            },
        },
{
    let url: &str = match answer {
        Some(url) => url,
        None => return Ok(SessionIntent::default()),
    };
    let ghost all = candidates.deep_view();
    let mut i: usize = 0;
    while i < candidates.len()
        invariant
            i <= candidates@.len(),
            all == candidates.deep_view(),
            answer == Some(url),
            forall|k: int| 0 <= k < i ==> #[trigger] all[k] != url@,
        decreases candidates@.len() - i,
    {
        assert(all[i as int] == candidates@[i as int]@);
        if same_text(candidates[i].as_str(), url) {
            assert(all[i as int] == url@);
            return Ok(
                SessionIntent {
                    repository: Some(RepoUrl { value: url.to_owned() }),
                    open_pull_request,
                },
            );
        }
        i = i + 1;
    }
    let mut message: String = url.to_owned();
    message.append(" is not one of this user's repositories");
    Err(message)
}

/// One recent session as the model reads it.
pub open spec fn recent_line(session: RecentAgentSession) -> Text {
    match session.repo_url {
        Some(url) => session.name@ + " — "@ + url@,
        None => session.name@,
    }
}

/// The recent sessions as the model reads them. An empty history says so
/// rather than leaving the section blank.
pub open spec fn recent_section(recent: Seq<RecentAgentSession>) -> Text {
    if recent.len() == 0 {
        "none"@
    } else {
        joined(recent.map_values(|session: RecentAgentSession| recent_line(session)), "\n"@)
    }
}

/// What the model reads: the candidates, the author's recent sessions, and the
/// prompt.
pub open spec fn message_of(
    prompt: Text,
    candidates: Seq<Text>,
    recent: Seq<RecentAgentSession>,
) -> Text {
    "<candidate_repositories>\n"@ + joined(candidates, "\n"@)
        + "\n</candidate_repositories>\n<recent_sessions>\n"@ + recent_section(recent)
        + "\n</recent_sessions>\n<prompt>\n"@ + prompt + "\n</prompt>"@
}

fn recent_text(session: &RecentAgentSession) -> (line: String)
    ensures
        line@ == recent_line(*session),
{
    let mut line: String = session.name.clone();
    if let Some(url) = &session.repo_url {
        line.append(" — ");
        line.append(url.as_str());
    }
    line
}

/// What the model reads: the candidates, the author's recent sessions, and the
/// prompt.
pub fn user_message(
    prompt: &str,
    candidates: &Vec<String>,
    recent: &Vec<RecentAgentSession>,
) -> (message: String)
    ensures
        message@ == message_of(prompt@, candidates.deep_view(), recent@),
{
    let mut message: String = "<candidate_repositories>\n".to_owned();
    message.append(join(candidates, "\n").as_str());
    message.append("\n</candidate_repositories>\n<recent_sessions>\n");
    if recent.is_empty() {
        message.append("none");
    } else {
        let mut lines: Vec<String> = Vec::new();
        let mut i: usize = 0;
        while i < recent.len()
            invariant
                i <= recent@.len(),
                lines@.len() == i,
                forall|k: int| 0 <= k < i ==> (#[trigger] lines@[k])@ == recent_line(recent@[k]),
            decreases recent@.len() - i,
        {
            lines.push(recent_text(&recent[i]));
            i = i + 1;
        }
        assert(lines.deep_view() =~= recent@.map_values(
            |session: RecentAgentSession| recent_line(session),
        ));
        message.append(join(&lines, "\n").as_str());
    }
    message.append("\n</recent_sessions>\n<prompt>\n");
    message.append(prompt);
    message.append("\n</prompt>");
    message
}

/// The answers the model may give: the candidates, and null.
pub open spec fn allowed_answers(candidates: Seq<Text>) -> Seq<JsonView> {
    candidates.map_values(|url: Text| JsonView::Text(url)).push(JsonView::Null)
}

/// The schema of the model's answer.
pub open spec fn schema_of(candidates: Seq<Text>) -> JsonView {
    JsonView::Object(
        seq![
            ("type"@, JsonView::Text("object"@)),
            (
                "properties"@,
                JsonView::Object(
                    seq![
                        (
                            "repository"@,
                            JsonView::Object(
                                seq![("enum"@, JsonView::Array(allowed_answers(candidates)))],
                            ),
                        ),
                        (
                            "openPullRequest"@,
                            JsonView::Object(seq![("type"@, JsonView::Text("boolean"@))]),
                        ),
                    ],
                ),
            ),
        ],
    )
}

/// The schema of the model's answer: it cannot express a repository the user
/// does not reach.
pub fn choice_schema(candidates: &Vec<String>) -> (schema: Json)
    ensures
        schema@ == schema_of(candidates.deep_view()),
{
    let ghost urls = candidates.deep_view();
    let mut answers: Vec<Json> = no_items();
    let mut i: usize = 0;
    assert(urls.take(0).map_values(|url: Text| JsonView::Text(url)) =~= Seq::<JsonView>::empty());
    while i < candidates.len()
        invariant
            i <= candidates@.len(),
            urls == candidates.deep_view(),
            items_view(answers@) == urls.take(i as int).map_values(
                |url: Text| JsonView::Text(url),
            ),
        decreases candidates@.len() - i,
    {
        push_item(&mut answers, string(candidates[i].as_str()));
        proof {
            assert(urls.take(i + 1).map_values(|url: Text| JsonView::Text(url)) =~= urls.take(
                i as int,
            ).map_values(|url: Text| JsonView::Text(url)).push(JsonView::Text(urls[i as int])));
        }
        i = i + 1;
    }
    assert(urls.take(i as int) =~= urls);
    push_item(&mut answers, Json::Null);
    let mut repository: Vec<Member> = no_members();
    push_member(&mut repository, "enum", array(answers));
    let mut open_pull_request: Vec<Member> = no_members();
    push_member(&mut open_pull_request, "type", string("boolean"));
    let mut properties: Vec<Member> = no_members();
    push_member(&mut properties, "repository", object(repository));
    push_member(&mut properties, "openPullRequest", object(open_pull_request));
    let mut schema: Vec<Member> = no_members();
    push_member(&mut schema, "type", string("object"));
    push_member(&mut schema, "properties", object(properties));
    proof {
        assert(members_view(repository@) =~= seq![
            ("enum"@, JsonView::Array(allowed_answers(urls))),
        ]);
        assert(members_view(open_pull_request@) =~= seq![
            ("type"@, JsonView::Text("boolean"@)),
        ]);
        assert(members_view(properties@) =~= seq![
            ("repository"@, JsonView::Object(members_view(repository@))),
            ("openPullRequest"@, JsonView::Object(members_view(open_pull_request@))),
        ]);
        assert(members_view(schema@) =~= seq![
            ("type"@, JsonView::Text("object"@)),
            ("properties"@, JsonView::Object(members_view(properties@))),
        ]);
    }
    object(schema)
}

} // verus!

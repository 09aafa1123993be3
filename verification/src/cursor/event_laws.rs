//! What Cursor's messages are read as.

use crate::cursor::event::{
    branch_of, event_of, EventView, GitBranchView, InteractionView,
};
use crate::cursor::journal::{decoded, poll_fields, poll_of, RecordView, ReplayErrorView};
use crate::cursor::model::{status_label, status_named, OutcomeView, StatusView};
use crate::json::{read_json, JsonView};
use crate::text::Text;
use vstd::prelude::*;

verus! {

/// How Cursor spells a status.
pub open spec fn status_spelled(status: StatusView) -> Text {
    match status {
        StatusView::Creating => "CREATING"@,
        StatusView::Running => "RUNNING"@,
        StatusView::Finished => "FINISHED"@,
        StatusView::Cancelled => "CANCELLED"@,
        StatusView::Error => "ERROR"@,
        StatusView::Unknown(text) => text,
    }
}

proof fn lemma_status_spellings()
    ensures
        "CREATING"@.len() == 8 && "CREATING"@[0] == 'C',
        "RUNNING"@.len() == 7,
        "FINISHED"@.len() == 8 && "FINISHED"@[0] == 'F',
        "CANCELLED"@.len() == 9,
        "ERROR"@.len() == 5,
{
    reveal_strlit("CREATING");
    reveal_strlit("RUNNING");
    reveal_strlit("FINISHED");
    reveal_strlit("CANCELLED");
    reveal_strlit("ERROR");
}

/// A status is read back from its spelling, and every spelling is kept: a text
/// reads as the status that is spelled that way.
pub proof fn law_a_status_is_read_from_its_spelling(text: Text, status: StatusView)
    ensures
        status_spelled(status_named(text)) == text,
        !(status is Unknown) ==> status_named(status_spelled(status)) == status,
        status_named(text) is Unknown <==> text != "CREATING"@ && text != "RUNNING"@ && text
            != "FINISHED"@ && text != "CANCELLED"@ && text != "ERROR"@,
{
    lemma_status_spellings();
}

/// A run has ended for good exactly when it finished, was cancelled or failed,
/// and is in progress exactly while it is being created or runs. A state nobody
/// knows is neither.
pub proof fn law_how_far_a_run_is(status: StatusView)
    ensures
        status.is_terminal() <==> (status == StatusView::Finished || status
            == StatusView::Cancelled || status == StatusView::Error),
        status.in_progress() <==> (status == StatusView::Creating || status == StatusView::Running),
        !(status.is_terminal() && status.in_progress()),
        status is Unknown ==> !status.is_terminal() && !status.in_progress(),
{
}

/// The two names under which a message tells where its run is are read with the
/// run's id as Cursor writes it; a message without them is kept as one nobody
/// knows.
pub proof fn law_a_status_message_is_read(payload: JsonView, run_id: Text, status: Text)
    ensures
        payload.member("runId"@) == Some(JsonView::Text(run_id)) && payload.member("status"@)
            == Some(JsonView::Text(status)) ==> event_of("status"@, payload)
            == (EventView::Status { run_id, status: status_named(status) }),
        payload.text_member("runId"@) is None || payload.text_member("status"@) is None ==> event_of(
            "status"@,
            payload,
        ) == (EventView::Unknown { event: "status"@ }),
{
}

proof fn lemma_names()
    ensures
        "status"@.len() == 6 && "status"@[0] == 's',
        "assistant"@.len() == 9 && "assistant"@[0] == 'a',
        "tool_call"@.len() == 9 && "tool_call"@[0] == 't',
        "interaction_update"@.len() == 18,
        "result"@.len() == 6 && "result"@[0] == 'r',
        "error"@.len() == 5,
        "heartbeat"@.len() == 9 && "heartbeat"@[0] == 'h',
        "done"@.len() == 4,
        "tool-call-started"@.len() == 17,
        "token-delta"@.len() == 11,
        "user-message-appended"@.len() == 21,
        "step-started"@.len() == 12,
{
    reveal_strlit("status");
    reveal_strlit("assistant");
    reveal_strlit("tool_call");
    reveal_strlit("interaction_update");
    reveal_strlit("result");
    reveal_strlit("error");
    reveal_strlit("heartbeat");
    reveal_strlit("done");
    reveal_strlit("tool-call-started");
    reveal_strlit("token-delta");
    reveal_strlit("user-message-appended");
    reveal_strlit("step-started");
}

/// A piece of the answer is read as the very text it carries.
pub proof fn law_an_answers_piece_is_read(payload: JsonView, text: Text)
    ensures
        payload.member("text"@) == Some(JsonView::Text(text)) ==> event_of("assistant"@, payload)
            == (EventView::Assistant { text }),
        payload.text_member("text"@) is None ==> event_of("assistant"@, payload)
            == (EventView::Unknown { event: "assistant"@ }),
{
    lemma_names();
}

/// A tool call is read with its id, its tool and where it is, and with the
/// halves that Cursor marks as cut short; a half is cut short only where the
/// mark is there and true.
pub proof fn law_a_tool_call_is_read(
    payload: JsonView,
    call_id: Text,
    name: Text,
    status: Option<Text>,
    halves: JsonView,
)
    requires
        payload.member("callId"@) == Some(JsonView::Text(call_id)),
        payload.member("name"@) == Some(JsonView::Text(name)),
        payload.member("status"@) == (match status {
            Some(status) => Some(JsonView::Text(status)),
            None => None,
        }),
    ensures
        ({
            let event = event_of("tool_call"@, payload);
            &&& event is ToolCall
            &&& event->ToolCall_0.call_id == call_id
            &&& event->ToolCall_0.name == name
            &&& event->ToolCall_0.status == status
            &&& payload.member("truncated"@) == Some(halves) ==> {
                &&& event->ToolCall_0.truncated.args <==> halves.member("args"@) == Some(
                    JsonView::Bool(true),
                )
                &&& event->ToolCall_0.truncated.result <==> halves.member("result"@) == Some(
                    JsonView::Bool(true),
                )
            }
            &&& payload.member("truncated"@) is None ==> !event->ToolCall_0.truncated.args
                && !event->ToolCall_0.truncated.result
        }),
{
    lemma_names();
}

/// An interaction update is read by its type: a started call with its id and
/// its kind of tool, spent tokens with how many, the run's prompt with its text,
/// and any other by its type alone.
pub proof fn law_an_interaction_is_read(
    payload: JsonView,
    kind: Text,
    call_id: Text,
    tool_type: Text,
    call: JsonView,
    tokens: u64,
    message: JsonView,
    text: Text,
)
    requires
        payload.member("type"@) == Some(JsonView::Text(kind)),
    ensures
        ({
            let event = event_of("interaction_update"@, payload);
            &&& kind == "tool-call-started"@ && payload.member("callId"@) == Some(
                JsonView::Text(call_id),
            ) && payload.member("toolCall"@) == Some(call) && !(call is Null) && call.member(
                "type"@,
            ) == Some(JsonView::Text(tool_type)) ==> event == EventView::Interaction(
                InteractionView::ToolCallStarted { call_id, tool_type: Some(tool_type) },
            )
            &&& kind == "tool-call-started"@ && payload.member("callId"@) == Some(
                JsonView::Text(call_id),
            ) && payload.member("toolCall"@) is None ==> event == EventView::Interaction(
                InteractionView::ToolCallStarted { call_id, tool_type: None },
            )
            &&& kind == "token-delta"@ && payload.member("tokens"@) == Some(
                JsonView::Number(Some(tokens)),
            ) ==> event == EventView::Interaction(InteractionView::TokenDelta { tokens })
            &&& kind == "user-message-appended"@ && payload.member("userMessage"@) == Some(message)
                && message.member("text"@) == Some(JsonView::Text(text)) ==> event
                == EventView::Interaction(InteractionView::UserMessage { text })
            &&& kind != "tool-call-started"@ && kind != "token-delta"@ && kind
                != "user-message-appended"@ ==> event == EventView::Interaction(
                InteractionView::Other { kind },
            )
        }),
{
    lemma_names();
}

/// The update that opens a step is read as such, whatever else it carries.
pub proof fn law_a_steps_start_is_read(record: RecordView, payload: JsonView)
    requires
        record.event == "interaction_update"@,
        read_json(record.data) == Ok::<JsonView, Text>(payload),
        payload.member("type"@) == Some(JsonView::Text("step-started"@)),
    ensures
        decoded(record) == EventView::Interaction(InteractionView::Other { kind: "step-started"@ }),
{
    lemma_names();
}

/// A result is read with its run, its status, its text, how long it took and
/// what was pushed, each as written; what is missing or null is absent.
pub proof fn law_a_result_is_read(
    payload: JsonView,
    run_id: Text,
    status: Text,
    text: Option<Text>,
    duration_ms: Option<u64>,
)
    requires
        payload.member("runId"@) == Some(JsonView::Text(run_id)),
        payload.member("status"@) == Some(JsonView::Text(status)),
        text matches Some(answer) ==> payload.member("text"@) == Some(JsonView::Text(answer)),
        text is None ==> payload.member("text"@) is None || payload.member("text"@) == Some(
            JsonView::Null,
        ),
        duration_ms matches Some(duration) ==> payload.member("durationMs"@) == Some(
            JsonView::Number(Some(duration)),
        ),
        duration_ms is None ==> payload.member("durationMs"@) is None,
        payload.member("git"@) is None,
    ensures
        event_of("result"@, payload) == (EventView::Result {
            run_id,
            status: status_named(status),
            text,
            duration_ms,
            git: None,
        }),
{
    lemma_names();
}

/// Whether a branch list's entry reads as a branch.
pub open spec fn spells_branch(entry: JsonView, branch: GitBranchView) -> bool {
    &&& entry.member("repoUrl"@) == Some(JsonView::Text(branch.repo_url))
    &&& match branch.branch {
        Some(name) => entry.member("branch"@) == Some(JsonView::Text(name)),
        None => entry.member("branch"@) is None || entry.member("branch"@) == Some(JsonView::Null),
    }
    &&& match branch.pr_url {
        Some(url) => entry.member("prUrl"@) == Some(JsonView::Text(url)),
        None => entry.member("prUrl"@) is None || entry.member("prUrl"@) == Some(JsonView::Null),
    }
}

/// What a run pushed is read branch by branch, in order: each with its
/// repository, its name and its pull request.
pub proof fn law_what_a_run_pushed_is_read(
    payload: JsonView,
    git: JsonView,
    entries: Seq<JsonView>,
    branches: Seq<GitBranchView>,
)
    requires
        payload.text_member("runId"@) is Some,
        payload.text_member("status"@) is Some,
        payload.member("text"@) is None,
        payload.member("durationMs"@) is None,
        payload.member("git"@) == Some(git),
        git is Object,
        git.member("branches"@) == Some(JsonView::Array(entries)),
        entries.len() == branches.len(),
        forall|i: int| 0 <= i < entries.len() ==> spells_branch(#[trigger] entries[i], branches[i]),
    ensures
        event_of("result"@, payload) is Result,
        event_of("result"@, payload)->git == Some(branches),
{
    lemma_names();
    assert forall|i: int| 0 <= i < entries.len() implies branch_of(
        #[trigger] entries[i],
    ) == Some(branches[i]) by {
        assert(spells_branch(entries[i], branches[i]));
    }
    assert(entries.map_values(|entry: JsonView| branch_of(entry)->0)
        =~= branches);
}

/// A failure of the stream is read with its code and its words as far as they
/// are there; what keeps the connection open and what ends it are read by
/// their names alone; a name nobody knows is kept.
pub proof fn law_the_other_messages_are_read(
    payload: JsonView,
    code: Text,
    message: Text,
    name: Text,
)
    ensures
        payload.member("code"@) == Some(JsonView::Text(code)) && payload.member("message"@) == Some(
            JsonView::Text(message),
        ) ==> event_of("error"@, payload) == (EventView::Error {
            code: Some(code),
            message: Some(message),
        }),
        payload.member("code"@) is None && payload.member("message"@) == Some(
            JsonView::Text(message),
        ) ==> event_of("error"@, payload) == (EventView::Error {
            code: None,
            message: Some(message),
        }),
        event_of("heartbeat"@, payload) == EventView::Heartbeat,
        event_of("done"@, payload) == EventView::Done,
        name != "status"@ && name != "assistant"@ && name != "tool_call"@ && name
            != "interaction_update"@ && name != "result"@ && name != "error"@ && name
            != "heartbeat"@ && name != "done"@ ==> event_of(name, payload)
            == (EventView::Unknown { event: name }),
{
    lemma_names();
}

/// A message is read from its name and its data; data that is not JSON reads
/// as null.
pub proof fn law_a_message_is_read_from_its_data(record: RecordView, payload: JsonView)
    ensures
        read_json(record.data) == Ok::<JsonView, Text>(payload) ==> decoded(record) == event_of(
            record.event,
            payload,
        ),
        read_json(record.data) is Err ==> decoded(record) == event_of(record.event, JsonView::Null),
{
}

/// A polling body tells its run's status, and its answer under either of two
/// names, `result` before `text`. One that names no status, and one that is not
/// JSON, are refused, the latter in the reader's words.
pub proof fn law_a_polling_body_is_read(raw: Text, body: JsonView, status: Text, answer: Text)
    ensures
        read_json(raw) == Ok::<JsonView, Text>(body) ==> {
            &&& body.member("status"@) == Some(JsonView::Text(status)) ==> {
                &&& poll_of(raw) is Ok
                &&& poll_of(raw)->Ok_0.status == status_named(status)
                &&& body.member("result"@) == Some(JsonView::Text(answer)) ==> poll_of(raw)->Ok_0.text
                    == Some(answer)
                &&& body.member("result"@) is None && body.member("text"@) == Some(
                    JsonView::Text(answer),
                ) ==> poll_of(raw)->Ok_0.text == Some(answer)
                &&& body.member("result"@) is None && body.member("text"@) is None ==> poll_of(
                    raw,
                )->Ok_0.text is None
                &&& body.member("result"@) == Some(JsonView::Null) ==> poll_of(raw)->Ok_0.text
                    is None
            }
            &&& body.text_member("status"@) is None ==> poll_of(raw)
                == Err::<OutcomeView, ReplayErrorView>(ReplayErrorView::PollWithoutStatus)
            &&& poll_of(raw) matches Ok(outcome) ==> poll_fields(body) == Some(outcome)
        },
        read_json(raw) matches Err(words) ==> poll_of(raw) == Err::<OutcomeView, ReplayErrorView>(
            ReplayErrorView::PollNotJson(words),
        ),
{
}

/// A status is named in messages by its own word.
pub proof fn law_a_status_is_named_by_its_word(status: StatusView)
    ensures
        status is Creating ==> status_label(status) == "Creating"@,
        status is Running ==> status_label(status) == "Running"@,
        status is Finished ==> status_label(status) == "Finished"@,
        status is Cancelled ==> status_label(status) == "Cancelled"@,
        status is Error ==> status_label(status) == "Error"@,
{
}

} // verus!

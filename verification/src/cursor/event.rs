//! The events of a Cursor run, decoded from their wire payloads.
//!
//! Decoding never fails: a payload whose shape has drifted, or an event this
//! crate has never seen, becomes [`CursorEvent::Unknown`] instead of killing a
//! stream that already cost a run.

use crate::cursor::model::{status_named, CursorRunId, RunStatus, StatusView};
use crate::json::{json_view, Json, JsonView};
use crate::text::{same_text, Text};
use vstd::prelude::*;

verus! {

/// One event of a run's stream.
#[derive(Debug, PartialEq, Eq)]
#[allow(inconsistent_fields)]
pub enum CursorEvent {
    /// The run moved to another state.
    Status {
        /// The run.
        run_id: CursorRunId,
        /// Its state.
        status: RunStatus,
    },
    /// A piece of the agent's answer.
    Assistant {
        /// The piece.
        text: String,
    },
    /// A tool call, started or settled.
    ToolCall(ToolCall),
    /// A fine-grained interaction update.
    Interaction(InteractionUpdate),
    /// The run's terminal result.
    Result {
        /// The run.
        run_id: CursorRunId,
        /// Its last state.
        status: RunStatus,
        /// The final answer.
        text: Option<String>,
        /// How long the run took.
        duration_ms: Option<u64>,
        /// What the run pushed.
        git: Option<GitState>,
    },
    /// The stream reports a failure of its own.
    Error {
        /// The failure's code.
        code: Option<String>,
        /// The failure in words.
        message: Option<String>,
    },
    /// Keeps the connection open.
    Heartbeat,
    /// Nothing more follows.
    Done,
    /// Anything else.
    Unknown {
        /// The event's wire name.
        event: String,
    },
}

/// A tool call of a run.
#[derive(Debug, PartialEq, Eq)]
pub struct ToolCall {
    /// The call's id.
    pub call_id: String,
    /// The tool.
    pub name: String,
    /// Where the call is.
    pub status: Option<String>,
    /// Which halves Cursor cut short.
    pub truncated: Truncation,
}

/// Which halves of a tool call Cursor cut short.
#[derive(Debug, Clone, Copy, PartialEq, Eq, Structural)]
pub struct Truncation {
    /// The arguments were cut.
    pub args: bool,
    /// The result was cut.
    pub result: bool,
}

/// A fine-grained interaction update.
#[derive(Debug, PartialEq, Eq)]
pub enum InteractionUpdate {
    /// A tool call started.
    ToolCallStarted {
        /// The call's id.
        call_id: String,
        /// The kind of tool.
        tool_type: Option<String>,
    },
    /// Tokens were spent.
    TokenDelta {
        /// How many.
        tokens: u64,
    },
    /// The prompt that opened the run.
    UserMessage {
        /// Its text.
        text: String,
    },
    /// Anything else.
    Other {
        /// The update's wire type.
        kind: String,
    },
}

/// What a run pushed.
#[derive(Debug, PartialEq, Eq)]
pub struct GitState {
    /// The branches, one per repository.
    pub branches: Vec<GitBranch>,
}

/// One repository's branch.
#[derive(Debug, PartialEq, Eq)]
pub struct GitBranch {
    /// The repository.
    pub repo_url: String,
    /// The branch, when one was pushed.
    pub branch: Option<String>,
    /// The pull request, when one was opened.
    pub pr_url: Option<String>,
}

/// The mathematical model of [`ToolCall`].
pub struct ToolCallView {
    pub call_id: Text,
    pub name: Text,
    pub status: Option<Text>,
    pub truncated: Truncation,
}

/// The mathematical model of [`InteractionUpdate`].
pub enum InteractionView {
    ToolCallStarted { call_id: Text, tool_type: Option<Text> },
    TokenDelta { tokens: u64 },
    UserMessage { text: Text },
    Other { kind: Text },
}

/// The mathematical model of [`GitBranch`].
pub struct GitBranchView {
    pub repo_url: Text,
    pub branch: Option<Text>,
    pub pr_url: Option<Text>,
}

/// The mathematical model of [`CursorEvent`].
#[allow(inconsistent_fields)]
pub enum EventView {
    Status { run_id: Text, status: StatusView },
    Assistant { text: Text },
    ToolCall(ToolCallView),
    Interaction(InteractionView),
    Result {
        run_id: Text,
        status: StatusView,
        text: Option<Text>,
        duration_ms: Option<u64>,
        git: Option<Seq<GitBranchView>>,
    },
    Error { code: Option<Text>, message: Option<Text> },
    Heartbeat,
    Done,
    Unknown { event: Text },
}

impl DeepView for ToolCall {
    type V = ToolCallView;

    open spec fn deep_view(&self) -> ToolCallView {
        ToolCallView {
            call_id: self.call_id@,
            name: self.name@,
            status: self.status.deep_view(),
            truncated: self.truncated,
        }
    }
}

impl DeepView for InteractionUpdate {
    type V = InteractionView;

    open spec fn deep_view(&self) -> InteractionView {
        match self {
            InteractionUpdate::ToolCallStarted { call_id, tool_type } => {
                InteractionView::ToolCallStarted {
                    call_id: call_id@,
                    tool_type: tool_type.deep_view(),
                }
            },
            InteractionUpdate::TokenDelta { tokens } => InteractionView::TokenDelta {
                tokens: *tokens,
            },
            InteractionUpdate::UserMessage { text } => InteractionView::UserMessage {
                text: text@,
            },
            InteractionUpdate::Other { kind } => InteractionView::Other { kind: kind@ },
        }
    }
}

impl DeepView for GitBranch {
    type V = GitBranchView;

    open spec fn deep_view(&self) -> GitBranchView {
        GitBranchView {
            repo_url: self.repo_url@,
            branch: self.branch.deep_view(),
            pr_url: self.pr_url.deep_view(),
        }
    }
}

impl DeepView for GitState {
    type V = Seq<GitBranchView>;

    open spec fn deep_view(&self) -> Seq<GitBranchView> {
        self.branches.deep_view()
    }
}

impl DeepView for CursorEvent {
    type V = EventView;

    open spec fn deep_view(&self) -> EventView {
        match self {
            CursorEvent::Status { run_id, status } => EventView::Status {
                run_id: run_id.deep_view(),
                status: status.deep_view(),
            },
            CursorEvent::Assistant { text } => EventView::Assistant { text: text@ },
            CursorEvent::ToolCall(call) => EventView::ToolCall(call.deep_view()),
            CursorEvent::Interaction(update) => EventView::Interaction(update.deep_view()),
            CursorEvent::Result { run_id, status, text, duration_ms, git } => EventView::Result {
                run_id: run_id.deep_view(),
                status: status.deep_view(),
                text: text.deep_view(),
                duration_ms: *duration_ms,
                git: git.deep_view(),
            },
            CursorEvent::Error { code, message } => EventView::Error {
                code: code.deep_view(),
                message: message.deep_view(),
            },
            CursorEvent::Heartbeat => EventView::Heartbeat,
            CursorEvent::Done => EventView::Done,
            CursorEvent::Unknown { event } => EventView::Unknown { event: event@ },
        }
    }
}

/// A member that may be missing or null, and is a string otherwise. The outer
/// `None` is a member of another type.
pub open spec fn optional_text(payload: JsonView, name: Text) -> Option<Option<Text>> {
    match payload.member(name) {
        None | Some(JsonView::Null) => Some(None),
        Some(JsonView::Text(text)) => Some(Some(text)),
        _ => None,
    }
}

/// A member that may be missing or null, and is an unsigned integer otherwise.
/// The outer `None` is a member of another type.
pub open spec fn optional_number(payload: JsonView, name: Text) -> Option<Option<u64>> {
    match payload.member(name) {
        None | Some(JsonView::Null) => Some(None),
        Some(JsonView::Number(Some(value))) => Some(Some(value)),
        _ => None,
    }
}

/// A flag that is set only by a literal `true`.
pub open spec fn flag(payload: JsonView, name: Text) -> bool {
    payload.member(name) == Some(JsonView::Bool(true))
}

/// The truncation flags of a tool call. Any shape but an object of flags reads
/// as none set.
pub open spec fn truncation_of(payload: JsonView) -> Truncation {
    match payload.member("truncated"@) {
        Some(halves) => Truncation { args: flag(halves, "args"@), result: flag(halves, "result"@) },
        None => Truncation { args: false, result: false },
    }
}

/// A `status` payload.
pub open spec fn status_event(payload: JsonView) -> Option<EventView> {
    match (payload.text_member("runId"@), payload.text_member("status"@)) {
        (Some(run_id), Some(status)) => Some(
            EventView::Status { run_id, status: status_named(status) },
        ),
        _ => None,
    }
}

/// An `assistant` payload.
pub open spec fn assistant_event(payload: JsonView) -> Option<EventView> {
    match payload.text_member("text"@) {
        Some(text) => Some(EventView::Assistant { text }),
        None => None,
    }
}

/// A `tool_call` payload.
pub open spec fn tool_call_event(payload: JsonView) -> Option<EventView> {
    match (
        payload.text_member("callId"@),
        payload.text_member("name"@),
        optional_text(payload, "status"@),
    ) {
        (Some(call_id), Some(name), Some(status)) => Some(
            EventView::ToolCall(
                ToolCallView { call_id, name, status, truncated: truncation_of(payload) },
            ),
        ),
        _ => None,
    }
}

/// An `interaction_update` payload.
pub open spec fn interaction_event(payload: JsonView) -> Option<EventView> {
    match payload.text_member("type"@) {
        None => None,
        Some(kind) => if kind == "tool-call-started"@ {
            let tool_type = match payload.member("toolCall"@) {
                None | Some(JsonView::Null) => Some(None),
                Some(call) => optional_text(call, "type"@),
            };
            match (payload.text_member("callId"@), tool_type) {
                (Some(call_id), Some(tool_type)) => Some(
                    EventView::Interaction(
                        InteractionView::ToolCallStarted { call_id, tool_type },
                    ),
                ),
                _ => None,
            }
        } else if kind == "token-delta"@ {
            match payload.member("tokens"@) {
                Some(JsonView::Number(Some(tokens))) => Some(
                    EventView::Interaction(InteractionView::TokenDelta { tokens }),
                ),
                _ => None,
            }
        } else if kind == "user-message-appended"@ {
            match payload.member("userMessage"@) {
                Some(message) => match message.text_member("text"@) {
                    Some(text) => Some(
                        EventView::Interaction(InteractionView::UserMessage { text }),
                    ),
                    None => None,
                },
                None => None,
            }
        } else {
            Some(EventView::Interaction(InteractionView::Other { kind }))
        },
    }
}

/// One entry of a result's branch list.
pub open spec fn branch_of(entry: JsonView) -> Option<GitBranchView> {
    match (
        entry.text_member("repoUrl"@),
        optional_text(entry, "branch"@),
        optional_text(entry, "prUrl"@),
    ) {
        (Some(repo_url), Some(branch), Some(pr_url)) => Some(
            GitBranchView { repo_url, branch, pr_url },
        ),
        _ => None,
    }
}

/// A result's branch list; `None` when an entry cannot be read.
pub open spec fn branches_of(entries: Seq<JsonView>) -> Option<Seq<GitBranchView>> {
    if forall|i: int| 0 <= i < entries.len() ==> branch_of(#[trigger] entries[i]) is Some {
        Some(entries.map_values(|entry: JsonView| branch_of(entry)->0))
    } else {
        None
    }
}

/// What a result says the run pushed. The outer `None` is a shape that cannot
/// be read.
pub open spec fn git_of(payload: JsonView) -> Option<Option<Seq<GitBranchView>>> {
    match payload.member("git"@) {
        None | Some(JsonView::Null) => Some(None),
        Some(git) => match git {
            JsonView::Object(_) => match git.member("branches"@) {
                None => Some(Some(Seq::empty())),
                Some(JsonView::Array(entries)) => match branches_of(entries) {
                    Some(branches) => Some(Some(branches)),
                    None => None,
                },
                _ => None,
            },
            _ => None,
        },
    }
}

/// A `result` payload.
pub open spec fn result_event(payload: JsonView) -> Option<EventView> {
    match (
        payload.text_member("runId"@),
        payload.text_member("status"@),
        optional_text(payload, "text"@),
        optional_number(payload, "durationMs"@),
        git_of(payload),
    ) {
        (Some(run_id), Some(status), Some(text), Some(duration_ms), Some(git)) => Some(
            EventView::Result { run_id, status: status_named(status), text, duration_ms, git },
        ),
        _ => None,
    }
}

/// An `error` payload.
pub open spec fn error_event(payload: JsonView) -> Option<EventView> {
    match (optional_text(payload, "code"@), optional_text(payload, "message"@)) {
        (Some(code), Some(message)) => Some(EventView::Error { code, message }),
        _ => None,
    }
}

/// The event a payload of a known name stands for, when it can be read.
pub open spec fn known_event(name: Text, payload: JsonView) -> Option<EventView> {
    if name == "status"@ {
        status_event(payload)
    } else if name == "assistant"@ {
        assistant_event(payload)
    } else if name == "tool_call"@ {
        tool_call_event(payload)
    } else if name == "interaction_update"@ {
        interaction_event(payload)
    } else if name == "result"@ {
        result_event(payload)
    } else if name == "error"@ {
        error_event(payload)
    } else if name == "heartbeat"@ {
        Some(EventView::Heartbeat)
    } else if name == "done"@ {
        Some(EventView::Done)
    } else {
        None
    }
}

/// The event a wire name and payload stand for.
pub open spec fn event_of(name: Text, payload: JsonView) -> EventView {
    match known_event(name, payload) {
        Some(event) => event,
        None => EventView::Unknown { event: name },
    }
}

fn read_optional_text(payload: &Json, name: &str) -> (read: Option<Option<String>>)
    ensures
        read.deep_view() == optional_text(payload@, name@),
{
    match payload.get(name) {
        None => Some(None),
        Some(Json::Null) => Some(None),
        Some(Json::Text(text)) => Some(Some(text.clone())),
        Some(_) => None,
    }
}

fn read_optional_number(payload: &Json, name: &str) -> (read: Option<Option<u64>>)
    ensures
        read == optional_number(payload@, name@),
{
    match payload.get(name) {
        None => Some(None),
        Some(Json::Null) => Some(None),
        Some(Json::Number(Some(value))) => Some(Some(*value)),
        Some(_) => None,
    }
}

fn read_flag(payload: &Json, name: &str) -> (set: bool)
    ensures
        set == flag(payload@, name@),
{
    match payload.get(name) {
        Some(Json::Bool(value)) => *value,
        _ => false,
    }
}

fn read_truncation(payload: &Json) -> (truncated: Truncation)
    ensures
        truncated == truncation_of(payload@),
{
    match payload.get("truncated") {
        Some(halves) => Truncation {
            args: read_flag(halves, "args"),
            result: read_flag(halves, "result"),
        },
        None => Truncation { args: false, result: false },
    }
}

fn read_status(payload: &Json) -> (event: Option<CursorEvent>)
    ensures
        event.deep_view() == status_event(payload@),
{
    match (payload.text_member("runId"), payload.text_member("status")) {
        (Some(run_id), Some(status)) => Some(
            CursorEvent::Status {
                run_id: CursorRunId { value: run_id },
                status: RunStatus::from_wire(status.as_str()),
            },
        ),
        _ => None,
    }
}

fn read_tool_call(payload: &Json) -> (event: Option<CursorEvent>)
    ensures
        event.deep_view() == tool_call_event(payload@),
{
    match (
        payload.text_member("callId"),
        payload.text_member("name"),
        read_optional_text(payload, "status"),
    ) {
        (Some(call_id), Some(name), Some(status)) => Some(
            CursorEvent::ToolCall(
                ToolCall { call_id, name, status, truncated: read_truncation(payload) },
            ),
        ),
        _ => None,
    }
}

fn read_interaction(payload: &Json) -> (event: Option<CursorEvent>)
    ensures
        event.deep_view() == interaction_event(payload@),
{
    let kind: String = match payload.text_member("type") {
        Some(kind) => kind,
        None => return None,
    };
    if same_text(kind.as_str(), "tool-call-started") {
        let tool_type: Option<Option<String>> = match payload.get("toolCall") {
            None => Some(None),
            Some(Json::Null) => Some(None),
            Some(call) => read_optional_text(call, "type"),
        };
        match (payload.text_member("callId"), tool_type) {
            (Some(call_id), Some(tool_type)) => Some(
                CursorEvent::Interaction(InteractionUpdate::ToolCallStarted { call_id, tool_type }),
            ),
            _ => None,
        }
    } else if same_text(kind.as_str(), "token-delta") {
        match payload.get("tokens") {
            Some(Json::Number(Some(tokens))) => Some(
                CursorEvent::Interaction(InteractionUpdate::TokenDelta { tokens: *tokens }),
            ),
            _ => None,
        }
    } else if same_text(kind.as_str(), "user-message-appended") {
        match payload.get("userMessage") {
            Some(message) => match message.text_member("text") {
                Some(text) => Some(
                    CursorEvent::Interaction(InteractionUpdate::UserMessage { text }),
                ),
                None => None,
            },
            None => None,
        }
    } else {
        Some(CursorEvent::Interaction(InteractionUpdate::Other { kind }))
    }
}

fn read_branch(entry: &Json) -> (branch: Option<GitBranch>)
    ensures
        branch.deep_view() == branch_of(entry@),
{
    match (
        entry.text_member("repoUrl"),
        read_optional_text(entry, "branch"),
        read_optional_text(entry, "prUrl"),
    ) {
        (Some(repo_url), Some(branch), Some(pr_url)) => Some(
            GitBranch { repo_url, branch, pr_url },
        ),
        _ => None,
    }
}

fn read_branches(entries: &Vec<Json>) -> (branches: Option<Vec<GitBranch>>)
    ensures
        branches.deep_view() == branches_of(entries@.map_values(|entry: Json| json_view(entry))),
{
    let ghost views = entries@.map_values(|entry: Json| json_view(entry));
    let mut branches: Vec<GitBranch> = Vec::new();
    let mut i: usize = 0;
    while i < entries.len()
        invariant
            i <= entries@.len(),
            views == entries@.map_values(|entry: Json| json_view(entry)),
            branches@.len() == i,
            forall|k: int|
                0 <= k < i ==> branch_of(#[trigger] views[k]) == Some(branches@[k].deep_view()),
        decreases entries@.len() - i,
    {
        match read_branch(&entries[i]) {
            Some(branch) => {
                assert(branch_of(views[i as int]) == Some(branch.deep_view()));
                branches.push(branch);
            },
            None => {
                assert(branch_of(views[i as int]) is None);
                return None;
            },
        }
        i = i + 1;
    }
    proof {
        assert(branches.deep_view() =~= views.map_values(
            |entry: JsonView| branch_of(entry)->0,
        ));
    }
    Some(branches)
}

fn read_git(payload: &Json) -> (git: Option<Option<GitState>>)
    ensures
        git.deep_view() == git_of(payload@),
{
    match payload.get("git") {
        None => Some(None),
        Some(Json::Null) => Some(None),
        Some(git) => match git {
            Json::Object(_) => match git.get("branches") {
                None => {
                    let branches: Vec<GitBranch> = Vec::new();
                    assert(branches.deep_view() =~= Seq::<GitBranchView>::empty());
                    Some(Some(GitState { branches }))
                },
                Some(Json::Array(entries)) => {
                    assert(json_view(Json::Array(*entries))->Array_0 =~= entries@.map_values(
                        |entry: Json| json_view(entry),
                    ));
                    match read_branches(entries) {
                        Some(branches) => Some(Some(GitState { branches })),
                        None => None,
                    }
                },
                Some(_) => None,
            },
            _ => None,
        },
    }
}

fn read_result(payload: &Json) -> (event: Option<CursorEvent>)
    ensures
        event.deep_view() == result_event(payload@),
{
    match (
        payload.text_member("runId"),
        payload.text_member("status"),
        read_optional_text(payload, "text"),
        read_optional_number(payload, "durationMs"),
        read_git(payload),
    ) {
        (Some(run_id), Some(status), Some(text), Some(duration_ms), Some(git)) => Some(
            CursorEvent::Result {
                run_id: CursorRunId { value: run_id },
                status: RunStatus::from_wire(status.as_str()),
                text,
                duration_ms,
                git,
            },
        ),
        _ => None,
    }
}

fn read_known(name: &str, payload: &Json) -> (event: Option<CursorEvent>)
    ensures
        event.deep_view() == known_event(name@, payload@),
{
    if same_text(name, "status") {
        read_status(payload)
    } else if same_text(name, "assistant") {
        match payload.text_member("text") {
            Some(text) => Some(CursorEvent::Assistant { text }),
            None => None,
        }
    } else if same_text(name, "tool_call") {
        read_tool_call(payload)
    } else if same_text(name, "interaction_update") {
        read_interaction(payload)
    } else if same_text(name, "result") {
        read_result(payload)
    } else if same_text(name, "error") {
        match (read_optional_text(payload, "code"), read_optional_text(payload, "message")) {
            (Some(code), Some(message)) => Some(CursorEvent::Error { code, message }),
            _ => None,
        }
    } else if same_text(name, "heartbeat") {
        Some(CursorEvent::Heartbeat)
    } else if same_text(name, "done") {
        Some(CursorEvent::Done)
    } else {
        None
    }
}

impl CursorEvent {
    /// Decode an event by its wire name.
    pub fn from_wire(name: &str, payload: &Json) -> (event: CursorEvent)
        ensures
            event.deep_view() == event_of(name@, payload@),
    {
        match read_known(name, payload) {
            Some(event) => event,
            None => CursorEvent::Unknown { event: name.to_owned() },
        }
    }
}

} // verus!

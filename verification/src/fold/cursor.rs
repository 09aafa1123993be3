//! Cursor's conventions for reporting a subagent's work.
//!
//! Cursor's subagent tool is `task`. The child's activity is never streamed:
//! the finished call carries the child's whole transcript. The reader folds
//! the transcript's steps into the subagent's children and takes the closing
//! prose as its answer, so the transcript reads like the child had streamed.
//!
//! A field nobody names is ignored; a shape nobody knows is "no information".
//! JSON values that are only carried along are held as their compact text.

use crate::decimal::{parse_decimal, parsed_u64};
use crate::json::{parse_json, parsed_json, Json, JsonView};
use crate::ordered::{least_key, OrderedMap};
use crate::text::{
    collapse_whitespace, ends_with, has_suffix, joined, mentions_cursor, reads_cursor_at, same_text,
    strip_suffixes, without_suffixes, words, Text,
};
use vstd::prelude::*;

verus! {

/// How far a tool call got.
#[derive(Debug, Clone, Copy, PartialEq, Eq, Structural)]
pub enum ToolStatus {
    /// Nothing is recorded of its end.
    Pending,
    /// It succeeded.
    Completed,
    /// It failed.
    Failed,
}

/// A whole-file change.
#[derive(Debug, PartialEq, Eq)]
pub struct FileDiff {
    /// The file.
    pub path: String,
    /// What it held; `None` for a new file.
    pub old_text: Option<String>,
    /// What it holds.
    pub new_text: String,
}

/// What a tool call did.
#[derive(Debug, PartialEq, Eq)]
#[allow(inconsistent_fields)]
pub enum ToolDetail {
    /// Ran a command.
    Terminal {
        /// The command.
        command: Option<String>,
        /// What it wrote, terminal escapes and all.
        output: Option<String>,
        /// How it exited.
        exit_code: Option<i32>,
    },
    /// Read files.
    Read {
        /// The files.
        paths: Vec<String>,
    },
    /// Deleted files.
    Delete {
        /// The files.
        paths: Vec<String>,
    },
    /// Searched.
    Search {
        /// Where.
        paths: Vec<String>,
        /// What was found.
        output: Option<String>,
    },
    /// Changed files.
    Edit {
        /// The changes.
        diffs: Vec<FileDiff>,
    },
    /// Planned.
    Think {
        /// The plan.
        output: Option<String>,
    },
    /// Anything else.
    Other {
        /// What kind of thing.
        kind: String,
        /// What came of it.
        output: Option<String>,
        /// What was asked for, as JSON text.
        input: Option<String>,
    },
}

/// One part of a message.
#[derive(Debug, PartialEq, Eq)]
#[allow(inconsistent_fields)]
pub enum MessagePart {
    /// The agent's reasoning.
    Thought {
        /// The reasoning.
        text: String,
    },
    /// The agent's prose.
    Text {
        /// The prose.
        text: String,
    },
    /// A tool call.
    ToolUse {
        /// The call's id.
        id: String,
        /// The tool, in the harness's own vocabulary.
        name: String,
        /// How far the call got.
        status: ToolStatus,
        /// What it did.
        detail: ToolDetail,
    },
}

/// What a subagent was asked.
#[derive(Debug, PartialEq, Eq)]
pub struct SubagentInput {
    /// The task in a few words.
    pub description: Option<String>,
    /// The task in full.
    pub prompt: Option<String>,
    /// What kind of subagent.
    pub agent_type: Option<String>,
}

/// What a subagent reported.
#[derive(Debug, PartialEq, Eq)]
pub struct SubagentResult {
    /// Its answer.
    pub text: Option<String>,
    /// What went wrong.
    pub error: Option<String>,
    /// Who it was.
    pub agent_id: Option<String>,
    /// Which model it ran on.
    pub model: Option<String>,
    /// How long it took.
    pub duration_ms: Option<u32>,
    /// How many tools it used.
    pub tool_uses: Option<u32>,
}

/// The mathematical model of [`FileDiff`].
pub struct DiffView {
    pub path: Text,
    pub old_text: Option<Text>,
    pub new_text: Text,
}

/// The mathematical model of [`ToolDetail`].
pub enum DetailView {
    Terminal { command: Option<Text>, output: Option<Text>, exit_code: Option<i32> },
    Read { paths: Seq<Text> },
    Delete { paths: Seq<Text> },
    Search { paths: Seq<Text>, output: Option<Text> },
    Edit { diffs: Seq<DiffView> },
    Think { output: Option<Text> },
    Other { kind: Text, output: Option<Text>, input: Option<Text> },
}

/// The mathematical model of [`MessagePart`].
pub enum PartView {
    Thought { text: Text },
    Text { text: Text },
    ToolUse { id: Text, name: Text, status: ToolStatus, detail: DetailView },
}

/// The mathematical model of [`SubagentResult`].
pub struct ResultView {
    pub text: Option<Text>,
    pub error: Option<Text>,
    pub agent_id: Option<Text>,
    pub model: Option<Text>,
    pub duration_ms: Option<u32>,
    pub tool_uses: Option<u32>,
}

impl DeepView for FileDiff {
    type V = DiffView;

    open spec fn deep_view(&self) -> DiffView {
        DiffView {
            path: self.path@,
            old_text: self.old_text.deep_view(),
            new_text: self.new_text@,
        }
    }
}

impl DeepView for ToolDetail {
    type V = DetailView;

    open spec fn deep_view(&self) -> DetailView {
        match self {
            ToolDetail::Terminal { command, output, exit_code } => DetailView::Terminal {
                command: command.deep_view(),
                output: output.deep_view(),
                exit_code: *exit_code,
            },
            ToolDetail::Read { paths } => DetailView::Read { paths: paths.deep_view() },
            ToolDetail::Delete { paths } => DetailView::Delete { paths: paths.deep_view() },
            ToolDetail::Search { paths, output } => DetailView::Search {
                paths: paths.deep_view(),
                output: output.deep_view(),
            },
            ToolDetail::Edit { diffs } => DetailView::Edit { diffs: diffs.deep_view() },
            ToolDetail::Think { output } => DetailView::Think { output: output.deep_view() },
            ToolDetail::Other { kind, output, input } => DetailView::Other {
                kind: kind@,
                output: output.deep_view(),
                input: input.deep_view(),
            },
        }
    }
}

impl DeepView for MessagePart {
    type V = PartView;

    open spec fn deep_view(&self) -> PartView {
        match self {
            MessagePart::Thought { text } => PartView::Thought { text: text@ },
            MessagePart::Text { text } => PartView::Text { text: text@ },
            MessagePart::ToolUse { id, name, status, detail } => PartView::ToolUse {
                id: id@,
                name: name@,
                status: *status,
                detail: detail.deep_view(),
            },
        }
    }
}

impl DeepView for SubagentResult {
    type V = ResultView;

    open spec fn deep_view(&self) -> ResultView {
        ResultView {
            text: self.text.deep_view(),
            error: self.error.deep_view(),
            agent_id: self.agent_id.deep_view(),
            model: self.model.deep_view(),
            duration_ms: self.duration_ms,
            tool_uses: self.tool_uses,
        }
    }
}

impl ResultView {
    /// A report that says nothing.
    pub open spec fn nothing() -> ResultView {
        ResultView {
            text: None,
            error: None,
            agent_id: None,
            model: None,
            duration_ms: None,
            tool_uses: None,
        }
    }
}

impl Default for SubagentResult {
    /// A report that says nothing.
    fn default() -> (result: Self)
        ensures
            result.deep_view() == ResultView::nothing(),
    {
        SubagentResult {
            text: None,
            error: None,
            agent_id: None,
            model: None,
            duration_ms: None,
            tool_uses: None,
        }
    }
}

impl SubagentResult {
    /// Whether the report says nothing.
    pub fn is_empty(&self) -> (empty: bool)
        ensures
            empty == (self.deep_view() == ResultView::nothing()),
    {
        self.text.is_none() && self.error.is_none() && self.agent_id.is_none()
            && self.model.is_none() && self.duration_ms.is_none() && self.tool_uses.is_none()
    }
}

/// A string that says something. Cursor writes `""` for a field it has nothing
/// for, and `"default"` for a model it chose itself.
pub open spec fn informative_text(text: Option<Text>) -> Option<Text> {
    match text {
        Some(text) => if text.len() == 0 || text == "default"@ {
            None
        } else {
            Some(text)
        },
        None => None,
    }
}

/// A string that says something, else `None`.
pub fn informative(text: Option<String>) -> (said: Option<String>)
    ensures
        said.deep_view() == informative_text(text.deep_view()),
{
    match text {
        Some(text) => {
            if text.as_str().is_empty() || same_text(text.as_str(), "default") {
                None
            } else {
                Some(text)
            }
        },
        None => None,
    }
}

/// A count, in each encoding Cursor writes one in.
#[derive(Debug, PartialEq, Eq)]
pub enum Count {
    /// A number.
    Number(u64),
    /// A numeral, proto's encoding of 64-bit fields.
    Text(String),
    /// Anything else.
    Other,
}

/// A number, or the largest `u32` where it is larger.
pub open spec fn clamped(count: u64) -> u32 {
    if count > u32::MAX {
        u32::MAX
    } else {
        count as u32
    }
}

/// What a count reads as. Saturates rather than drops a count past `u32`: a
/// clamped 49 days beats a vanished duration.
pub open spec fn count_value(count: Option<Count>) -> Option<u32> {
    match count {
        Some(Count::Number(count)) => Some(clamped(count)),
        Some(Count::Text(text)) => match parsed_u64(text@) {
            Some(count) => Some(clamped(count)),
            None => None,
        },
        Some(Count::Other) => None,
        None => None,
    }
}

fn saturate(count: u64) -> (clamp: u32)
    ensures
        clamp == clamped(count),
{
    if count > u32::MAX as u64 {
        u32::MAX
    } else {
        count as u32
    }
}

/// Read a count Cursor may encode as a number or as a string.
pub fn lenient_u32(count: Option<Count>) -> (value: Option<u32>)
    ensures
        value == count_value(count),
{
    match count {
        Some(Count::Number(count)) => Some(saturate(count)),
        Some(Count::Text(text)) => match parse_decimal(text.as_str()) {
            Some(count) => Some(saturate(count)),
            None => None,
        },
        Some(Count::Other) => None,
        None => None,
    }
}

/// The `task` tool's arguments.
#[derive(Debug, PartialEq, Eq)]
pub struct TaskArguments {
    /// What kind of subagent.
    pub subagent_type: Option<SubagentType>,
    /// Which model it is to run on.
    pub model: Option<String>,
    /// Who it is.
    pub agent_id: Option<String>,
}

/// Cursor's `subagentType`, in each spelling it has been seen in.
#[derive(Debug, PartialEq, Eq)]
pub enum SubagentType {
    /// `{ "kind": "explore" }` or `{ "kind": "custom", "name": "writer" }`.
    Kinded {
        /// The kind.
        kind: String,
        /// The name, where the kind is custom.
        name: Option<String>,
    },
    /// `{ "explore": {} }`: the variant is the key.
    Keyed(OrderedMap<()>),
}

/// Picks every key.
pub open spec fn any_key() -> spec_fn(Text) -> bool {
    |key: Text| true
}

/// The agent type's name; nothing for the proto default `unspecified`.
pub open spec fn type_label(subagent_type: SubagentType) -> Option<Text> {
    let name = match subagent_type {
        SubagentType::Kinded { kind, name } => match name {
            Some(name) => Some(name@),
            None => Some(kind@),
        },
        SubagentType::Keyed(variants) => least_key(variants.contents().dom(), any_key()),
    };
    match name {
        Some(name) => if name == "unspecified"@ {
            None
        } else {
            Some(name)
        },
        None => None,
    }
}

impl SubagentType {
    /// The variant keys are in order.
    pub open spec fn wf(self) -> bool {
        self matches SubagentType::Keyed(variants) ==> variants.wf()
    }

    /// The agent type's name; `None` for the proto default `unspecified`.
    pub fn name(self) -> (name: Option<String>)
        requires
            self.wf(),
        ensures
            name.deep_view() == type_label(self),
    {
        let name: Option<String> = match self {
            SubagentType::Kinded { kind, name } => match name {
                Some(name) => Some(name),
                None => Some(kind),
            },
            SubagentType::Keyed(variants) => {
                proof {
                    variants.lemma_first_picked(any_key(), 0);
                }
                if variants.len() == 0 {
                    None
                } else {
                    Some(variants.key(0).clone())
                }
            },
        };
        match name {
            Some(name) => {
                if same_text(name.as_str(), "unspecified") {
                    None
                } else {
                    Some(name)
                }
            },
            None => None,
        }
    }
}

/// Cursor's result envelope: `success` with the payload, or `error` (`failure`
/// for the shell tool).
#[derive(Debug, PartialEq, Eq)]
pub struct Envelope<Payload> {
    /// The payload of a success.
    pub success: Option<Payload>,
    /// The payload of a failure.
    pub failure: Option<Payload>,
    /// An error, as JSON text.
    pub error: Option<String>,
}

impl<Payload> Default for Envelope<Payload> {
    /// An envelope with nothing in it.
    fn default() -> (envelope: Self)
        ensures
            envelope.success is None,
            envelope.failure is None,
            envelope.error is None,
    {
        Envelope { success: None, failure: None, error: None }
    }
}

/// What an error says: a JSON string's own text, any other value's JSON.
pub open spec fn error_words(json: Text) -> Text {
    match parsed_json(json) {
        Some(JsonView::Text(text)) => text,
        _ => json,
    }
}

/// What a parsed error says.
pub fn parsed_error_text(parsed: &Option<Json>, json: &String) -> (words: String)
    ensures
        words@ == (match *parsed {
            Some(Json::Text(text)) => text@,
            _ => json@,
        }),
{
    match parsed {
        Some(Json::Text(text)) => text.clone(),
        _ => json.clone(),
    }
}

impl<Payload> Envelope<Payload> {
    /// Whether anything was recorded.
    pub open spec fn reported(self) -> bool {
        self.success is Some || self.failure is Some || self.error is Some
    }

    /// How far the call got. Nothing recorded is not evidence either way.
    pub open spec fn end(self) -> ToolStatus {
        if self.success is Some {
            ToolStatus::Completed
        } else if self.failure is Some || self.error is Some {
            ToolStatus::Failed
        } else {
            ToolStatus::Pending
        }
    }

    /// Whichever payload was written, successful or not.
    pub open spec fn written(self) -> Option<Payload> {
        match self.success {
            Some(payload) => Some(payload),
            None => self.failure,
        }
    }

    /// What the error says.
    pub open spec fn complaint(self) -> Option<Text> {
        match self.error {
            Some(json) => Some(error_words(json@)),
            None => None,
        }
    }

    /// Whether anything was recorded.
    pub fn is_reported(&self) -> (reported: bool)
        ensures
            reported == self.reported(),
    {
        self.success.is_some() || self.failure.is_some() || self.error.is_some()
    }

    /// How far the call got.
    pub fn status(&self) -> (status: ToolStatus)
        ensures
            status == self.end(),
    {
        if self.success.is_some() {
            ToolStatus::Completed
        } else if self.failure.is_some() || self.error.is_some() {
            ToolStatus::Failed
        } else {
            ToolStatus::Pending
        }
    }

    /// Whichever payload was written, successful or not.
    pub fn payload(&self) -> (payload: Option<&Payload>)
        ensures
            payload is Some <==> self.written() is Some,
            payload matches Some(written) ==> self.written() == Some(*written),
    {
        match &self.success {
            Some(payload) => Some(payload),
            None => self.failure.as_ref(),
        }
    }

    /// What the error says.
    pub fn error_text(&self) -> (words: Option<String>)
        ensures
            words.deep_view() == self.complaint(),
    {
        match &self.error {
            Some(json) => Some(parsed_error_text(&parse_json(json.as_str()), json)),
            None => None,
        }
    }
}

/// One step of the child's transcript.
#[derive(Debug, PartialEq, Eq)]
pub enum Step {
    /// The child reasoned.
    ThinkingMessage(String),
    /// The child spoke.
    AssistantMessage(String),
    /// The child used a tool.
    ToolCall(ToolCallStep),
    /// A step nobody knows; kept so one unknown step does not cost the whole
    /// transcript.
    Unrecognized,
}

/// A tool call of the child. A descriptor nobody knows is kept by name alone,
/// so a new tool still shows up as a call rather than vanishing from the
/// transcript.
#[derive(Debug, PartialEq, Eq)]
pub enum ToolCallStep {
    /// A tool this reader knows.
    Known(KnownToolCall),
    /// Any other.
    Unknown(UnknownToolCall),
}

/// A call of a known tool.
#[derive(Debug, PartialEq, Eq)]
pub struct KnownToolCall {
    /// The call's id.
    pub tool_call_id: String,
    /// What was called.
    pub descriptor: Descriptor,
}

/// A call of a tool nobody knows, with the keys of its descriptor.
#[derive(Debug, PartialEq, Eq)]
pub struct UnknownToolCall {
    /// The call's id.
    pub tool_call_id: String,
    /// The descriptor's keys.
    pub rest: OrderedMap<()>,
}

/// Cursor's tool descriptors, each with the tool's own arguments and result.
#[derive(Debug, PartialEq, Eq)]
pub enum Descriptor {
    /// Run a command.
    Shell(ToolBody<ShellArguments, ShellOutcome>),
    /// Read a file.
    Read(ToolBody<PathArguments, PathOutcome>),
    /// Change a file.
    Edit(ToolBody<PathArguments, EditOutcome>),
    /// Delete a file.
    Delete(ToolBody<PathArguments, PathOutcome>),
    /// Search in files.
    Grep(ToolBody<PathArguments, PathOutcome>),
    /// Search for files.
    Glob(ToolBody<PathArguments, PathOutcome>),
    /// Keep a plan.
    UpdateTodos(ToolBody<String, ()>),
    /// Run a subagent.
    Task(ToolBody<String, ()>),
    /// Call a tool server.
    Mcp(ToolBody<String, ()>),
}

/// What the child asked for and what it got.
#[derive(Debug, PartialEq, Eq)]
pub struct ToolBody<Arguments, Outcome> {
    /// What was asked for; JSON text for a tool with no rendering of its own.
    pub args: Option<Arguments>,
    /// What came of it.
    pub result: Envelope<Outcome>,
}

/// The arguments of a command.
#[derive(Debug, PartialEq, Eq)]
pub struct ShellArguments {
    /// The command.
    pub command: Option<String>,
}

/// What a command did.
#[derive(Debug, PartialEq, Eq)]
pub struct ShellOutcome {
    /// Its standard output.
    pub stdout: Option<String>,
    /// Its standard error.
    pub stderr: Option<String>,
    /// Both, as the terminal showed them.
    pub interleaved_output: Option<String>,
    /// How it exited.
    pub exit_code: Option<i32>,
}

/// The arguments of a call on a path.
#[derive(Debug, PartialEq, Eq)]
pub struct PathArguments {
    /// The path.
    pub path: Option<String>,
}

/// The outcome of a call on a path.
#[derive(Debug, PartialEq, Eq)]
pub struct PathOutcome {
    /// The path.
    pub path: Option<String>,
}

/// The outcome of a change.
#[derive(Debug, PartialEq, Eq)]
pub struct EditOutcome {
    /// The file.
    pub path: Option<String>,
    /// What it held; absent exactly when the file is new.
    pub before_full_file_content: Option<String>,
    /// What it holds.
    pub after_full_file_content: Option<String>,
}

/// The first of two that is there.
pub open spec fn either(first: Option<Text>, second: Option<Text>) -> Option<Text> {
    match first {
        Some(text) => Some(text),
        None => second,
    }
}

fn clone_text(text: &Option<String>) -> (copy: Option<String>)
    ensures
        copy.deep_view() == text.deep_view(),
{
    match text {
        Some(text) => Some(text.clone()),
        None => None,
    }
}

impl ShellOutcome {
    /// The output as the terminal showed it, else whichever stream it wrote.
    pub open spec fn shown(self) -> Option<Text> {
        either(
            self.interleaved_output.deep_view(),
            either(self.stdout.deep_view(), self.stderr.deep_view()),
        )
    }

    /// The output as the terminal showed it, else whichever stream it wrote.
    pub fn output(&self) -> (output: Option<String>)
        ensures
            output.deep_view() == self.shown(),
    {
        if let Some(output) = &self.interleaved_output {
            return Some(output.clone());
        }
        if let Some(output) = &self.stdout {
            return Some(output.clone());
        }
        clone_text(&self.stderr)
    }
}

impl EditOutcome {
    /// A finished edit's whole-file diff.
    pub open spec fn diff(self) -> Option<DiffView> {
        match (self.path, self.after_full_file_content) {
            (Some(path), Some(content)) => Some(
                DiffView {
                    path: path@,
                    old_text: self.before_full_file_content.deep_view(),
                    new_text: content@,
                },
            ),
            _ => None,
        }
    }

    /// A finished edit's whole-file diff.
    pub fn into_diff(self) -> (diff: Option<FileDiff>)
        ensures
            diff.deep_view() == self.diff(),
    {
        match (self.path, self.after_full_file_content) {
            (Some(path), Some(new_text)) => Some(
                FileDiff { path, old_text: self.before_full_file_content, new_text },
            ),
            _ => None,
        }
    }
}

/// The path a call touched: from its result once finished, from its arguments
/// before.
pub open spec fn touched(body: ToolBody<PathArguments, PathOutcome>) -> Seq<Text> {
    let finished = match body.result.written() {
        Some(outcome) => outcome.path.deep_view(),
        None => None,
    };
    let asked = match body.args {
        Some(args) => args.path.deep_view(),
        None => None,
    };
    match either(finished, asked) {
        Some(path) => seq![path],
        None => Seq::empty(),
    }
}

impl ToolBody<PathArguments, PathOutcome> {
    /// How far the call got, and the path it touched.
    pub fn status_and_paths(self) -> (found: (ToolStatus, Vec<String>))
        ensures
            found.0 == self.result.end(),
            found.1.deep_view() == touched(self),
    {
        let status: ToolStatus = self.result.status();
        let finished: Option<String> = match self.result.payload() {
            Some(outcome) => clone_text(&outcome.path),
            None => None,
        };
        let path: Option<String> = match finished {
            Some(path) => Some(path),
            None => match self.args {
                Some(args) => args.path,
                None => None,
            },
        };
        let mut paths: Vec<String> = Vec::new();
        assert(paths.deep_view() =~= Seq::<Text>::empty());
        if let Some(path) = path {
            let ghost touched_path = path@;
            paths.push(path);
            assert(paths.deep_view() =~= seq![touched_path]);
        }
        (status, paths)
    }
}

/// A tool with no rendering of its own: its arguments, verbatim.
pub open spec fn other_detail(args: Option<String>) -> DetailView {
    DetailView::Other { kind: "other"@, output: None, input: args.deep_view() }
}

fn into_other(args: Option<String>) -> (detail: ToolDetail)
    ensures
        detail.deep_view() == other_detail(args),
{
    ToolDetail::Other { kind: "other".to_owned(), output: None, input: args }
}

/// What a command did: a success exits with zero, a failure as it says.
pub open spec fn shell_detail(body: ToolBody<ShellArguments, ShellOutcome>) -> DetailView {
    DetailView::Terminal {
        command: match body.args {
            Some(args) => args.command.deep_view(),
            None => None,
        },
        output: match body.result.written() {
            Some(outcome) => outcome.shown(),
            None => None,
        },
        exit_code: match (body.result.success, body.result.failure) {
            (Some(_), _) => Some(0),
            (None, Some(failure)) => failure.exit_code,
            (None, None) => None,
        },
    }
}

/// The change an edit made, once it has succeeded.
pub open spec fn edit_diffs(body: ToolBody<PathArguments, EditOutcome>) -> Seq<DiffView> {
    match body.result.success {
        Some(outcome) => match outcome.diff() {
            Some(diff) => seq![diff],
            None => Seq::empty(),
        },
        None => Seq::empty(),
    }
}

/// The tool's name in Cursor's own vocabulary, how far it got, and what it did.
pub open spec fn described(descriptor: Descriptor) -> (Text, ToolStatus, DetailView) {
    match descriptor {
        Descriptor::Shell(body) => ("shell"@, body.result.end(), shell_detail(body)),
        Descriptor::Read(body) => (
            "read"@,
            body.result.end(),
            DetailView::Read { paths: touched(body) },
        ),
        Descriptor::Delete(body) => (
            "delete"@,
            body.result.end(),
            DetailView::Delete { paths: touched(body) },
        ),
        Descriptor::Grep(body) => (
            "grep"@,
            body.result.end(),
            DetailView::Search { paths: touched(body), output: None },
        ),
        Descriptor::Glob(body) => (
            "glob"@,
            body.result.end(),
            DetailView::Search { paths: touched(body), output: None },
        ),
        Descriptor::Edit(body) => (
            "edit"@,
            body.result.end(),
            DetailView::Edit { diffs: edit_diffs(body) },
        ),
        Descriptor::UpdateTodos(body) => (
            "updateTodos"@,
            body.result.end(),
            DetailView::Think { output: None },
        ),
        Descriptor::Task(body) => ("task"@, body.result.end(), other_detail(body.args)),
        Descriptor::Mcp(body) => ("mcp"@, body.result.end(), other_detail(body.args)),
    }
}

impl Descriptor {
    /// The tool's name in Cursor's own vocabulary, how far it got, and what it
    /// did.
    pub fn into_detail(self) -> (detail: (&'static str, ToolStatus, ToolDetail))
        ensures
            (detail.0@, detail.1, detail.2.deep_view()) == described(self),
    {
        match self {
            Descriptor::Shell(body) => {
                let status: ToolStatus = body.result.status();
                let output: Option<String> = match body.result.payload() {
                    Some(outcome) => outcome.output(),
                    None => None,
                };
                let exit_code: Option<i32> = match (&body.result.success, &body.result.failure) {
                    (Some(_), _) => Some(0),
                    (None, Some(failure)) => failure.exit_code,
                    (None, None) => None,
                };
                let command: Option<String> = match body.args {
                    Some(args) => args.command,
                    None => None,
                };
                ("shell", status, ToolDetail::Terminal { command, output, exit_code })
            },
            Descriptor::Read(body) => {
                let (status, paths) = body.status_and_paths();
                ("read", status, ToolDetail::Read { paths })
            },
            Descriptor::Delete(body) => {
                let (status, paths) = body.status_and_paths();
                ("delete", status, ToolDetail::Delete { paths })
            },
            Descriptor::Grep(body) => {
                let (status, paths) = body.status_and_paths();
                ("grep", status, ToolDetail::Search { paths, output: None })
            },
            Descriptor::Glob(body) => {
                let (status, paths) = body.status_and_paths();
                ("glob", status, ToolDetail::Search { paths, output: None })
            },
            Descriptor::Edit(body) => {
                let status: ToolStatus = body.result.status();
                let mut diffs: Vec<FileDiff> = Vec::new();
                assert(diffs.deep_view() =~= Seq::<DiffView>::empty());
                if let Some(outcome) = body.result.success {
                    if let Some(diff) = outcome.into_diff() {
                        diffs.push(diff);
                        assert(diffs.deep_view() =~= seq![diff.deep_view()]);
                    }
                }
                ("edit", status, ToolDetail::Edit { diffs })
            },
            Descriptor::UpdateTodos(body) => (
                "updateTodos",
                body.result.status(),
                ToolDetail::Think { output: None },
            ),
            Descriptor::Task(body) => ("task", body.result.status(), into_other(body.args)),
            Descriptor::Mcp(body) => ("mcp", body.result.status(), into_other(body.args)),
        }
    }
}

/// A call's id with its embedded line break collapsed.
pub open spec fn call_id(id: Text) -> Text {
    joined(words(id), " "@)
}

/// Picks the key that names a tool.
pub open spec fn names_tool() -> spec_fn(Text) -> bool {
    |key: Text| has_suffix(key, "ToolCall"@)
}

/// The name of a tool nobody knows: its descriptor's key without what every
/// such key ends in.
pub open spec fn unknown_name(rest: OrderedMap<()>) -> Text {
    match least_key(rest.contents().dom(), names_tool()) {
        Some(key) => without_suffixes(key, "ToolCall"@),
        None => Seq::empty(),
    }
}

/// A tool call as a part of the child's work.
pub open spec fn call_part(call: ToolCallStep) -> PartView {
    match call {
        ToolCallStep::Known(call) => {
            let (name, status, detail) = described(call.descriptor);
            PartView::ToolUse { id: call_id(call.tool_call_id@), name, status, detail }
        },
        ToolCallStep::Unknown(call) => PartView::ToolUse {
            id: call_id(call.tool_call_id@),
            name: unknown_name(call.rest),
            status: ToolStatus::Pending,
            detail: other_detail(None),
        },
    }
}

impl KnownToolCall {
    /// The call as a part of the child's work.
    pub fn into_part(self) -> (part: MessagePart)
        ensures
            part.deep_view() == call_part(ToolCallStep::Known(self)),
    {
        let id: String = collapse_whitespace(self.tool_call_id.as_str());
        let (name, status, detail) = self.descriptor.into_detail();
        MessagePart::ToolUse { id, name: name.to_owned(), status, detail }
    }
}

impl UnknownToolCall {
    /// The call as a part of the child's work: an `other` with nothing inside.
    pub fn into_part(self) -> (part: MessagePart)
        requires
            self.rest.wf(),
        ensures
            part.deep_view() == call_part(ToolCallStep::Unknown(self)),
    {
        proof {
            reveal_strlit("ToolCall");
        }
        let mut name: String = String::new();
        let mut i: usize = 0;
        let count: usize = self.rest.len();
        while i < count
            invariant
                i <= count,
                count == self.rest.count(),
                name@ == Seq::<char>::empty(),
                forall|k: int| 0 <= k < i ==> !names_tool()(#[trigger] self.rest.key_at(k)),
            ensures
                i <= count,
                count == self.rest.count(),
                name@ == Seq::<char>::empty(),
                forall|k: int| 0 <= k < i ==> !names_tool()(#[trigger] self.rest.key_at(k)),
                i < count ==> names_tool()(self.rest.key_at(i as int)),
            decreases count - i,
        {
            if ends_with(self.rest.key(i).as_str(), "ToolCall") {
                break;
            }
            i = i + 1;
        }
        proof {
            self.rest.lemma_first_picked(names_tool(), i as int);
        }
        if i < count {
            name = strip_suffixes(self.rest.key(i).as_str(), "ToolCall").to_owned();
        }
        MessagePart::ToolUse {
            id: collapse_whitespace(self.tool_call_id.as_str()),
            name,
            status: ToolStatus::Pending,
            detail: into_other(None),
        }
    }
}

impl ToolCallStep {
    /// The descriptor's keys are in order.
    pub open spec fn wf(self) -> bool {
        self matches ToolCallStep::Unknown(call) ==> call.rest.wf()
    }

    /// The call as a part of the child's work.
    pub fn into_part(self) -> (part: MessagePart)
        requires
            self.wf(),
        ensures
            part.deep_view() == call_part(self),
    {
        match self {
            ToolCallStep::Known(call) => call.into_part(),
            ToolCallStep::Unknown(call) => call.into_part(),
        }
    }
}

/// A step as a part of the child's work; steps that say nothing have none.
pub open spec fn step_part(step: Step) -> Option<PartView> {
    match step {
        Step::ThinkingMessage(text) => if text@.len() == 0 {
            None
        } else {
            Some(PartView::Thought { text: text@ })
        },
        Step::AssistantMessage(text) => if text@.len() == 0 {
            None
        } else {
            Some(PartView::Text { text: text@ })
        },
        Step::ToolCall(call) => Some(call_part(call)),
        Step::Unrecognized => None,
    }
}

impl Step {
    /// Descriptor keys are in order.
    pub open spec fn wf(self) -> bool {
        self matches Step::ToolCall(call) ==> call.wf()
    }

    /// The step as a part of the child's work.
    pub fn into_part(self) -> (part: Option<MessagePart>)
        requires
            self.wf(),
        ensures
            part.deep_view() == step_part(self),
    {
        match self {
            Step::ThinkingMessage(text) => {
                if text.as_str().is_empty() {
                    None
                } else {
                    Some(MessagePart::Thought { text })
                }
            },
            Step::AssistantMessage(text) => {
                if text.as_str().is_empty() {
                    None
                } else {
                    Some(MessagePart::Text { text })
                }
            },
            Step::ToolCall(call) => Some(call.into_part()),
            Step::Unrecognized => None,
        }
    }
}

/// What a finished child reports: who it was, how long it took, and every step
/// it took.
#[derive(Debug, PartialEq, Eq)]
pub struct Transcript {
    /// Who it was.
    pub agent_id: Option<String>,
    /// How long it took.
    pub duration_ms: Option<u32>,
    /// Every step it took.
    pub conversation_steps: Vec<Step>,
}

/// The child's answer: its final step, when that is prose.
pub open spec fn closing_prose(steps: Seq<Step>) -> Option<Text> {
    if steps.len() == 0 {
        None
    } else {
        match steps.last() {
            Step::AssistantMessage(text) => if text@.len() == 0 {
                None
            } else {
                Some(text@)
            },
            _ => None,
        }
    }
}

/// How many of the steps are tool calls.
pub open spec fn tool_calls(steps: Seq<Step>) -> nat
    decreases steps.len(),
{
    if steps.len() == 0 {
        0
    } else {
        tool_calls(steps.drop_last()) + if steps.last() is ToolCall {
            1nat
        } else {
            0
        }
    }
}

/// The parts of the steps that have one, in order.
pub open spec fn parts_of(steps: Seq<Step>) -> Seq<PartView>
    decreases steps.len(),
{
    if steps.len() == 0 {
        Seq::empty()
    } else {
        let before = parts_of(steps.drop_last());
        match step_part(steps.last()) {
            Some(part) => before.push(part),
            None => before,
        }
    }
}

/// What the transcript says of the child.
pub open spec fn transcript_report(transcript: Transcript) -> ResultView {
    ResultView {
        text: closing_prose(transcript.conversation_steps@),
        error: None,
        agent_id: informative_text(transcript.agent_id.deep_view()),
        model: None,
        duration_ms: transcript.duration_ms,
        tool_uses: if tool_calls(transcript.conversation_steps@) <= u32::MAX {
            Some(tool_calls(transcript.conversation_steps@) as u32)
        } else {
            None
        },
    }
}

/// The child's work: every step but the closing prose, which is the answer and
/// reported in the result instead.
pub open spec fn transcript_parts(transcript: Transcript) -> Seq<PartView> {
    let steps = transcript.conversation_steps@;
    parts_of(
        if closing_prose(steps) is Some {
            steps.drop_last()
        } else {
            steps
        },
    )
}

impl Transcript {
    /// Descriptor keys are in order.
    pub open spec fn wf(self) -> bool {
        forall|i: int|
            0 <= i < self.conversation_steps@.len() ==> (
            #[trigger] self.conversation_steps@[i]).wf()
    }

    /// The child's answer: its final step, when that is prose.
    pub fn answer(&self) -> (answer: Option<&String>)
        ensures
            answer.deep_view() == closing_prose(self.conversation_steps@),
    {
        let count: usize = self.conversation_steps.len();
        if count == 0 {
            return None;
        }
        match &self.conversation_steps[count - 1] {
            Step::AssistantMessage(text) => {
                if text.as_str().is_empty() {
                    None
                } else {
                    Some(text)
                }
            },
            _ => None,
        }
    }

    /// What the transcript says of the child.
    pub fn into_subagent_result(self) -> (result: SubagentResult)
        ensures
            result.deep_view() == transcript_report(self),
    {
        let ghost steps = self.conversation_steps@;
        let text: Option<String> = match self.answer() {
            Some(text) => Some(text.clone()),
            None => None,
        };
        let mut count: usize = 0;
        let mut i: usize = 0;
        while i < self.conversation_steps.len()
            invariant
                steps == self.conversation_steps@,
                i <= steps.len(),
                count <= i,
                count == tool_calls(steps.take(i as int)),
            decreases steps.len() - i,
        {
            assert(steps.take(i + 1).drop_last() =~= steps.take(i as int));
            assert(steps.take(i + 1).last() == steps[i as int]);
            if matches!(self.conversation_steps[i], Step::ToolCall(_)) {
                count = count + 1;
            }
            i = i + 1;
        }
        assert(steps.take(i as int) =~= steps);
        let tool_uses: Option<u32> = if count as u64 <= u32::MAX as u64 {
            Some(count as u32)
        } else {
            None
        };
        SubagentResult {
            text,
            error: None,
            agent_id: informative(self.agent_id),
            model: None,
            duration_ms: self.duration_ms,
            tool_uses,
        }
    }

    /// The child's work as parts.
    pub fn into_parts(self) -> (parts: Vec<MessagePart>)
        requires
            self.wf(),
        ensures
            parts.deep_view() == transcript_parts(self),
    {
        let answered: bool = self.answer().is_some();
        let mut steps: Vec<Step> = self.conversation_steps;
        let ghost all = steps@;
        if answered {
            steps.pop();
            assert(steps@ =~= all.drop_last());
        }
        let ghost kept = steps@;
        let mut parts: Vec<MessagePart> = Vec::new();
        assert(parts.deep_view() =~= parts_of(kept.take(0)));
        for step in it: steps
            invariant
                it.seq() == kept,
                parts.deep_view() == parts_of(kept.take(it.index() as int)),
                forall|i: int| 0 <= i < kept.len() ==> (#[trigger] kept[i]).wf(),
        {
            let ghost before = parts.deep_view();
            proof {
                let i = it.index() as int;
                assert(kept.take(i + 1).drop_last() =~= kept.take(i));
                assert(kept.take(i + 1).last() == kept[i]);
            }
            if let Some(part) = step.into_part() {
                parts.push(part);
                assert(parts.deep_view() =~= before.push(part.deep_view()));
            }
        }
        assert(kept.take(kept.len() as int) =~= kept);
        parts
    }
}

/// What an envelope says of the child: its error, or what its transcript says.
pub open spec fn envelope_report(envelope: Envelope<Transcript>) -> ResultView {
    match envelope.complaint() {
        Some(error) => ResultView { error: Some(error), ..ResultView::nothing() },
        None => match envelope.written() {
            Some(transcript) => transcript_report(transcript),
            None => ResultView::nothing(),
        },
    }
}

impl Envelope<Transcript> {
    /// What the envelope says of the child.
    pub fn into_subagent_result(self) -> (result: SubagentResult)
        ensures
            result.deep_view() == envelope_report(self),
    {
        if let Some(error) = self.error_text() {
            return SubagentResult {
                text: None,
                error: Some(error),
                agent_id: None,
                model: None,
                duration_ms: None,
                tool_uses: None,
            };
        }
        if let Some(transcript) = self.success {
            return transcript.into_subagent_result();
        }
        match self.failure {
            Some(transcript) => transcript.into_subagent_result(),
            None => SubagentResult::default(),
        }
    }
}

/// A subagent's report with what the call's own arguments say put first.
pub open spec fn merged_report(report: ResultView, arguments: Option<TaskArguments>) -> ResultView {
    match arguments {
        Some(arguments) => ResultView {
            agent_id: either(
                informative_text(arguments.agent_id.deep_view()),
                report.agent_id,
            ),
            model: either(informative_text(arguments.model.deep_view()), report.model),
            ..report
        },
        None => report,
    }
}

/// What a `task` call reports of its subagent.
pub open spec fn task_report(
    output: Option<Envelope<Transcript>>,
    generic: Option<ResultView>,
    arguments: Option<TaskArguments>,
) -> Option<ResultView> {
    let report = match output {
        Some(envelope) => if envelope.reported() {
            envelope_report(envelope)
        } else {
            match generic {
                Some(report) => report,
                None => ResultView::nothing(),
            }
        },
        None => match generic {
            Some(report) => report,
            None => ResultView::nothing(),
        },
    };
    let merged = merged_report(report, arguments);
    if merged == ResultView::nothing() {
        None
    } else {
        Some(merged)
    }
}

/// Reader for Cursor's conventions.
#[derive(Debug, Clone, Copy, PartialEq, Eq, Structural)]
pub struct Cursor;

impl Cursor {
    /// Whether an agent announces itself as Cursor.
    pub fn announces(&self, name: &str) -> (announced: bool)
        ensures
            announced == exists|at: int| #[trigger] reads_cursor_at(name@, at),
    {
        mentions_cursor(name)
    }

    /// What a subagent was asked: what every harness says, with the agent type
    /// taken from Cursor's own spelling where that says none.
    pub fn subagent_input(&self, generic: SubagentInput, arguments: Option<TaskArguments>) ->
        (input: SubagentInput)
        requires
            arguments matches Some(given) ==> (given.subagent_type matches Some(kind)
                ==> kind.wf()),
        ensures
            input.description == generic.description,
            input.prompt == generic.prompt,
            input.agent_type.deep_view() == either(
                generic.agent_type.deep_view(),
                match arguments {
                    Some(arguments) => match arguments.subagent_type {
                        Some(subagent_type) => type_label(subagent_type),
                        None => None,
                    },
                    None => None,
                },
            ),
    {
        let mut input: SubagentInput = generic;
        if input.agent_type.is_none() {
            input.agent_type =
            match arguments {
                Some(arguments) => match arguments.subagent_type {
                    Some(subagent_type) => subagent_type.name(),
                    None => None,
                },
                None => None,
            };
        }
        input
    }

    /// What a subagent reported, or `None` for a report that says nothing.
    /// `output` is the envelope of the call's result, and `generic` is what
    /// every harness says.
    pub fn subagent_result(
        &self,
        output: Option<Envelope<Transcript>>,
        generic: Option<SubagentResult>,
        arguments: Option<TaskArguments>,
    ) -> (result: Option<SubagentResult>)
        ensures
            result.deep_view() == task_report(output, generic.deep_view(), arguments),
    {
        let reported: Option<Envelope<Transcript>> = match output {
            Some(envelope) => if envelope.is_reported() {
                Some(envelope)
            } else {
                None
            },
            None => None,
        };
        let mut result: SubagentResult = match reported {
            Some(envelope) => envelope.into_subagent_result(),
            None => match generic {
                Some(result) => result,
                None => SubagentResult::default(),
            },
        };
        if let Some(arguments) = arguments {
            if let Some(agent_id) = informative(arguments.agent_id) {
                result.agent_id = Some(agent_id);
            }
            if let Some(model) = informative(arguments.model) {
                result.model = Some(model);
            }
        }
        if result.is_empty() {
            None
        } else {
            Some(result)
        }
    }

    /// What a subagent did, as the parts it would have streamed.
    pub fn subagent_transcript(&self, output: Option<Envelope<Transcript>>) -> (parts: Vec<
        MessagePart,
    >)
        requires
            output matches Some(envelope) ==> (envelope.success matches Some(transcript)
                ==> transcript.wf()),
        ensures
            parts.deep_view() == (match output {
                Some(envelope) => match envelope.success {
                    Some(transcript) => transcript_parts(transcript),
                    None => Seq::empty(),
                },
                None => Seq::empty(),
            }),
    {
        if let Some(envelope) = output {
            if let Some(transcript) = envelope.success {
                return transcript.into_parts();
            }
        }
        let parts: Vec<MessagePart> = Vec::new();
        assert(parts.deep_view() =~= Seq::<PartView>::empty());
        parts
    }
}

/// The pull request a session update announces, when it names one.
pub fn pull_request_url(announced: Option<String>) -> (url: Option<String>)
    ensures
        url.deep_view() == (match announced {
            Some(url) => if url@.len() == 0 {
                None
            } else {
                Some(url@)
            },
            None => None,
        }),
{
    match announced {
        Some(url) => {
            if url.as_str().is_empty() {
                None
            } else {
                Some(url)
            }
        },
        None => None,
    }
}

/// The transcript reads like the child had streamed: the answer is told once,
/// as the answer, and everything before it is told as work.
pub proof fn law_the_answer_is_told_once(transcript: Transcript)
    ensures
        ({
            let steps = transcript.conversation_steps@;
            match closing_prose(steps) {
                Some(answer) => {
                    &&& transcript_report(transcript).text == Some(answer)
                    &&& parts_of(steps) == transcript_parts(transcript).push(
                        PartView::Text { text: answer },
                    )
                },
                None => {
                    &&& transcript_report(transcript).text is None
                    &&& parts_of(steps) == transcript_parts(transcript)
                },
            }
        }),
{
}

} // verus!

//! Native capture records and the machine that replays them.
//!
//! What Cursor sent is journaled as it arrived. The same machine turns the
//! journal into conversation, whether the inputs are arriving now or are read
//! back, so a reloaded session shows what the live one did.

use crate::cursor::event::{event_of, CursorEvent, EventView, InteractionUpdate, InteractionView};
use crate::cursor::model::{
    status_named, CursorRunId, OutcomeView, RunOutcome, RunStatus, StatusView,
};
use crate::json::{parse_json, parsed_json, read_json, try_parse_json, Json, JsonView};
use crate::text::{has_prefix, same_text, strip_prefix, Text};
use vstd::prelude::*;

verus! {

/// A complete SSE message, before JSON decoding. Ids are observations, never
/// local sequence numbers or an assumed remote resume token.
#[derive(Debug, PartialEq, Eq)]
pub struct NativeRecord {
    /// SSE event name.
    pub event: String,
    /// Original data lines joined by the SSE decoder.
    pub data: String,
    /// Provider's SSE last-event id, when supplied.
    pub id: Option<String>,
}

/// One block of a prompt.
#[derive(Debug, PartialEq, Eq)]
pub enum ContentBlock {
    /// Plain text.
    Text(String),
    /// Any other block, as its JSON text.
    Other(String),
}

/// Inputs, not a second transcript. Every synthetic update has an input.
#[derive(Debug, PartialEq, Eq)]
pub enum JournalInput {
    /// History is known from its beginning (fresh session or full hydration).
    HistoryComplete,
    /// Original prompt blocks, associated with the run that accepted them.
    Prompt(Vec<ContentBlock>),
    /// Links a pre-execution prompt sequence to its accepted provider run.
    PromptAccepted(i64),
    /// A pre-execution prompt was cancelled or rejected without a run.
    PromptAborted(i64),
    /// Transport failure, retained without prematurely closing running tools.
    TransportError(String),
    /// Raw complete provider message, including unknown payloads.
    Sse(NativeRecord),
    /// Original successful polling response body.
    Poll(String),
    /// A local terminal decision (such as a stop during a disconnected poll).
    Interrupted(String),
    /// Capture has reconciled this run; distinct from a delivery checkpoint.
    Reconciled,
}

/// One input in explicit session order; run membership uses provider ids.
#[derive(Debug, PartialEq, Eq)]
pub struct JournalEntry {
    /// Monotonically increasing session sequence, starting at one.
    pub sequence: i64,
    /// Provider run; absent only for session-level facts.
    pub run: Option<CursorRunId>,
    /// The captured native input.
    pub input: JournalInput,
}

/// The mathematical model of [`NativeRecord`].
pub struct RecordView {
    pub event: Text,
    pub data: Text,
    pub id: Option<Text>,
}

/// The mathematical model of [`ContentBlock`].
pub enum BlockView {
    Text(Text),
    Other(Text),
}

/// The mathematical model of [`JournalInput`].
pub enum InputView {
    HistoryComplete,
    Prompt(Seq<BlockView>),
    PromptAccepted(i64),
    PromptAborted(i64),
    TransportError(Text),
    Sse(RecordView),
    Poll(Text),
    Interrupted(Text),
    Reconciled,
}

/// The mathematical model of [`JournalEntry`].
pub struct EntryView {
    pub sequence: i64,
    pub run: Option<Text>,
    pub input: InputView,
}

impl DeepView for NativeRecord {
    type V = RecordView;

    open spec fn deep_view(&self) -> RecordView {
        RecordView { event: self.event@, data: self.data@, id: self.id.deep_view() }
    }
}

impl DeepView for ContentBlock {
    type V = BlockView;

    open spec fn deep_view(&self) -> BlockView {
        match self {
            ContentBlock::Text(text) => BlockView::Text(text@),
            ContentBlock::Other(json) => BlockView::Other(json@),
        }
    }
}

impl DeepView for JournalInput {
    type V = InputView;

    open spec fn deep_view(&self) -> InputView {
        match self {
            JournalInput::HistoryComplete => InputView::HistoryComplete,
            JournalInput::Prompt(blocks) => InputView::Prompt(blocks.deep_view()),
            JournalInput::PromptAccepted(sequence) => InputView::PromptAccepted(*sequence),
            JournalInput::PromptAborted(sequence) => InputView::PromptAborted(*sequence),
            JournalInput::TransportError(message) => InputView::TransportError(message@),
            JournalInput::Sse(record) => InputView::Sse(record.deep_view()),
            JournalInput::Poll(raw) => InputView::Poll(raw@),
            JournalInput::Interrupted(reason) => InputView::Interrupted(reason@),
            JournalInput::Reconciled => InputView::Reconciled,
        }
    }
}

impl DeepView for JournalEntry {
    type V = EntryView;

    open spec fn deep_view(&self) -> EntryView {
        EntryView {
            sequence: self.sequence,
            run: self.run.deep_view(),
            input: self.input.deep_view(),
        }
    }
}

impl Clone for NativeRecord {
    fn clone(&self) -> (copy: Self)
        ensures
            copy.deep_view() == self.deep_view(),
    {
        NativeRecord {
            event: self.event.clone(),
            data: self.data.clone(),
            id: match &self.id {
                Some(id) => Some(id.clone()),
                None => None,
            },
        }
    }
}

impl Clone for ContentBlock {
    fn clone(&self) -> (copy: Self)
        ensures
            copy == *self,
    {
        match self {
            ContentBlock::Text(text) => ContentBlock::Text(text.clone()),
            ContentBlock::Other(json) => ContentBlock::Other(json.clone()),
        }
    }
}

/// A copy of a prompt's blocks.
pub fn clone_blocks(blocks: &Vec<ContentBlock>) -> (copy: Vec<ContentBlock>)
    ensures
        copy.deep_view() == blocks.deep_view(),
{
    let copy: Vec<ContentBlock> = blocks.clone();
    assert(copy.deep_view() =~= blocks.deep_view());
    copy
}

impl Clone for JournalInput {
    fn clone(&self) -> (copy: Self)
        ensures
            copy.deep_view() == self.deep_view(),
    {
        match self {
            JournalInput::HistoryComplete => JournalInput::HistoryComplete,
            JournalInput::Prompt(blocks) => JournalInput::Prompt(clone_blocks(blocks)),
            JournalInput::PromptAccepted(sequence) => JournalInput::PromptAccepted(*sequence),
            JournalInput::PromptAborted(sequence) => JournalInput::PromptAborted(*sequence),
            JournalInput::TransportError(message) => JournalInput::TransportError(message.clone()),
            JournalInput::Sse(record) => JournalInput::Sse(record.clone()),
            JournalInput::Poll(raw) => JournalInput::Poll(raw.clone()),
            JournalInput::Interrupted(reason) => JournalInput::Interrupted(reason.clone()),
            JournalInput::Reconciled => JournalInput::Reconciled,
        }
    }
}

/// Whether a record of this SSE event name takes part in reconnect prefix
/// matching.
pub open spec fn is_content_event(event: Text) -> bool {
    event != "status"@ && event != "heartbeat"@ && event != "error"@
}

/// The event a record decodes to. Data that is not JSON decodes as null.
pub open spec fn decoded(record: RecordView) -> EventView {
    event_of(
        record.event,
        match parsed_json(record.data) {
            Some(payload) => payload,
            None => JsonView::Null,
        },
    )
}

impl NativeRecord {
    /// Whether this record participates in reconnect prefix matching. This
    /// examines framing only; native payload decoding happens after append.
    pub fn is_content(&self) -> (content: bool)
        ensures
            content == is_content_event(self.deep_view().event),
    {
        !same_text(self.event.as_str(), "status") && !same_text(self.event.as_str(), "heartbeat")
            && !same_text(self.event.as_str(), "error")
    }

    /// Decode only after this record is durably captured.
    pub fn decode(&self) -> (event: CursorEvent)
        ensures
            event.deep_view() == decoded(self.deep_view()),
    {
        let payload: Json = match parse_json(self.data.as_str()) {
            Some(payload) => payload,
            None => Json::Null,
        };
        CursorEvent::from_wire(self.event.as_str(), &payload)
    }

    /// Whether two records are the same message.
    pub fn same(&self, other: &NativeRecord) -> (same: bool)
        ensures
            same == (self.deep_view() == other.deep_view()),
    {
        let same_id: bool = match (&self.id, &other.id) {
            (Some(left), Some(right)) => *left == *right,
            (None, None) => true,
            _ => false,
        };
        self.event == other.event && self.data == other.data && same_id
    }
}

/// One step of turning native input into conversation. The host renders them
/// in order: it shows a user message, translates an event, or closes what
/// translation left open.
#[derive(Debug, PartialEq, Eq)]
pub enum ReplayStep {
    /// Show one block of the user's prompt.
    UserMessage(ContentBlock),
    /// Translate one event into client updates.
    Translate {
        /// The event.
        event: CursorEvent,
        /// The message it was decoded from, with everything the event leaves
        /// out, such as a tool call's arguments. Absent for an event made up
        /// here: the end of an answer that was not streamed.
        record: Option<NativeRecord>,
    },
    /// Close every tool call still open.
    CloseOpenCalls,
}

/// The mathematical model of [`ReplayStep`].
pub enum StepView {
    UserMessage(BlockView),
    Translate { event: EventView, record: Option<RecordView> },
    CloseOpenCalls,
}

impl DeepView for ReplayStep {
    type V = StepView;

    open spec fn deep_view(&self) -> StepView {
        match self {
            ReplayStep::UserMessage(block) => StepView::UserMessage(block.deep_view()),
            ReplayStep::Translate { event, record } => StepView::Translate {
                event: event.deep_view(),
                record: record.deep_view(),
            },
            ReplayStep::CloseOpenCalls => StepView::CloseOpenCalls,
        }
    }
}

/// Why an input cannot be replayed.
#[derive(Debug, PartialEq, Eq)]
pub enum ReplayError {
    /// A polling body is not JSON, in the reader's words.
    PollNotJson(String),
    /// A polling body names no status.
    PollWithoutStatus,
    /// A result whose status is not a terminal one.
    NonterminalResult(CursorRunId),
    /// A final answer that does not continue the captured text.
    DivergedText(CursorRunId),
    /// An accepted prompt whose original is not in the journal.
    MissingPrompt,
}

/// The mathematical model of [`ReplayError`].
pub enum ReplayErrorView {
    PollNotJson(Text),
    PollWithoutStatus,
    NonterminalResult(Text),
    DivergedText(Text),
    MissingPrompt,
}

impl DeepView for ReplayError {
    type V = ReplayErrorView;

    open spec fn deep_view(&self) -> ReplayErrorView {
        match self {
            ReplayError::PollNotJson(message) => ReplayErrorView::PollNotJson(message@),
            ReplayError::PollWithoutStatus => ReplayErrorView::PollWithoutStatus,
            ReplayError::NonterminalResult(run) => ReplayErrorView::NonterminalResult(
                run.deep_view(),
            ),
            ReplayError::DivergedText(run) => ReplayErrorView::DivergedText(run.deep_view()),
            ReplayError::MissingPrompt => ReplayErrorView::MissingPrompt,
        }
    }
}

/// What a replay error says.
pub open spec fn replay_error_message(error: ReplayErrorView) -> Text {
    match error {
        ReplayErrorView::PollNotJson(message) => message,
        ReplayErrorView::PollWithoutStatus => "Cursor polling body names no status"@,
        ReplayErrorView::NonterminalResult(run) => "nonterminal Cursor result for "@ + run,
        ReplayErrorView::DivergedText(run) => {
            "Cursor final text diverged from the captured stream for "@ + run
        },
        ReplayErrorView::MissingPrompt => "missing original Cursor prompt"@,
    }
}

impl ReplayError {
    /// The error in words.
    pub fn message(&self) -> (message: String)
        ensures
            message@ == replay_error_message(self.deep_view()),
    {
        match self {
            ReplayError::PollNotJson(message) => message.clone(),
            ReplayError::PollWithoutStatus => "Cursor polling body names no status".to_owned(),
            ReplayError::NonterminalResult(run) => {
                let mut message: String = "nonterminal Cursor result for ".to_owned();
                message.append(run.as_str());
                message
            },
            ReplayError::DivergedText(run) => {
                let mut message: String =
                    "Cursor final text diverged from the captured stream for ".to_owned();
                message.append(run.as_str());
                message
            },
            ReplayError::MissingPrompt => "missing original Cursor prompt".to_owned(),
        }
    }
}

/// The fields of a parsed polling body: its status, and its `result` or,
/// where there is no such member, its `text`.
pub open spec fn poll_fields(body: JsonView) -> Option<OutcomeView> {
    let answer = match body.member("result"@) {
        Some(value) => Some(value),
        None => body.member("text"@),
    };
    match body.text_member("status"@) {
        Some(status) => Some(
            OutcomeView {
                status: status_named(status),
                text: match answer {
                    Some(value) => value.text(),
                    None => None,
                },
            },
        ),
        None => None,
    }
}

/// What a polling body says of its run.
pub open spec fn poll_of(raw: Text) -> Result<OutcomeView, ReplayErrorView> {
    match read_json(raw) {
        Err(message) => Err(ReplayErrorView::PollNotJson(message)),
        Ok(body) => match poll_fields(body) {
            Some(outcome) => Ok(outcome),
            None => Err(ReplayErrorView::PollWithoutStatus),
        },
    }
}

/// Read the fields of a parsed polling body.
pub fn read_poll_fields(body: &Json) -> (outcome: Option<RunOutcome>)
    ensures
        outcome.deep_view() == poll_fields(body@),
{
    let answer: Option<&Json> = match body.get("result") {
        Some(value) => Some(value),
        None => body.get("text"),
    };
    let text: Option<String> = match answer {
        Some(value) => match value.as_text() {
            Some(text) => Some(text.clone()),
            None => None,
        },
        None => None,
    };
    match body.text_member("status") {
        Some(status) => Some(RunOutcome { status: RunStatus::from_wire(status.as_str()), text }),
        None => None,
    }
}

/// Read what a polling body says of its run.
pub fn read_poll(raw: &str) -> (outcome: Result<RunOutcome, ReplayError>)
    ensures
        match outcome {
            Ok(read) => poll_of(raw@) == Ok::<OutcomeView, ReplayErrorView>(read.deep_view()),
            Err(error) => poll_of(raw@) == Err::<OutcomeView, ReplayErrorView>(error.deep_view()),
        },
{
    match try_parse_json(raw) {
        Err(message) => Err(ReplayError::PollNotJson(message)),
        Ok(body) => match read_poll_fields(&body) {
            Some(outcome) => Ok(outcome),
            None => Err(ReplayError::PollWithoutStatus),
        },
    }
}

/// What replay knows of one run.
#[derive(Debug)]
struct RunState {
    prompt: bool,
    text: String,
    terminal: Option<RunStatus>,
}

#[derive(Debug)]
struct RunRecord {
    run: CursorRunId,
    state: RunState,
}

/// The mathematical model of what replay knows of one run.
pub struct RunView {
    /// The run's original prompt is known.
    pub prompt: bool,
    /// The answer's last step so far.
    pub text: Text,
    /// How the run ended, once it has.
    pub terminal: Option<StatusView>,
}

impl RunView {
    /// What is known of a run nothing was heard of.
    pub open spec fn unheard() -> RunView {
        RunView { prompt: false, text: Seq::empty(), terminal: None }
    }

    /// Both ends of the run are known.
    pub open spec fn complete(self) -> bool {
        self.prompt && self.terminal is Some
    }
}

/// What replay knows of every run.
pub type Runs = Map<Text, RunView>;

/// Nothing is known of any run.
pub open spec fn no_runs() -> Runs {
    Map::total(|run: Text| RunView::unheard())
}

/// Complete live and replay state.
#[derive(Debug)]
pub struct ReplayMachine {
    runs: Vec<RunRecord>,
}

spec fn state_of(records: Seq<RunRecord>, run: Text) -> RunView
    decreases records.len(),
{
    if records.len() == 0 {
        RunView::unheard()
    } else if records[0].run.deep_view() == run {
        RunView {
            prompt: records[0].state.prompt,
            text: records[0].state.text@,
            terminal: records[0].state.terminal.deep_view(),
        }
    } else {
        state_of(records.skip(1), run)
    }
}

proof fn lemma_state_at(records: Seq<RunRecord>, at: int)
    requires
        0 <= at < records.len(),
        forall|i: int|
            0 <= i < at ==> #[trigger] records[i].run.deep_view() != records[at].run.deep_view(),
    ensures
        state_of(records, records[at].run.deep_view()) == (RunView {
            prompt: records[at].state.prompt,
            text: records[at].state.text@,
            terminal: records[at].state.terminal.deep_view(),
        }),
    decreases at,
{
    if at > 0 {
        assert(records[0].run.deep_view() != records[at].run.deep_view());
        lemma_state_at(records.skip(1), at - 1);
    }
}

proof fn lemma_state_absent(records: Seq<RunRecord>, run: Text)
    requires
        forall|i: int| 0 <= i < records.len() ==> #[trigger] records[i].run.deep_view() != run,
    ensures
        state_of(records, run) == RunView::unheard(),
    decreases records.len(),
{
    if records.len() > 0 {
        lemma_state_absent(records.skip(1), run);
    }
}

proof fn lemma_state_push(records: Seq<RunRecord>, record: RunRecord, run: Text)
    ensures
        (forall|i: int| 0 <= i < records.len() ==> #[trigger] records[i].run.deep_view() != run)
            ==> state_of(records.push(record), run) == state_of(seq![record], run),
        (exists|i: int| 0 <= i < records.len() && #[trigger] records[i].run.deep_view() == run)
            ==> state_of(records.push(record), run) == state_of(records, run),
    decreases records.len(),
{
    if records.len() == 0 {
        assert(records.push(record) =~= seq![record]);
    } else {
        let rest = records.skip(1);
        assert(records.push(record).skip(1) =~= rest.push(record));
        lemma_state_push(rest, record, run);
        if records[0].run.deep_view() != run && exists|i: int|
            0 <= i < records.len() && #[trigger] records[i].run.deep_view() == run {
            let i = choose|i: int|
                0 <= i < records.len() && #[trigger] records[i].run.deep_view() == run;
            assert(rest[i - 1].run.deep_view() == run);
        }
        if forall|i: int| 0 <= i < records.len() ==> #[trigger] records[i].run.deep_view() != run {
            assert forall|i: int| 0 <= i < rest.len() implies #[trigger] rest[i].run.deep_view()
                != run by {
                assert(rest[i] == records[i + 1]);
            }
        }
    }
}

proof fn lemma_state_other(before: Seq<RunRecord>, after: Seq<RunRecord>, at: int, run: Text)
    requires
        0 <= at < before.len(),
        after == before.update(at, after[at]),
        after[at].run == before[at].run,
        run != before[at].run.deep_view(),
    ensures
        state_of(after, run) == state_of(before, run),
    decreases before.len(),
{
    if at > 0 {
        assert(after.skip(1) =~= before.skip(1).update(at - 1, after[at]));
        assert(after.skip(1)[at - 1] == after[at]);
        lemma_state_other(before.skip(1), after.skip(1), at - 1, run);
    } else {
        assert(after.skip(1) =~= before.skip(1));
    }
}

impl DeepView for ReplayMachine {
    type V = Runs;

    closed spec fn deep_view(&self) -> Runs {
        Map::total(|run: Text| state_of(self.runs@, run))
    }
}

/// The prompt's blocks as user messages, in order.
pub open spec fn user_messages(blocks: Seq<BlockView>) -> Seq<StepView> {
    blocks.map_values(|block: BlockView| StepView::UserMessage(block))
}

/// A run's answer, completed by a final text that continues it: only what is
/// missing is translated.
pub open spec fn missing_suffix(known: Text, text: Text) -> Seq<StepView> {
    if known.len() == text.len() {
        Seq::empty()
    } else {
        seq![
            StepView::Translate {
                event: EventView::Assistant { text: text.skip(known.len() as int) },
                record: None,
            },
        ]
    }
}

/// What a terminal result does to its run.
pub open spec fn result_replayed(
    runs: Runs,
    run: Text,
    status: StatusView,
    text: Option<Text>,
) -> (Runs, Result<Seq<StepView>, ReplayErrorView>) {
    let state = runs[run];
    if !status.is_terminal() {
        (runs, Err(ReplayErrorView::NonterminalResult(run)))
    } else {
        match text {
            None => (
                runs.insert(run, RunView { terminal: Some(status), ..state }),
                Ok(seq![StepView::CloseOpenCalls]),
            ),
            Some(text) => if has_prefix(text, state.text) {
                (
                    runs.insert(run, RunView { text, terminal: Some(status), ..state }),
                    Ok(missing_suffix(state.text, text).push(StepView::CloseOpenCalls)),
                )
            } else {
                (runs, Err(ReplayErrorView::DivergedText(run)))
            },
        }
    }
}

/// The translation of a message, the message with it.
pub open spec fn translated(record: RecordView) -> Seq<StepView> {
    seq![StepView::Translate { event: decoded(record), record: Some(record) }]
}

/// What one message does to its run, and the steps it warrants.
pub open spec fn event_replayed(runs: Runs, run: Text, record: RecordView) -> (
    Runs,
    Result<Seq<StepView>, ReplayErrorView>,
) {
    let state = runs[run];
    let event = decoded(record);
    match event {
        EventView::Interaction(InteractionView::Other { kind }) => if kind == "step-started"@ {
            (runs.insert(run, RunView { text: Seq::empty(), ..state }), Ok(Seq::empty()))
        } else {
            (runs, Ok(translated(record)))
        },
        EventView::Interaction(InteractionView::UserMessage { text }) => if state.prompt {
            (runs, Ok(Seq::empty()))
        } else {
            (
                runs.insert(run, RunView { prompt: true, ..state }),
                Ok(seq![StepView::UserMessage(BlockView::Text(text))]),
            )
        },
        EventView::Assistant { text } => (
            runs.insert(run, RunView { text: state.text + text, ..state }),
            Ok(translated(record)),
        ),
        EventView::Result { status, text, .. } => result_replayed(runs, run, status, text),
        _ => (runs, Ok(translated(record))),
    }
}

/// What one journal input does, and the steps it warrants.
pub open spec fn input_replayed(runs: Runs, run: Option<Text>, input: InputView) -> (
    Runs,
    Result<Seq<StepView>, ReplayErrorView>,
) {
    match run {
        // Original requests also belong to history when they were stopped
        // before a remote run existed. Acceptance later only binds state.
        None => match input {
            InputView::Prompt(blocks) => (runs, Ok(user_messages(blocks))),
            _ => (runs, Ok(Seq::empty())),
        },
        Some(run) => match input {
            InputView::Prompt(blocks) => if runs[run].prompt {
                (runs, Ok(Seq::empty()))
            } else {
                (
                    runs.insert(run, RunView { prompt: true, ..runs[run] }),
                    Ok(user_messages(blocks)),
                )
            },
            InputView::Sse(record) => event_replayed(runs, run, record),
            InputView::Poll(raw) => match poll_of(raw) {
                Err(error) => (runs, Err(error)),
                Ok(outcome) => if outcome.status.is_terminal() {
                    result_replayed(runs, run, outcome.status, outcome.text)
                } else {
                    (runs, Ok(Seq::empty()))
                },
            },
            // This closes local work, but does not claim remote capture is
            // complete.
            InputView::Interrupted(_) => (runs, Ok(seq![StepView::CloseOpenCalls])),
            _ => (runs, Ok(Seq::empty())),
        },
    }
}

/// Whether an executable replay answer is the one the model gives.
pub open spec fn replayed_as(
    steps: Result<Vec<ReplayStep>, ReplayError>,
    expected: Result<Seq<StepView>, ReplayErrorView>,
) -> bool {
    match steps {
        Ok(steps) => expected == Ok::<Seq<StepView>, ReplayErrorView>(steps.deep_view()),
        Err(error) => expected == Err::<Seq<StepView>, ReplayErrorView>(error.deep_view()),
    }
}

fn user_message_steps(blocks: &Vec<ContentBlock>) -> (steps: Vec<ReplayStep>)
    ensures
        steps.deep_view() == user_messages(blocks.deep_view()),
{
    let mut steps: Vec<ReplayStep> = Vec::new();
    let mut i: usize = 0;
    while i < blocks.len()
        invariant
            i <= blocks@.len(),
            steps@.len() == i,
            forall|k: int|
                0 <= k < i ==> (#[trigger] steps@[k]).deep_view() == StepView::UserMessage(
                    blocks@[k].deep_view(),
                ),
        decreases blocks@.len() - i,
    {
        steps.push(ReplayStep::UserMessage(blocks[i].clone()));
        i = i + 1;
    }
    assert(steps.deep_view() =~= user_messages(blocks.deep_view()));
    steps
}

fn no_steps() -> (steps: Vec<ReplayStep>)
    ensures
        steps.deep_view() == Seq::<StepView>::empty(),
{
    let steps: Vec<ReplayStep> = Vec::new();
    assert(steps.deep_view() =~= Seq::<StepView>::empty());
    steps
}

fn translation(event: CursorEvent, record: &NativeRecord) -> (steps: Vec<ReplayStep>)
    ensures
        steps.deep_view() == seq![
            StepView::Translate { event: event.deep_view(), record: Some(record.deep_view()) },
        ],
{
    one_step(ReplayStep::Translate { event, record: Some(record.clone()) })
}

fn one_step(step: ReplayStep) -> (steps: Vec<ReplayStep>)
    ensures
        steps.deep_view() == seq![step.deep_view()],
{
    let mut steps: Vec<ReplayStep> = Vec::new();
    steps.push(step);
    assert(steps.deep_view() =~= seq![step.deep_view()]);
    steps
}

impl Default for ReplayMachine {
    /// A machine that has heard of no run.
    fn default() -> (machine: Self)
        ensures
            machine.deep_view() == no_runs(),
    {
        let machine = ReplayMachine { runs: Vec::new() };
        assert forall|run: Text| #[trigger] state_of(machine.runs@, run) == RunView::unheard() by {
            lemma_state_absent(machine.runs@, run);
        }
        assert(machine.deep_view() =~= no_runs());
        machine
    }
}

impl ReplayMachine {
    fn find(&self, run: &CursorRunId) -> (at: Option<usize>)
        ensures
            match at {
                Some(at) => at < self.runs@.len() && self.runs@[at as int].run.deep_view()
                    == run.deep_view() && forall|i: int|
                    0 <= i < at ==> #[trigger] self.runs@[i].run.deep_view() != run.deep_view(),
                None => forall|i: int|
                    0 <= i < self.runs@.len() ==> #[trigger] self.runs@[i].run.deep_view()
                        != run.deep_view(),
            },
    {
        let mut i: usize = 0;
        while i < self.runs.len()
            invariant
                i <= self.runs@.len(),
                forall|k: int|
                    0 <= k < i ==> #[trigger] self.runs@[k].run.deep_view() != run.deep_view(),
            decreases self.runs@.len() - i,
        {
            if self.runs[i].run.same(run) {
                return Some(i);
            }
            i = i + 1;
        }
        None
    }

    /// Whether the run's original prompt is reconstructable.
    pub fn has_prompt(&self, run: &CursorRunId) -> (known: bool)
        ensures
            known == self.deep_view()[run.deep_view()].prompt,
    {
        match self.find(run) {
            Some(at) => {
                proof {
                    lemma_state_at(self.runs@, at as int);
                }
                self.runs[at].state.prompt
            },
            None => {
                proof {
                    lemma_state_absent(self.runs@, run.deep_view());
                }
                false
            },
        }
    }

    /// Whether native history contains a prompt and a terminal fact for a run.
    pub fn complete(&self, run: &CursorRunId) -> (complete: bool)
        ensures
            complete == self.deep_view()[run.deep_view()].complete(),
    {
        match self.find(run) {
            Some(at) => {
                proof {
                    lemma_state_at(self.runs@, at as int);
                }
                self.runs[at].state.prompt && self.runs[at].state.terminal.is_some()
            },
            None => {
                proof {
                    lemma_state_absent(self.runs@, run.deep_view());
                }
                false
            },
        }
    }

    /// Durable provider terminal status, independent of the reconciliation
    /// marker.
    pub fn terminal_status(&self, run: &CursorRunId) -> (status: Option<RunStatus>)
        ensures
            status.deep_view() == self.deep_view()[run.deep_view()].terminal,
    {
        match self.find(run) {
            Some(at) => {
                proof {
                    lemma_state_at(self.runs@, at as int);
                }
                match &self.runs[at].state.terminal {
                    Some(status) => Some(status.clone()),
                    None => None,
                }
            },
            None => {
                proof {
                    lemma_state_absent(self.runs@, run.deep_view());
                }
                None
            },
        }
    }

    /// The place of a run's state, made when there is none yet.
    fn slot(&mut self, run: &CursorRunId) -> (at: usize)
        ensures
            final(self).deep_view() == old(self).deep_view(),
            at < final(self).runs@.len(),
            final(self).runs@[at as int].run.deep_view() == run.deep_view(),
            forall|i: int|
                0 <= i < at ==> #[trigger] final(self).runs@[i].run.deep_view() != run.deep_view(),
    {
        match self.find(run) {
            Some(at) => at,
            None => {
                let at: usize = self.runs.len();
                let ghost before = self.runs@;
                let state = RunState { prompt: false, text: String::new(), terminal: None };
                let record = RunRecord { run: run.clone(), state };
                self.runs.push(record);
                proof {
                    assert(self.runs@ == before.push(record));
                    assert(seq![record].skip(1) =~= Seq::empty());
                    assert forall|other: Text| #[trigger]
                        state_of(self.runs@, other) == state_of(before, other) by {
                        lemma_state_push(before, record, other);
                        if forall|i: int|
                            0 <= i < before.len() ==> #[trigger] before[i].run.deep_view()
                                != other {
                            lemma_state_absent(before, other);
                            lemma_state_absent(seq![record].skip(1), other);
                        }
                    }
                    assert(self.deep_view() =~= old(self).deep_view());
                }
                at
            },
        }
    }

    proof fn lemma_written(before: ReplayMachine, after: ReplayMachine, at: int)
        requires
            0 <= at < before.runs@.len(),
            after.runs@ =~= before.runs@.update(at, after.runs@[at]),
            after.runs@[at].run == before.runs@[at].run,
            forall|i: int|
                0 <= i < at ==> #[trigger] before.runs@[i].run.deep_view()
                    != before.runs@[at].run.deep_view(),
        ensures
            before.deep_view()[before.runs@[at].run.deep_view()] == (RunView {
                prompt: before.runs@[at].state.prompt,
                text: before.runs@[at].state.text@,
                terminal: before.runs@[at].state.terminal.deep_view(),
            }),
            after.deep_view() == before.deep_view().insert(
                before.runs@[at].run.deep_view(),
                RunView {
                    prompt: after.runs@[at].state.prompt,
                    text: after.runs@[at].state.text@,
                    terminal: after.runs@[at].state.terminal.deep_view(),
                },
            ),
    {
        let run = before.runs@[at].run.deep_view();
        lemma_state_at(before.runs@, at);
        assert forall|i: int| 0 <= i < at implies #[trigger] after.runs@[i].run.deep_view()
            != after.runs@[at].run.deep_view() by {
            assert(after.runs@[i] == before.runs@[i]);
        }
        lemma_state_at(after.runs@, at);
        assert forall|other: Text| other != run implies #[trigger] state_of(after.runs@, other)
            == state_of(before.runs@, other) by {
            lemma_state_other(before.runs@, after.runs@, at, other);
        }
        assert(after.deep_view() =~= before.deep_view().insert(
            run,
            RunView {
                prompt: after.runs@[at].state.prompt,
                text: after.runs@[at].state.text@,
                terminal: after.runs@[at].state.terminal.deep_view(),
            },
        ));
    }

    /// Record a terminal result and what it adds to the answer.
    fn result(&mut self, run: &CursorRunId, status: &RunStatus, text: Option<String>) -> (steps:
        Result<Vec<ReplayStep>, ReplayError>)
        ensures
            final(self).deep_view() == result_replayed(
                old(self).deep_view(),
                run.deep_view(),
                status.deep_view(),
                text.deep_view(),
            ).0,
            replayed_as(
                steps,
                result_replayed(
                    old(self).deep_view(),
                    run.deep_view(),
                    status.deep_view(),
                    text.deep_view(),
                ).1,
            ),
    {
        let at: usize = self.slot(run);
        let ghost before = *self;
        proof {
            Self::lemma_written(before, before, at as int);
        }
        if !status.is_terminal() {
            return Err(ReplayError::NonterminalResult(run.clone()));
        }
        let mut steps: Vec<ReplayStep> = no_steps();
        if let Some(text) = text {
            // Polling can overlap an interrupted stream. Only append the
            // missing suffix; divergent answers cannot safely be guessed.
            match strip_prefix(text.as_str(), self.runs[at].state.text.as_str()) {
                Some(suffix) => {
                    if !suffix.is_empty() {
                        steps = one_step(
                            ReplayStep::Translate {
                                event: CursorEvent::Assistant { text: suffix.to_owned() },
                                record: None,
                            },
                        );
                    }
                },
                None => {
                    return Err(ReplayError::DivergedText(run.clone()));
                },
            }
            self.runs[at].state.text = text;
        }
        self.runs[at].state.terminal = Some(status.clone());
        let ghost shown = steps.deep_view();
        steps.push(ReplayStep::CloseOpenCalls);
        proof {
            assert(steps.deep_view() =~= shown.push(StepView::CloseOpenCalls));
            assert(shown.len() == 0 ==> steps.deep_view() =~= seq![StepView::CloseOpenCalls]);
            Self::lemma_written(before, *self, at as int);
        }
        Ok(steps)
    }

    fn event(&mut self, run: &CursorRunId, record: &NativeRecord) -> (steps: Result<
        Vec<ReplayStep>,
        ReplayError,
    >)
        ensures
            final(self).deep_view() == event_replayed(
                old(self).deep_view(),
                run.deep_view(),
                record.deep_view(),
            ).0,
            replayed_as(
                steps,
                event_replayed(old(self).deep_view(), run.deep_view(), record.deep_view()).1,
            ),
    {
        let event: CursorEvent = record.decode();
        let at: usize = self.slot(run);
        let ghost before = *self;
        proof {
            Self::lemma_written(before, before, at as int);
        }
        match event {
            CursorEvent::Interaction(InteractionUpdate::Other { kind }) => {
                if same_text(kind.as_str(), "step-started") {
                    // Cursor's final result contains the final step, not
                    // earlier commentary emitted before tool execution in the
                    // same run.
                    self.runs[at].state.text = String::new();
                    proof {
                        Self::lemma_written(before, *self, at as int);
                    }
                    Ok(no_steps())
                } else {
                    let event = CursorEvent::Interaction(InteractionUpdate::Other { kind });
                    Ok(translation(event, record))
                }
            },
            CursorEvent::Interaction(InteractionUpdate::UserMessage { text }) => {
                if self.runs[at].state.prompt {
                    return Ok(no_steps());
                }
                self.runs[at].state.prompt = true;
                proof {
                    Self::lemma_written(before, *self, at as int);
                }
                Ok(one_step(ReplayStep::UserMessage(ContentBlock::Text(text))))
            },
            CursorEvent::Assistant { text } => {
                self.runs[at].state.text.append(text.as_str());
                proof {
                    Self::lemma_written(before, *self, at as int);
                }
                Ok(translation(CursorEvent::Assistant { text }, record))
            },
            CursorEvent::Result { status, text, .. } => self.result(run, &status, text),
            event => Ok(translation(event, record)),
        }
    }

    /// Process one journal input, identically during capture and replay.
    pub fn push(&mut self, run: Option<&CursorRunId>, input: &JournalInput) -> (steps: Result<
        Vec<ReplayStep>,
        ReplayError,
    >)
        ensures
            final(self).deep_view() == input_replayed(
                old(self).deep_view(),
                run.deep_view(),
                input.deep_view(),
            ).0,
            replayed_as(
                steps,
                input_replayed(old(self).deep_view(), run.deep_view(), input.deep_view()).1,
            ),
    {
        let run: &CursorRunId = match run {
            Some(run) => run,
            None => {
                return Ok(
                    match input {
                        JournalInput::Prompt(blocks) => user_message_steps(blocks),
                        _ => no_steps(),
                    },
                );
            },
        };
        match input {
            JournalInput::Prompt(blocks) => {
                let at: usize = self.slot(run);
                let ghost before = *self;
                proof {
                    Self::lemma_written(before, before, at as int);
                }
                if self.runs[at].state.prompt {
                    return Ok(no_steps());
                }
                self.runs[at].state.prompt = true;
                proof {
                    Self::lemma_written(before, *self, at as int);
                }
                Ok(user_message_steps(blocks))
            },
            JournalInput::Sse(record) => self.event(run, record),
            JournalInput::Poll(raw) => match read_poll(raw.as_str()) {
                Err(error) => Err(error),
                Ok(outcome) => {
                    if !outcome.is_terminal() {
                        return Ok(no_steps());
                    }
                    self.result(run, &outcome.status, outcome.text)
                },
            },
            JournalInput::Interrupted(_) => Ok(one_step(ReplayStep::CloseOpenCalls)),
            _ => Ok(no_steps()),
        }
    }
}

} // verus!

//! Bringing one run's events into the journal.
//!
//! One ordered path serves live, foreign and hydration ingestion. A reconnect
//! reads the stream from its beginning and verifies the content captured
//! before; a stream that fails, ends early or hangs degrades to polling. A
//! turn may lose its liveness; it must not lose its answer.
//!
//! [`Ingest`] decides; the host opens the stream, waits, polls and captures,
//! and reports back one [`IngestEvent`] for each [`IngestAction`].

use crate::cursor::event::{CursorEvent, EventView};
use crate::cursor::journal::{
    decoded, is_content_event, EntryView, InputView, JournalEntry, JournalInput, NativeRecord,
    RecordView, Runs,
};
use crate::cursor::model::{
    same_run, status_label, CursorRunId, OutcomeView, RunOutcome, RunStatus, StatusView, StopReason,
};
use crate::cursor::session::{cursor_error, ErrorView, SessionError, SessionState, StateView};
use crate::text::{same_text, Text};
use vstd::prelude::*;

verus! {

/// Polls before a run is abandoned. At [`POLL_INTERVAL_MILLIS`] that is
/// fifteen minutes.
pub const POLL_ATTEMPTS: usize = 450;

/// How often the fallback poll asks after a run's outcome.
pub const POLL_INTERVAL_MILLIS: u64 = 2000;

/// A stream this quiet gets its run's record checked.
pub const STREAM_QUIET_MILLIS: u64 = 10000;

/// How long an unavailable stream is left alone before it is opened again.
pub const STREAM_RETRY_MILLIS: u64 = 400;

/// How often an unavailable stream is opened again.
pub const STREAM_RETRIES: usize = 4;

/// How a run is ingested.
#[derive(Debug, Clone, Copy, PartialEq, Eq, Structural)]
pub struct IngestMode {
    /// Whether the client hears of what is captured.
    pub emit: bool,
    /// Whether only a complete native history will do.
    pub strict: bool,
    /// How often the stream has been opened again.
    pub attempt: usize,
}

impl IngestMode {
    /// The client is waiting for this run.
    pub open spec fn live_mode() -> IngestMode {
        IngestMode { emit: true, strict: false, attempt: 0 }
    }

    /// The run was driven elsewhere and is caught up silently.
    pub open spec fn mirror_mode() -> IngestMode {
        IngestMode { emit: false, strict: false, attempt: 0 }
    }

    /// The run's complete history is read back.
    pub open spec fn hydrate_mode() -> IngestMode {
        IngestMode { emit: false, strict: true, attempt: 0 }
    }

    /// The client is waiting for this run.
    pub fn live() -> (mode: IngestMode)
        ensures
            mode == Self::live_mode(),
    {
        IngestMode { emit: true, strict: false, attempt: 0 }
    }

    /// The run was driven elsewhere and is caught up silently.
    pub fn mirror() -> (mode: IngestMode)
        ensures
            mode == Self::mirror_mode(),
    {
        IngestMode { emit: false, strict: false, attempt: 0 }
    }

    /// The run's complete history is read back.
    pub fn hydrate() -> (mode: IngestMode)
        ensures
            mode == Self::hydrate_mode(),
    {
        IngestMode { emit: false, strict: true, attempt: 0 }
    }
}

/// What ingestion is waiting for.
#[derive(Debug, PartialEq, Eq)]
pub enum IngestPhase {
    /// The marker of a run whose end was already journaled.
    Stamping {
        /// How the run ended.
        status: RunStatus,
    },
    /// The stream to open.
    Opening,
    /// The next record of the stream.
    Reading,
    /// The journal to take a transport failure.
    NotingFailure,
    /// The journal to take a record.
    Recording {
        /// The record.
        record: NativeRecord,
    },
    /// The pause before an unavailable stream is opened again.
    Retrying,
    /// The answer to a poll made because the stream is quiet.
    Checking,
    /// The answer to a poll made because the stream is gone.
    Polling {
        /// Polls made before this one.
        attempt: usize,
    },
    /// The pause between two polls.
    Pausing {
        /// Polls made before the one just answered.
        attempt: usize,
    },
    /// The journal to take a stop that landed between two polls.
    Interrupting,
    /// The journal to take the run's reconciliation.
    Reconciling {
        /// How the run ended.
        status: RunStatus,
    },
    /// Nothing: ingestion is over.
    Finished,
}

/// The ingestion of one run.
#[derive(Debug, PartialEq, Eq)]
pub struct Ingest {
    /// The run.
    pub run: CursorRunId,
    /// How it is ingested.
    pub mode: IngestMode,
    /// What is awaited.
    pub phase: IngestPhase,
    /// The content journaled before the stream was opened.
    pub captured: Vec<NativeRecord>,
    /// How much of it the stream has repeated.
    pub matched: usize,
    /// How the run ended, once the provider has said.
    pub terminal: Option<RunStatus>,
    /// Whether this stream has brought new content.
    pub saw_content: bool,
}

/// What the host is to do next.
#[derive(Debug, PartialEq, Eq)]
pub enum IngestAction {
    /// Open the run's stream from its beginning.
    OpenStream,
    /// Wait for the stream's next record, [`STREAM_QUIET_MILLIS`] at most.
    Read,
    /// Capture an input of the run.
    Capture {
        /// The input.
        input: JournalInput,
        /// Whether the client hears of it.
        emit: bool,
    },
    /// Poll the run's outcome once.
    Poll,
    /// Wait, unless the client cancels first.
    Sleep {
        /// How long.
        millis: u64,
    },
    /// Ingestion is over.
    Finish(Result<StopReason, SessionError>),
}

/// What came of an action.
#[derive(Debug, PartialEq, Eq)]
pub enum IngestEvent {
    /// The stream was opened, or could not be.
    Opened(Result<(), String>),
    /// The stream's next record.
    Record(NativeRecord),
    /// The stream failed.
    StreamFailed(String),
    /// The stream ended.
    StreamEnded,
    /// The stream has been quiet too long.
    Quiet,
    /// The capture succeeded or failed.
    Captured(Result<(), SessionError>),
    /// The poll's outcome.
    Polled(Result<RunOutcome, SessionError>),
    /// The wait is over.
    Slept {
        /// The client cancelled during it.
        cancelled: bool,
    },
}

/// The mathematical model of [`IngestPhase`].
pub enum IngestPhaseView {
    Stamping { status: StatusView },
    Opening,
    Reading,
    NotingFailure,
    Recording { record: RecordView },
    Retrying,
    Checking,
    Polling { attempt: usize },
    Pausing { attempt: usize },
    Interrupting,
    Reconciling { status: StatusView },
    Finished,
}

/// The mathematical model of [`Ingest`].
#[verifier::ext_equal]
pub struct IngestView {
    pub run: Text,
    pub mode: IngestMode,
    pub phase: IngestPhaseView,
    pub captured: Seq<RecordView>,
    pub matched: nat,
    pub terminal: Option<StatusView>,
    pub saw_content: bool,
}

/// The mathematical model of [`IngestAction`].
pub enum IngestActionView {
    OpenStream,
    Read,
    Capture { input: InputView, emit: bool },
    Poll,
    Sleep { millis: u64 },
    Finish(Result<StopReason, ErrorView>),
}

/// The mathematical model of [`IngestEvent`].
pub enum IngestEventView {
    Opened(Result<(), Text>),
    Record(RecordView),
    StreamFailed(Text),
    StreamEnded,
    Quiet,
    Captured(Result<(), ErrorView>),
    Polled(Result<OutcomeView, ErrorView>),
    Slept { cancelled: bool },
}

impl DeepView for IngestPhase {
    type V = IngestPhaseView;

    open spec fn deep_view(&self) -> IngestPhaseView {
        match self {
            IngestPhase::Stamping { status } => IngestPhaseView::Stamping {
                status: status.deep_view(),
            },
            IngestPhase::Opening => IngestPhaseView::Opening,
            IngestPhase::Reading => IngestPhaseView::Reading,
            IngestPhase::NotingFailure => IngestPhaseView::NotingFailure,
            IngestPhase::Recording { record } => IngestPhaseView::Recording {
                record: record.deep_view(),
            },
            IngestPhase::Retrying => IngestPhaseView::Retrying,
            IngestPhase::Checking => IngestPhaseView::Checking,
            IngestPhase::Polling { attempt } => IngestPhaseView::Polling { attempt: *attempt },
            IngestPhase::Pausing { attempt } => IngestPhaseView::Pausing { attempt: *attempt },
            IngestPhase::Interrupting => IngestPhaseView::Interrupting,
            IngestPhase::Reconciling { status } => IngestPhaseView::Reconciling {
                status: status.deep_view(),
            },
            IngestPhase::Finished => IngestPhaseView::Finished,
        }
    }
}

impl DeepView for Ingest {
    type V = IngestView;

    open spec fn deep_view(&self) -> IngestView {
        IngestView {
            run: self.run.deep_view(),
            mode: self.mode,
            phase: self.phase.deep_view(),
            captured: self.captured.deep_view(),
            matched: self.matched as nat,
            terminal: self.terminal.deep_view(),
            saw_content: self.saw_content,
        }
    }
}

/// The model of a fallible outcome whose success carries nothing to model.
pub open spec fn fallible<T>(outcome: Result<T, SessionError>) -> Result<T, ErrorView> {
    match outcome {
        Ok(value) => Ok(value),
        Err(error) => Err(error.deep_view()),
    }
}

impl DeepView for IngestAction {
    type V = IngestActionView;

    open spec fn deep_view(&self) -> IngestActionView {
        match self {
            IngestAction::OpenStream => IngestActionView::OpenStream,
            IngestAction::Read => IngestActionView::Read,
            IngestAction::Capture { input, emit } => IngestActionView::Capture {
                input: input.deep_view(),
                emit: *emit,
            },
            IngestAction::Poll => IngestActionView::Poll,
            IngestAction::Sleep { millis } => IngestActionView::Sleep { millis: *millis },
            IngestAction::Finish(outcome) => IngestActionView::Finish(fallible(*outcome)),
        }
    }
}

impl DeepView for IngestEvent {
    type V = IngestEventView;

    open spec fn deep_view(&self) -> IngestEventView {
        match self {
            IngestEvent::Opened(outcome) => IngestEventView::Opened(
                match outcome {
                    Ok(_) => Ok(()),
                    Err(message) => Err(message@),
                },
            ),
            IngestEvent::Record(record) => IngestEventView::Record(record.deep_view()),
            IngestEvent::StreamFailed(message) => IngestEventView::StreamFailed(message@),
            IngestEvent::StreamEnded => IngestEventView::StreamEnded,
            IngestEvent::Quiet => IngestEventView::Quiet,
            IngestEvent::Captured(outcome) => IngestEventView::Captured(fallible(*outcome)),
            IngestEvent::Polled(outcome) => IngestEventView::Polled(
                match outcome {
                    Ok(outcome) => Ok(outcome.deep_view()),
                    Err(error) => Err(error.deep_view()),
                },
            ),
            IngestEvent::Slept { cancelled } => IngestEventView::Slept { cancelled: *cancelled },
        }
    }
}

/// The content records journaled for a run, in order.
pub open spec fn captured_content(entries: Seq<EntryView>, run: Text) -> Seq<RecordView>
    decreases entries.len(),
{
    if entries.len() == 0 {
        Seq::empty()
    } else {
        let before = captured_content(entries.drop_last(), run);
        let last = entries.last();
        match last.input {
            InputView::Sse(record) => if last.run == Some(run) && is_content_event(record.event) {
                before.push(record)
            } else {
                before
            },
            _ => before,
        }
    }
}

/// Ingestion ends with an outcome.
pub open spec fn finished(ingest: IngestView, outcome: Result<StopReason, ErrorView>) -> (
    IngestView,
    IngestActionView,
) {
    (
        IngestView { phase: IngestPhaseView::Finished, ..ingest },
        IngestActionView::Finish(outcome),
    )
}

/// The complaint that a run ended in a state that is no answer.
pub open spec fn ended_in(run: Text, status: StatusView) -> ErrorView {
    cursor_error("cursor run "@ + run + " ended in "@ + status_label(status))
}

/// How a run's last state answers the prompt. Hydration only wants the
/// history, so any end will do.
pub open spec fn stop_for(ingest: IngestView, status: StatusView) -> Result<
    StopReason,
    ErrorView,
> {
    if status is Cancelled && !ingest.mode.strict {
        Ok(StopReason::Cancelled)
    } else if status is Finished || ingest.mode.strict {
        Ok(StopReason::EndTurn)
    } else {
        Err(ended_in(ingest.run, status))
    }
}

/// How a run whose end was already journaled answers the prompt.
pub open spec fn stamped_stop(ingest: IngestView, status: StatusView) -> Result<
    StopReason,
    ErrorView,
> {
    if status is Cancelled {
        Ok(StopReason::Cancelled)
    } else {
        stop_for(ingest, status)
    }
}

/// How ingestion begins.
pub open spec fn ingest_started(state: StateView, run: Text, mode: IngestMode) -> (
    IngestView,
    IngestActionView,
) {
    let ingest = IngestView {
        run,
        mode,
        phase: IngestPhaseView::Opening,
        captured: captured_content(state.entries, run),
        matched: 0,
        terminal: None,
        saw_content: false,
    };
    match state.runs[run].terminal {
        // The run's text and tool cleanup were reconstructed already;
        // reconnecting the stream would append that suffix twice.
        Some(status) => if mode.strict && !state.runs[run].prompt {
            finished(
                ingest,
                Err(cursor_error("original Cursor prompt unavailable for "@ + run)),
            )
        } else {
            (
                IngestView { phase: IngestPhaseView::Stamping { status }, ..ingest },
                IngestActionView::Capture { input: InputView::Reconciled, emit: false },
            )
        },
        None => (ingest, IngestActionView::OpenStream),
    }
}

/// The provider has said how the run ended.
pub open spec fn settled(ingest: IngestView, runs: Runs, status: StatusView) -> (
    IngestView,
    IngestActionView,
) {
    if ingest.mode.strict && !runs[ingest.run].complete() {
        finished(
            ingest,
            Err(cursor_error("Cursor cannot hydrate the original prompt for run "@ + ingest.run)),
        )
    } else {
        (
            IngestView { phase: IngestPhaseView::Reconciling { status }, ..ingest },
            IngestActionView::Capture { input: InputView::Reconciled, emit: ingest.mode.emit },
        )
    }
}

/// The stream has nothing more to give.
pub open spec fn stream_over(ingest: IngestView, runs: Runs) -> (IngestView, IngestActionView) {
    if ingest.matched < ingest.captured.len() && ingest.mode.strict {
        finished(
            ingest,
            Err(
                cursor_error(
                    "Cursor no longer exposes the captured stream prefix for "@ + ingest.run,
                ),
            ),
        )
    } else {
        match ingest.terminal {
            Some(status) => settled(ingest, runs, status),
            None => if ingest.mode.strict {
                finished(
                    ingest,
                    Err(
                        cursor_error(
                            "Cursor cannot fully hydrate run "@ + ingest.run
                                + ": complete native stream unavailable"@,
                        ),
                    ),
                )
            } else {
                (
                    IngestView { phase: IngestPhaseView::Polling { attempt: 0 }, ..ingest },
                    IngestActionView::Poll,
                )
            },
        }
    }
}

/// The stream goes on.
pub open spec fn reading(ingest: IngestView) -> (IngestView, IngestActionView) {
    (IngestView { phase: IngestPhaseView::Reading, ..ingest }, IngestActionView::Read)
}

/// A capture of the run is asked for.
pub open spec fn capturing(ingest: IngestView, phase: IngestPhaseView, input: InputView) -> (
    IngestView,
    IngestActionView,
) {
    (
        IngestView { phase, ..ingest },
        IngestActionView::Capture { input, emit: ingest.mode.emit },
    )
}

/// The stream brought a record.
pub open spec fn record_read(ingest: IngestView, record: RecordView) -> (
    IngestView,
    IngestActionView,
) {
    if is_content_event(record.event) && ingest.matched < ingest.captured.len() {
        if ingest.captured[ingest.matched as int] != record {
            finished(
                ingest,
                Err(
                    cursor_error(
                        "Cursor stream prefix cannot be reconciled for "@ + ingest.run
                            + "; refusing incomplete history"@,
                    ),
                ),
            )
        } else {
            let terminal = match decoded(record) {
                EventView::Result { status, .. } => Some(status),
                _ => ingest.terminal,
            };
            reading(IngestView { matched: ingest.matched + 1, terminal, ..ingest })
        }
    } else {
        capturing(ingest, IngestPhaseView::Recording { record }, InputView::Sse(record))
    }
}

/// Whether an event is the stream endpoint refusing to serve yet.
pub open spec fn is_unavailable(event: EventView) -> bool {
    match event {
        EventView::Error { code, .. } => code == Some("stream_unavailable"@),
        _ => false,
    }
}

/// A record was captured.
pub open spec fn record_captured(ingest: IngestView, runs: Runs, record: RecordView) -> (
    IngestView,
    IngestActionView,
) {
    let seen = IngestView {
        saw_content: ingest.saw_content || is_content_event(record.event),
        ..ingest
    };
    let event = decoded(record);
    if is_unavailable(event) && !seen.saw_content && seen.mode.attempt < STREAM_RETRIES {
        (
            IngestView { phase: IngestPhaseView::Retrying, ..seen },
            IngestActionView::Sleep { millis: STREAM_RETRY_MILLIS },
        )
    } else {
        match event {
            EventView::Result { status, .. } => reading(
                IngestView { terminal: Some(status), ..seen },
            ),
            EventView::Error { .. } => stream_over(seen, runs),
            EventView::Done => stream_over(seen, runs),
            _ => reading(seen),
        }
    }
}

/// A poll made because the stream is quiet was answered.
pub open spec fn quiet_polled(
    ingest: IngestView,
    runs: Runs,
    cancelled: bool,
    outcome: OutcomeView,
) -> (IngestView, IngestActionView) {
    if outcome.status.is_terminal() {
        stream_over(IngestView { terminal: Some(outcome.status), ..ingest }, runs)
    } else if cancelled {
        stream_over(ingest, runs)
    } else {
        reading(ingest)
    }
}

/// The pause after a poll is over.
pub open spec fn poll_again(ingest: IngestView, cancelled: bool, attempt: usize) -> (
    IngestView,
    IngestActionView,
) {
    if attempt >= POLL_ATTEMPTS - 1 {
        finished(
            ingest,
            Err(
                cursor_error(
                    "Cursor run "@ + ingest.run + " did not reach a terminal state"@,
                ),
            ),
        )
    } else if cancelled {
        capturing(
            ingest,
            IngestPhaseView::Interrupting,
            InputView::Interrupted("cancelled while disconnected"@),
        )
    } else {
        (
            IngestView {
                phase: IngestPhaseView::Polling { attempt: (attempt + 1) as usize },
                ..ingest
            },
            IngestActionView::Poll,
        )
    }
}

/// Only a stream that may still be opened again is waited for.
pub open spec fn ingest_wf(ingest: IngestView) -> bool {
    ingest.phase is Retrying ==> ingest.mode.attempt < STREAM_RETRIES
}

/// Whether an event answers what ingestion is waiting for.
pub open spec fn ingest_expects(phase: IngestPhaseView, event: IngestEventView) -> bool {
    match phase {
        IngestPhaseView::Opening => event is Opened,
        IngestPhaseView::Reading => event is Record || event is StreamFailed
            || event is StreamEnded || event is Quiet,
        IngestPhaseView::Retrying | IngestPhaseView::Pausing { .. } => event is Slept,
        IngestPhaseView::Checking | IngestPhaseView::Polling { .. } => event is Polled,
        IngestPhaseView::Finished => false,
        _ => event is Captured,
    }
}

/// What ingestion does with an event. `cancelled` says whether the client has
/// stopped the turn by now.
pub open spec fn ingest_stepped(
    ingest: IngestView,
    state: StateView,
    cancelled: bool,
    event: IngestEventView,
) -> (IngestView, IngestActionView) {
    match (ingest.phase, event) {
        (IngestPhaseView::Opening, IngestEventView::Opened(Ok(_))) => reading(ingest),
        (IngestPhaseView::Opening, IngestEventView::Opened(Err(message))) => capturing(
            ingest,
            IngestPhaseView::NotingFailure,
            InputView::TransportError(message),
        ),
        (IngestPhaseView::Reading, IngestEventView::Record(record)) => record_read(ingest, record),
        (IngestPhaseView::Reading, IngestEventView::StreamFailed(message)) => capturing(
            ingest,
            IngestPhaseView::NotingFailure,
            InputView::TransportError(message),
        ),
        (IngestPhaseView::Reading, IngestEventView::Quiet) => if ingest.mode.strict {
            stream_over(ingest, state.runs)
        } else {
            (
                IngestView { phase: IngestPhaseView::Checking, ..ingest },
                IngestActionView::Poll,
            )
        },
        (IngestPhaseView::Reading, _) => stream_over(ingest, state.runs),
        (_, IngestEventView::Captured(Err(error))) => finished(ingest, Err(error)),
        (IngestPhaseView::Stamping { status }, _) => finished(
            ingest,
            stamped_stop(ingest, status),
        ),
        (IngestPhaseView::NotingFailure, _) => stream_over(ingest, state.runs),
        (IngestPhaseView::Recording { record }, _) => record_captured(ingest, state.runs, record),
        (IngestPhaseView::Interrupting, _) => finished(ingest, Ok(StopReason::Cancelled)),
        (IngestPhaseView::Reconciling { status }, _) => finished(ingest, stop_for(ingest, status)),
        (IngestPhaseView::Retrying, IngestEventView::Slept { cancelled: false }) => ingest_started(
            state,
            ingest.run,
            IngestMode { attempt: (ingest.mode.attempt + 1) as usize, ..ingest.mode },
        ),
        (IngestPhaseView::Retrying, _) => stream_over(ingest, state.runs),
        (_, IngestEventView::Polled(Err(error))) => finished(ingest, Err(error)),
        (IngestPhaseView::Checking, IngestEventView::Polled(Ok(outcome))) => quiet_polled(
            ingest,
            state.runs,
            cancelled,
            outcome,
        ),
        (IngestPhaseView::Polling { attempt }, IngestEventView::Polled(Ok(outcome))) => if
            outcome.status.is_terminal() {
            settled(
                IngestView { terminal: Some(outcome.status), ..ingest },
                state.runs,
                outcome.status,
            )
        } else {
            (
                IngestView { phase: IngestPhaseView::Pausing { attempt }, ..ingest },
                IngestActionView::Sleep { millis: POLL_INTERVAL_MILLIS },
            )
        },
        (IngestPhaseView::Pausing { attempt }, _) => poll_again(ingest, cancelled, attempt),
        _ => (ingest, IngestActionView::Poll),
    }
}

/// A sentence about a run.
pub fn about_run(before: &str, run: &CursorRunId, after: &str) -> (message: String)
    ensures
        message@ == before@ + run.deep_view() + after@,
{
    let mut message: String = before.to_owned();
    message.append(run.as_str());
    message.append(after);
    message
}

fn complaint(before: &str, run: &CursorRunId) -> (error: SessionError)
    ensures
        error.deep_view() == cursor_error(before@ + run.deep_view()),
{
    let mut message: String = before.to_owned();
    message.append(run.as_str());
    SessionError::cursor(message)
}

/// The content records journaled for a run, in order.
pub fn content_records(entries: &Vec<JournalEntry>, run: &CursorRunId) -> (records: Vec<
    NativeRecord,
>)
    ensures
        records.deep_view() == captured_content(entries.deep_view(), run.deep_view()),
{
    let ghost all = entries.deep_view();
    let mut records: Vec<NativeRecord> = Vec::new();
    assert(records.deep_view() =~= Seq::<RecordView>::empty());
    let mut i: usize = 0;
    while i < entries.len()
        invariant
            i <= entries@.len(),
            all == entries.deep_view(),
            records.deep_view() == captured_content(all.take(i as int), run.deep_view()),
        decreases entries@.len() - i,
    {
        proof {
            let next = all.take(i + 1);
            assert(next.drop_last() =~= all.take(i as int));
            assert(next.last() == entries@[i as int].deep_view());
        }
        if let JournalInput::Sse(record) = &entries[i].input {
            if same_run(entries[i].run.as_ref(), Some(run)) && record.is_content() {
                let ghost before = records.deep_view();
                records.push(record.clone());
                assert(records.deep_view() =~= before.push(record.deep_view()));
            }
        }
        i = i + 1;
    }
    assert(all.take(entries@.len() as int) =~= all);
    records
}

impl Ingest {
    /// Begin ingesting a run.
    pub fn start(state: &SessionState, run: &CursorRunId, mode: IngestMode) -> (begun: (
        Ingest,
        IngestAction,
    ))
        ensures
            ingest_wf(begun.0.deep_view()),
            (begun.0.deep_view(), begun.1.deep_view()) == ingest_started(
                state.deep_view(),
                run.deep_view(),
                mode,
            ),
    {
        let ingest = Ingest {
            run: run.clone(),
            mode,
            phase: IngestPhase::Opening,
            captured: content_records(&state.journal_entries, run),
            matched: 0,
            terminal: None,
            saw_content: false,
        };
        match state.machine.terminal_status(run) {
            Some(status) => {
                if mode.strict && !state.machine.has_prompt(run) {
                    let error = complaint("original Cursor prompt unavailable for ", run);
                    return ingest.finish(Err(error));
                }
                (
                    Ingest { phase: IngestPhase::Stamping { status }, ..ingest },
                    IngestAction::Capture { input: JournalInput::Reconciled, emit: false },
                )
            },
            None => (ingest, IngestAction::OpenStream),
        }
    }

    fn finish(self, outcome: Result<StopReason, SessionError>) -> (next: (Ingest, IngestAction))
        ensures
            (next.0.deep_view(), next.1.deep_view()) == finished(
                self.deep_view(),
                fallible(outcome),
            ),
    {
        (Ingest { phase: IngestPhase::Finished, ..self }, IngestAction::Finish(outcome))
    }

    fn read_on(self) -> (next: (Ingest, IngestAction))
        ensures
            (next.0.deep_view(), next.1.deep_view()) == reading(self.deep_view()),
    {
        (Ingest { phase: IngestPhase::Reading, ..self }, IngestAction::Read)
    }

    fn capture(self, phase: IngestPhase, input: JournalInput) -> (next: (Ingest, IngestAction))
        ensures
            (next.0.deep_view(), next.1.deep_view()) == capturing(
                self.deep_view(),
                phase.deep_view(),
                input.deep_view(),
            ),
    {
        let emit: bool = self.mode.emit;
        (Ingest { phase, ..self }, IngestAction::Capture { input, emit })
    }

    fn stop(&self, status: &RunStatus) -> (outcome: Result<StopReason, SessionError>)
        ensures
            fallible(outcome) == stop_for(self.deep_view(), status.deep_view()),
    {
        if self.mode.strict {
            return Ok(StopReason::EndTurn);
        }
        match status {
            RunStatus::Finished => Ok(StopReason::EndTurn),
            RunStatus::Cancelled => Ok(StopReason::Cancelled),
            other => {
                let mut message: String = about_run("cursor run ", &self.run, " ended in ");
                message.append(other.label().as_str());
                Err(SessionError::cursor(message))
            },
        }
    }

    fn settle(self, state: &SessionState, status: RunStatus) -> (next: (Ingest, IngestAction))
        ensures
            (next.0.deep_view(), next.1.deep_view()) == settled(
                self.deep_view(),
                state.deep_view().runs,
                status.deep_view(),
            ),
    {
        if self.mode.strict && !state.machine.complete(&self.run) {
            let error = complaint(
                "Cursor cannot hydrate the original prompt for run ",
                &self.run,
            );
            return self.finish(Err(error));
        }
        self.capture(IngestPhase::Reconciling { status }, JournalInput::Reconciled)
    }

    fn end_stream(self, state: &SessionState) -> (next: (Ingest, IngestAction))
        ensures
            (next.0.deep_view(), next.1.deep_view()) == stream_over(
                self.deep_view(),
                state.deep_view().runs,
            ),
    {
        if self.matched < self.captured.len() && self.mode.strict {
            let error = complaint(
                "Cursor no longer exposes the captured stream prefix for ",
                &self.run,
            );
            return self.finish(Err(error));
        }
        match &self.terminal {
            Some(status) => {
                let status: RunStatus = status.clone();
                self.settle(state, status)
            },
            None => {
                if self.mode.strict {
                    let message: String = about_run(
                        "Cursor cannot fully hydrate run ",
                        &self.run,
                        ": complete native stream unavailable",
                    );
                    return self.finish(Err(SessionError::cursor(message)));
                }
                (
                    Ingest { phase: IngestPhase::Polling { attempt: 0 }, ..self },
                    IngestAction::Poll,
                )
            },
        }
    }

    fn take_record(self, record: NativeRecord) -> (next: (Ingest, IngestAction))
        ensures
            (next.0.deep_view(), next.1.deep_view()) == record_read(
                self.deep_view(),
                record.deep_view(),
            ),
    {
        if record.is_content() && self.matched < self.captured.len() {
            assert(self.deep_view().captured[self.matched as int]
                == self.captured@[self.matched as int].deep_view());
            if !self.captured[self.matched].same(&record) {
                let message: String = about_run(
                    "Cursor stream prefix cannot be reconciled for ",
                    &self.run,
                    "; refusing incomplete history",
                );
                return self.finish(Err(SessionError::cursor(message)));
            }
            let matched: usize = self.matched + 1;
            match record.decode() {
                CursorEvent::Result { status, .. } => {
                    Ingest { matched, terminal: Some(status), ..self }.read_on()
                },
                _ => Ingest { matched, ..self }.read_on(),
            }
        } else {
            let input = JournalInput::Sse(record.clone());
            self.capture(IngestPhase::Recording { record }, input)
        }
    }

    fn keep_record(self, state: &SessionState, record: &NativeRecord) -> (next: (
        Ingest,
        IngestAction,
    ))
        ensures
            (next.0.deep_view(), next.1.deep_view()) == record_captured(
                self.deep_view(),
                state.deep_view().runs,
                record.deep_view(),
            ),
    {
        let saw_content: bool = self.saw_content || record.is_content();
        let seen = Ingest { saw_content, ..self };
        match record.decode() {
            CursorEvent::Error { code, .. } => {
                let unavailable: bool = match &code {
                    Some(code) => same_text(code.as_str(), "stream_unavailable"),
                    None => false,
                };
                if unavailable && !seen.saw_content && seen.mode.attempt < STREAM_RETRIES {
                    return (
                        Ingest { phase: IngestPhase::Retrying, ..seen },
                        IngestAction::Sleep { millis: STREAM_RETRY_MILLIS },
                    );
                }
                seen.end_stream(state)
            },
            CursorEvent::Result { status, .. } => {
                Ingest { terminal: Some(status), ..seen }.read_on()
            },
            CursorEvent::Done => seen.end_stream(state),
            _ => seen.read_on(),
        }
    }

    fn poll_on(self, cancelled: bool, attempt: usize) -> (next: (Ingest, IngestAction))
        ensures
            (next.0.deep_view(), next.1.deep_view()) == poll_again(
                self.deep_view(),
                cancelled,
                attempt,
            ),
    {
        if attempt >= POLL_ATTEMPTS - 1 {
            let message: String = about_run(
                "Cursor run ",
                &self.run,
                " did not reach a terminal state",
            );
            return self.finish(Err(SessionError::cursor(message)));
        }
        if cancelled {
            let input = JournalInput::Interrupted("cancelled while disconnected".to_owned());
            return self.capture(IngestPhase::Interrupting, input);
        }
        (
            Ingest { phase: IngestPhase::Polling { attempt: attempt + 1 }, ..self },
            IngestAction::Poll,
        )
    }

    fn captured(self, state: &SessionState) -> (next: (Ingest, IngestAction))
        requires
            ingest_expects(self.phase.deep_view(), IngestEventView::Captured(Ok(()))),
        ensures
            (next.0.deep_view(), next.1.deep_view()) == ingest_stepped(
                self.deep_view(),
                state.deep_view(),
                false,
                IngestEventView::Captured(Ok(())),
            ),
    {
        match &self.phase {
            IngestPhase::Stamping { status } => {
                let outcome: Result<StopReason, SessionError> = match status {
                    RunStatus::Cancelled => Ok(StopReason::Cancelled),
                    _ => self.stop(status),
                };
                self.finish(outcome)
            },
            IngestPhase::NotingFailure => self.end_stream(state),
            IngestPhase::Recording { record } => {
                let record: NativeRecord = record.clone();
                self.keep_record(state, &record)
            },
            IngestPhase::Reconciling { status } => {
                let outcome: Result<StopReason, SessionError> = self.stop(status);
                self.finish(outcome)
            },
            _ => self.finish(Ok(StopReason::Cancelled)),
        }
    }

    fn polled(self, state: &SessionState, cancelled: bool, outcome: RunOutcome) -> (next: (
        Ingest,
        IngestAction,
    ))
        requires
            self.phase is Checking || self.phase is Polling,
        ensures
            (next.0.deep_view(), next.1.deep_view()) == ingest_stepped(
                self.deep_view(),
                state.deep_view(),
                cancelled,
                IngestEventView::Polled(Ok(outcome.deep_view())),
            ),
    {
        match self.phase {
            IngestPhase::Polling { attempt } => {
                if outcome.is_terminal() {
                    let status: RunStatus = outcome.status.clone();
                    let ended = Ingest { terminal: Some(outcome.status), ..self };
                    return ended.settle(state, status);
                }
                (
                    Ingest { phase: IngestPhase::Pausing { attempt }, ..self },
                    IngestAction::Sleep { millis: POLL_INTERVAL_MILLIS },
                )
            },
            _ => {
                if outcome.is_terminal() {
                    Ingest { terminal: Some(outcome.status), ..self }.end_stream(state)
                } else if cancelled {
                    self.end_stream(state)
                } else {
                    self.read_on()
                }
            },
        }
    }

    /// Whether an event answers what ingestion is waiting for.
    pub fn expects(&self, event: &IngestEvent) -> (expected: bool)
        ensures
            expected == ingest_expects(self.phase.deep_view(), event.deep_view()),
    {
        match &self.phase {
            IngestPhase::Opening => matches!(event, IngestEvent::Opened(_)),
            IngestPhase::Reading => matches!(
                event,
                IngestEvent::Record(_)
                    | IngestEvent::StreamFailed(_)
                    | IngestEvent::StreamEnded
                    | IngestEvent::Quiet
            ),
            IngestPhase::Retrying => matches!(event, IngestEvent::Slept { .. }),
            IngestPhase::Pausing { .. } => matches!(event, IngestEvent::Slept { .. }),
            IngestPhase::Checking => matches!(event, IngestEvent::Polled(_)),
            IngestPhase::Polling { .. } => matches!(event, IngestEvent::Polled(_)),
            IngestPhase::Finished => false,
            _ => matches!(event, IngestEvent::Captured(_)),
        }
    }

    /// Take in what came of the last action. `cancelled` says whether the
    /// client has stopped the turn by now.
    pub fn step(self, state: &SessionState, cancelled: bool, event: IngestEvent) -> (next: (
        Ingest,
        IngestAction,
    ))
        requires
            ingest_wf(self.deep_view()),
            ingest_expects(self.phase.deep_view(), event.deep_view()),
        ensures
            ingest_wf(next.0.deep_view()),
            (next.0.deep_view(), next.1.deep_view()) == ingest_stepped(
                self.deep_view(),
                state.deep_view(),
                cancelled,
                event.deep_view(),
            ),
    {
        match event {
            IngestEvent::Opened(Ok(_)) => self.read_on(),
            IngestEvent::Opened(Err(message)) => self.capture(
                IngestPhase::NotingFailure,
                JournalInput::TransportError(message),
            ),
            IngestEvent::Record(record) => self.take_record(record),
            IngestEvent::StreamFailed(message) => self.capture(
                IngestPhase::NotingFailure,
                JournalInput::TransportError(message),
            ),
            IngestEvent::StreamEnded => self.end_stream(state),
            IngestEvent::Quiet => {
                if self.mode.strict {
                    self.end_stream(state)
                } else {
                    (Ingest { phase: IngestPhase::Checking, ..self }, IngestAction::Poll)
                }
            },
            IngestEvent::Captured(Err(error)) => self.finish(Err(error)),
            IngestEvent::Captured(Ok(_)) => self.captured(state),
            IngestEvent::Slept { cancelled: stopped } => match self.phase {
                IngestPhase::Pausing { attempt } => self.poll_on(cancelled, attempt),
                _ => {
                    if stopped {
                        self.end_stream(state)
                    } else {
                        let attempt: usize = self.mode.attempt + 1;
                        Ingest::start(state, &self.run, IngestMode { attempt, ..self.mode })
                    }
                },
            },
            IngestEvent::Polled(Err(error)) => self.finish(Err(error)),
            IngestEvent::Polled(Ok(outcome)) => self.polled(state, cancelled, outcome),
        }
    }
}

} // verus!

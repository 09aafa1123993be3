//! One session's state, and the capture of native input into it.
//!
//! Capture is the only route from provider input to the client: an input is
//! first appended to the durable journal, then replayed, then delivered. Once
//! any of the three fails, nothing more is captured until the session is
//! loaded again.

use crate::cursor::journal::{
    no_runs, EntryView, InputView, JournalEntry, JournalInput, ReplayMachine,
    ReplayStep, Runs, StepView, replay_error_message,
};
use crate::cursor::model::{
    outcome_of, same_run, turn_outcome, CursorAgentId, CursorRunId, RunStatus, SessionId,
    TurnOutcome, TurnOutcomeView,
};
use crate::cursor::models::{ChoiceView, McpServer, ModelChoice, ServerView};
use crate::cursor::projection::{entry_projected, project_entry};
use crate::text::Text;
use vstd::prelude::*;

verus! {

/// Why a session operation failed.
#[derive(Debug, PartialEq, Eq)]
pub enum SessionError {
    /// No session of this id.
    UnknownSession(SessionId),
    /// A prompt while another prompt's run is streaming.
    TurnAlreadyActive(SessionId),
    /// Cursor, or what reaches it, failed.
    Cursor(CursorFailure),
    /// Native capture failed.
    Journal(String),
}

/// A failure of Cursor or of what reaches it.
#[derive(Debug, PartialEq, Eq)]
pub struct CursorFailure {
    /// The failure in words.
    pub message: String,
    /// The prompt is known not to have been executed.
    pub rejected: bool,
}

/// The mathematical model of [`SessionError`].
pub enum ErrorView {
    UnknownSession(Text),
    TurnAlreadyActive(Text),
    Cursor { message: Text, rejected: bool },
    Journal(Text),
}

impl DeepView for SessionError {
    type V = ErrorView;

    open spec fn deep_view(&self) -> ErrorView {
        match self {
            SessionError::UnknownSession(session) => ErrorView::UnknownSession(
                session.deep_view(),
            ),
            SessionError::TurnAlreadyActive(session) => ErrorView::TurnAlreadyActive(
                session.deep_view(),
            ),
            SessionError::Cursor(failure) => ErrorView::Cursor {
                message: failure.message@,
                rejected: failure.rejected,
            },
            SessionError::Journal(message) => ErrorView::Journal(message@),
        }
    }
}

/// The model of a failure that leaves open whether the prompt was executed.
pub open spec fn cursor_error(message: Text) -> ErrorView {
    ErrorView::Cursor { message, rejected: false }
}

impl SessionError {
    /// A failure that leaves open whether the prompt was executed.
    pub fn cursor(message: String) -> (error: SessionError)
        ensures
            error.deep_view() == cursor_error(message@),
    {
        SessionError::Cursor(CursorFailure { message, rejected: false })
    }
}

/// One session's mutable state.
#[derive(Debug)]
pub struct SessionState {
    /// The Cursor agent, once the first prompt has minted it.
    pub agent: Option<CursorAgentId>,
    /// The run currently streaming, so cancel knows what to cancel.
    pub active_run: Option<CursorRunId>,
    /// The last run this session itself drove to an end: runs newer than this
    /// were driven from cursor.com. `None` means no watermark — a fresh or
    /// restored session, whose history is already rendered or unknowable.
    pub last_run: Option<CursorRunId>,
    /// Whether the client has opened or loaded this session on the current
    /// connection.
    pub ready_for_sync: bool,
    /// Pauses background capture while the host loads, without refusing
    /// prompts it already dispatched.
    pub reload_pending: bool,
    /// Set by cancel; read by the turn when its stream ends, and by every wait
    /// a turn can be parked in. Cleared when the next turn begins, so a cancel
    /// never carries into it.
    pub cancelled: bool,
    /// The model this session's next run will use. `None` leaves the choice to
    /// Cursor.
    pub model: Option<ModelChoice>,
    /// Tool servers the client named, applied when the first prompt creates
    /// the agent.
    pub mcp_servers: Vec<McpServer>,
    /// What replay knows of the session's runs.
    pub machine: ReplayMachine,
    /// The journal as far as this process has read and written it.
    pub journal_entries: Vec<JournalEntry>,
    /// Whether the journal has been read.
    pub journal_loaded: bool,
    /// Whether this process opened the session.
    pub fresh: bool,
    /// Whether capture failed and the session must be loaded again.
    pub capture_failed: bool,
}

/// The mathematical model of [`SessionState`].
#[verifier::ext_equal]
pub struct StateView {
    pub agent: Option<Text>,
    pub active_run: Option<Text>,
    pub last_run: Option<Text>,
    pub ready_for_sync: bool,
    pub reload_pending: bool,
    pub cancelled: bool,
    pub model: Option<ChoiceView>,
    pub mcp_servers: Seq<ServerView>,
    pub runs: Runs,
    pub entries: Seq<EntryView>,
    pub journal_loaded: bool,
    pub fresh: bool,
    pub capture_failed: bool,
}

impl DeepView for SessionState {
    type V = StateView;

    open spec fn deep_view(&self) -> StateView {
        StateView {
            agent: self.agent.deep_view(),
            active_run: self.active_run.deep_view(),
            last_run: self.last_run.deep_view(),
            ready_for_sync: self.ready_for_sync,
            reload_pending: self.reload_pending,
            cancelled: self.cancelled,
            model: self.model.deep_view(),
            mcp_servers: self.mcp_servers.deep_view(),
            runs: self.machine.deep_view(),
            entries: self.journal_entries.deep_view(),
            journal_loaded: self.journal_loaded,
            fresh: self.fresh,
            capture_failed: self.capture_failed,
        }
    }
}

/// The state of a session nothing has happened to.
pub open spec fn blank_state() -> StateView {
    StateView {
        agent: None,
        active_run: None,
        last_run: None,
        ready_for_sync: false,
        reload_pending: false,
        cancelled: false,
        model: None,
        mcp_servers: Seq::empty(),
        runs: no_runs(),
        entries: Seq::empty(),
        journal_loaded: false,
        fresh: false,
        capture_failed: false,
    }
}

impl Default for SessionState {
    /// The state of a session nothing has happened to.
    fn default() -> (state: Self)
        ensures
            state.deep_view() == blank_state(),
    {
        let state = SessionState {
            agent: None,
            active_run: None,
            last_run: None,
            ready_for_sync: false,
            reload_pending: false,
            cancelled: false,
            model: None,
            mcp_servers: Vec::new(),
            machine: ReplayMachine::default(),
            journal_entries: Vec::new(),
            journal_loaded: false,
            fresh: false,
            capture_failed: false,
        };
        assert(state.deep_view() =~= blank_state());
        state
    }
}

/// The state after capture failed: nothing more is captured or synced until
/// the session is loaded again.
pub open spec fn after_capture_failure(state: StateView) -> StateView {
    StateView { capture_failed: true, ready_for_sync: false, ..state }
}

/// The highest journaled sequence number, zero for an empty journal.
pub open spec fn high_water(entries: Seq<EntryView>) -> i64 {
    if entries.len() == 0 {
        0
    } else {
        entries.last().sequence
    }
}

/// Whether a polling body repeats the journal's last entry.
pub open spec fn repeats_last_poll(
    entries: Seq<EntryView>,
    run: Option<Text>,
    input: InputView,
) -> bool {
    input is Poll && entries.len() > 0 && entries.last().run == run && entries.last().input == input
}

/// How a capture begins.
#[derive(Debug, PartialEq, Eq)]
pub enum CaptureStart {
    /// Nothing may be captured before the session is loaded again.
    Refused(SessionError),
    /// The journal already holds this; there is nothing to do.
    Duplicate,
    /// Append the input after this sequence number.
    Append {
        /// The journal's high-water mark.
        expected: i64,
    },
}

/// The mathematical model of [`CaptureStart`].
pub enum CaptureStartView {
    Refused(ErrorView),
    Duplicate,
    Append { expected: i64 },
}

impl DeepView for CaptureStart {
    type V = CaptureStartView;

    open spec fn deep_view(&self) -> CaptureStartView {
        match self {
            CaptureStart::Refused(error) => CaptureStartView::Refused(error.deep_view()),
            CaptureStart::Duplicate => CaptureStartView::Duplicate,
            CaptureStart::Append { expected } => CaptureStartView::Append { expected: *expected },
        }
    }
}

/// How the capture of an input begins.
pub open spec fn capture_start(state: StateView, run: Option<Text>, input: InputView) ->
    CaptureStartView {
    if state.capture_failed {
        CaptureStartView::Refused(
            ErrorView::Journal("reload required after native journal failure"@),
        )
    } else if repeats_last_poll(state.entries, run, input) {
        CaptureStartView::Duplicate
    } else {
        CaptureStartView::Append { expected: high_water(state.entries) }
    }
}

/// A replay step, and whether what it renders goes to the client.
#[derive(Debug, PartialEq, Eq)]
pub struct ShownStep {
    /// The step.
    pub step: ReplayStep,
    /// Whether the client is told.
    pub deliver: bool,
}

/// The mathematical model of [`ShownStep`].
pub struct ShownView {
    pub step: StepView,
    pub deliver: bool,
}

impl DeepView for ShownStep {
    type V = ShownView;

    open spec fn deep_view(&self) -> ShownView {
        ShownView { step: self.step.deep_view(), deliver: self.deliver }
    }
}

/// What a captured input warrants.
#[derive(Debug, PartialEq, Eq)]
pub struct Captured {
    /// What to render, in order.
    pub steps: Vec<ShownStep>,
    /// The turn to report as ended, after everything was rendered.
    pub completion: Option<TurnOutcome>,
}

/// The mathematical model of [`Captured`].
pub struct CapturedView {
    pub steps: Seq<ShownView>,
    pub completion: Option<TurnOutcomeView>,
}

impl DeepView for Captured {
    type V = CapturedView;

    open spec fn deep_view(&self) -> CapturedView {
        CapturedView { steps: self.steps.deep_view(), completion: self.completion.deep_view() }
    }
}

/// Whether an entry records that a run accepted its prompt.
pub open spec fn accepts_for(entry: EntryView, run: Text) -> bool {
    entry.run == Some(run) && entry.input is PromptAccepted
}

/// Whether an input belongs to the prompt this session is itself streaming.
/// The client sent that prompt, so its blocks are not echoed back.
pub open spec fn is_local_prompt(
    active_run: Option<Text>,
    entries: Seq<EntryView>,
    run: Option<Text>,
) -> bool {
    run is Some && active_run == run && exists|i: int|
        0 <= i < entries.len() && accepts_for(#[trigger] entries[i], run->0)
}

/// The turn a captured input ended. Local prompts finish through their own
/// response; a recovered tail has no pending response, so its end is
/// published.
pub open spec fn completion_of(
    active_run: Option<Text>,
    before: Runs,
    after: Runs,
    run: Option<Text>,
) -> Option<TurnOutcomeView> {
    match run {
        Some(id) => if before[id].terminal is None && run != active_run {
            match after[id].terminal {
                Some(status) => Some(outcome_of(status)),
                None => None,
            }
        } else {
            None
        },
        None => None,
    }
}

/// The steps with their delivery: nothing is delivered unless asked for, and a
/// local prompt's own blocks never are.
pub open spec fn shown(steps: Seq<StepView>, emit: bool, local: bool) -> Seq<ShownView> {
    steps.map_values(
        |step: StepView|
            ShownView { step, deliver: emit && !(local && step is UserMessage) },
    )
}

/// What an appended entry does to the session, and what it warrants.
pub open spec fn captured(state: StateView, run: Option<Text>, entry: EntryView, emit: bool) -> (
    StateView,
    Result<CapturedView, ErrorView>,
) {
    let entries = state.entries.push(entry);
    let projected = entry_projected(state.runs, entry, entries);
    let replayed = StateView { entries, runs: projected.0, ..state };
    match projected.1 {
        Err(error) => (
            after_capture_failure(replayed),
            Err(ErrorView::Journal(replay_error_message(error))),
        ),
        Ok(steps) => (
            replayed,
            Ok(
                CapturedView {
                    steps: shown(steps, emit, is_local_prompt(state.active_run, entries, run)),
                    completion: if emit {
                        completion_of(state.active_run, state.runs, projected.0, run)
                    } else {
                        None
                    },
                },
            ),
        ),
    }
}

fn run_terminal(machine: &ReplayMachine, run: Option<&CursorRunId>) -> (status: Option<RunStatus>)
    ensures
        status.deep_view() == (match run.deep_view() {
            Some(run) => machine.deep_view()[run].terminal,
            None => None,
        }),
{
    match run {
        Some(run) => machine.terminal_status(run),
        None => None,
    }
}

fn show(steps: Vec<ReplayStep>, emit: bool, local: bool) -> (shown_steps: Vec<ShownStep>)
    ensures
        shown_steps.deep_view() == shown(steps.deep_view(), emit, local),
{
    let mut result: Vec<ShownStep> = Vec::new();
    for step in it: steps
        invariant
            it.seq() == steps@,
            result@.len() == it.index(),
            forall|k: int|
                0 <= k < it.index() ==> (#[trigger] result@[k]).deep_view() == (ShownView {
                    step: steps@[k].deep_view(),
                    deliver: emit && !(local && steps@[k].deep_view() is UserMessage),
                }),
    {
        let deliver: bool = emit && !(local && matches!(step, ReplayStep::UserMessage(_)));
        result.push(ShownStep { step, deliver });
    }
    assert(result.deep_view() =~= shown(steps.deep_view(), emit, local));
    result
}

impl SessionState {
    /// How the capture of an input begins.
    pub fn begin_capture(&self, run: Option<&CursorRunId>, input: &JournalInput) -> (start:
        CaptureStart)
        ensures
            start.deep_view() == capture_start(
                self.deep_view(),
                run.deep_view(),
                input.deep_view(),
            ),
    {
        if self.capture_failed {
            return CaptureStart::Refused(
                SessionError::Journal("reload required after native journal failure".to_owned()),
            );
        }
        let count: usize = self.journal_entries.len();
        if count == 0 {
            return CaptureStart::Append { expected: 0 };
        }
        let last: &JournalEntry = &self.journal_entries[count - 1];
        assert(self.journal_entries.deep_view().last() == last.deep_view());
        if let JournalInput::Poll(raw) = input {
            if let JournalInput::Poll(previous) = &last.input {
                if *previous == *raw && same_run(last.run.as_ref(), run) {
                    return CaptureStart::Duplicate;
                }
            }
        }
        CaptureStart::Append { expected: last.sequence }
    }

    /// Stop capturing until the session is loaded again: the journal did not
    /// take an input, or the client did not take what it shows. The error is
    /// the journal's, in the words of what failed.
    pub fn fail_capture(&mut self, message: String) -> (error: SessionError)
        ensures
            final(self).deep_view() == after_capture_failure(old(self).deep_view()),
            error.deep_view() == ErrorView::Journal(message@),
    {
        self.capture_failed = true;
        self.ready_for_sync = false;
        SessionError::Journal(message)
    }

    fn is_local(&self, run: Option<&CursorRunId>) -> (local: bool)
        ensures
            local == is_local_prompt(
                self.deep_view().active_run,
                self.deep_view().entries,
                run.deep_view(),
            ),
    {
        let id: &CursorRunId = match run {
            Some(id) => id,
            None => return false,
        };
        if !same_run(self.active_run.as_ref(), run) {
            return false;
        }
        let ghost all = self.journal_entries.deep_view();
        let mut i: usize = 0;
        while i < self.journal_entries.len()
            invariant
                i <= self.journal_entries@.len(),
                all == self.journal_entries.deep_view(),
                run == Some(id),
                self.active_run.deep_view() == run.deep_view(),
                forall|k: int| 0 <= k < i ==> !accepts_for(#[trigger] all[k], id.deep_view()),
            decreases self.journal_entries@.len() - i,
        {
            assert(all[i as int] == self.journal_entries@[i as int].deep_view());
            if same_run(self.journal_entries[i].run.as_ref(), run) && matches!(
                self.journal_entries[i].input,
                JournalInput::PromptAccepted(_)
            ) {
                assert(accepts_for(all[i as int], id.deep_view()));
                return true;
            }
            i = i + 1;
        }
        false
    }

    /// Replay an entry the journal has durably appended.
    pub fn finish_capture(&mut self, run: Option<&CursorRunId>, entry: JournalEntry, emit: bool) ->
        (outcome: Result<Captured, SessionError>)
        ensures
            final(self).deep_view() == captured(
                old(self).deep_view(),
                run.deep_view(),
                entry.deep_view(),
                emit,
            ).0,
            match outcome {
                Ok(result) => captured(
                    old(self).deep_view(),
                    run.deep_view(),
                    entry.deep_view(),
                    emit,
                ).1 == Ok::<CapturedView, ErrorView>(result.deep_view()),
                Err(error) => captured(
                    old(self).deep_view(),
                    run.deep_view(),
                    entry.deep_view(),
                    emit,
                ).1 == Err::<CapturedView, ErrorView>(error.deep_view()),
            },
    {
        let before: Option<RunStatus> = run_terminal(&self.machine, run);
        let ghost entry_view = entry.deep_view();
        self.journal_entries.push(entry);
        assert(self.journal_entries.deep_view() =~= old(self).deep_view().entries.push(
            entry_view,
        ));
        let last: usize = self.journal_entries.len() - 1;
        assert(self.journal_entries@[last as int].deep_view() == entry_view);
        let steps: Vec<ReplayStep> = match project_entry(
            &mut self.machine,
            &self.journal_entries[last],
            &self.journal_entries,
        ) {
            Ok(steps) => steps,
            Err(error) => {
                return Err(self.fail_capture(error.message()));
            },
        };
        let completion: Option<TurnOutcome> = if emit && before.is_none() && !same_run(
            run,
            self.active_run.as_ref(),
        ) {
            match run_terminal(&self.machine, run) {
                Some(status) => Some(turn_outcome(&status)),
                None => None,
            }
        } else {
            None
        };
        let local: bool = self.is_local(run);
        Ok(Captured { steps: show(steps, emit, local), completion })
    }
}

} // verus!

//! One prompt, from its arrival to its stop reason.
//!
//! The prompt's original content is journaled before Cursor can start any work
//! on it, so that a crash never leaves remote work nobody can explain. Once
//! Cursor has accepted it into a run, older runs are caught up first, and then
//! the run is streamed to its end.
//!
//! [`Turn`] decides; the host performs each [`TurnAction`] and reports back one
//! [`TurnEvent`] for it.

use crate::cursor::ingest::fallible;
use crate::cursor::journal::{
    clone_blocks, BlockView, ContentBlock, EntryView, InputView, JournalEntry, JournalInput,
};
use crate::cursor::model::{
    same_run, CursorAgentId, CursorRunId, RepoUrl, SessionId, StopReason,
};
use crate::cursor::models::{clone_servers, ChoiceView, McpServer, ModelChoice, ServerView};
use crate::cursor::session::{cursor_error, ErrorView, SessionError, SessionState, StateView};
use crate::text::Text;
use vstd::prelude::*;

verus! {

/// What a client asked for.
#[derive(Debug, PartialEq, Eq)]
pub struct TurnRequest {
    /// The session.
    pub session: SessionId,
    /// The repository the session works on, resolved when it was opened.
    pub repo: Option<RepoUrl>,
    /// The prompt as text.
    pub prompt: String,
    /// The prompt as the client sent it.
    pub blocks: Vec<ContentBlock>,
}

/// The mathematical model of [`TurnRequest`].
pub struct RequestView {
    pub session: Text,
    pub repo: Option<Text>,
    pub prompt: Text,
    pub blocks: Seq<BlockView>,
}

impl DeepView for TurnRequest {
    type V = RequestView;

    open spec fn deep_view(&self) -> RequestView {
        RequestView {
            session: self.session.deep_view(),
            repo: self.repo.deep_view(),
            prompt: self.prompt@,
            blocks: self.blocks.deep_view(),
        }
    }
}

/// How a prompt meets the session's turn lock.
#[derive(Debug, PartialEq, Eq)]
pub enum Admission {
    /// The lock is free: the turn begins.
    Enter,
    /// Something other than a turn holds the lock: the turn waits for it.
    Wait,
    /// Another turn holds the lock: a concurrent prompt is the client's error.
    Refuse(SessionError),
}

/// Decide how a prompt meets the turn lock. The holder is told apart by the
/// active run, which only turns set.
pub fn meet_lock(lock_free: bool, state: &SessionState, session: &SessionId) -> (admission:
    Admission)
    ensures
        admission is Enter <==> lock_free,
        admission is Wait <==> !lock_free && state.deep_view().active_run is None,
        admission is Refuse <==> !lock_free && state.deep_view().active_run is Some,
        admission matches Admission::Refuse(error) ==> error.deep_view()
            == ErrorView::TurnAlreadyActive(session.deep_view()),
{
    if lock_free {
        Admission::Enter
    } else if state.active_run.is_some() {
        Admission::Refuse(SessionError::TurnAlreadyActive(session.clone()))
    } else {
        Admission::Wait
    }
}

/// What a turn is waiting for.
#[derive(Debug, PartialEq, Eq)]
#[allow(inconsistent_fields)]
pub enum Turn {
    /// The model to be resolved.
    Choosing,
    /// The journal to be loaded.
    Loading {
        /// The model.
        model: Option<ModelChoice>,
    },
    /// Runs driven elsewhere to be caught up before the prompt.
    Mirroring {
        /// The model.
        model: Option<ModelChoice>,
        /// The session's agent.
        agent: CursorAgentId,
    },
    /// The journal to take the prompt.
    Recording {
        /// The model.
        model: Option<ModelChoice>,
        /// The session's agent, when it has one.
        agent: Option<CursorAgentId>,
    },
    /// The journal to take that the prompt was given up before it was sent.
    Abandoning,
    /// Cursor to start a run.
    Creating {
        /// Where the prompt is journaled.
        sequence: i64,
    },
    /// The journal to take that Cursor did not take the prompt.
    Rejecting {
        /// Why.
        failure: SessionError,
    },
    /// The journal to take that a run accepted the prompt.
    Accepting {
        /// The agent.
        agent: CursorAgentId,
        /// The run.
        run: CursorRunId,
    },
    /// Older runs to be caught up before the new one is observed.
    CatchingUp {
        /// The agent.
        agent: CursorAgentId,
        /// The run.
        run: CursorRunId,
    },
    /// A run stopped before it existed to be cancelled.
    Stopping {
        /// The agent.
        agent: CursorAgentId,
        /// The run.
        run: CursorRunId,
    },
    /// The run to be streamed to its end.
    Streaming {
        /// The run.
        run: CursorRunId,
    },
    /// The journal to take how the stream broke off.
    Closing {
        /// The run.
        run: CursorRunId,
        /// How the stream ended.
        outcome: Result<StopReason, SessionError>,
        /// Whether the client had stopped the turn by then.
        cancelled: bool,
    },
    /// The host to checkpoint the delivered run.
    Checkpointing {
        /// The run.
        run: CursorRunId,
        /// What the turn will answer.
        verdict: Result<StopReason, SessionError>,
    },
    /// Nothing: the turn is over.
    Finished,
}

/// What the host is to do next.
#[derive(Debug, PartialEq, Eq)]
#[allow(inconsistent_fields)]
pub enum TurnAction {
    /// Resolve the model of the session's next run.
    ResolveModel,
    /// Load the session's journal, if it is not loaded yet.
    LoadJournal,
    /// Catch up the agent's other runs.
    Backfill {
        /// The agent.
        agent: CursorAgentId,
        /// The run this turn is about, which is not caught up.
        current: Option<CursorRunId>,
    },
    /// Capture an input.
    Capture {
        /// The run it belongs to.
        run: Option<CursorRunId>,
        /// The input.
        input: JournalInput,
        /// Whether the client hears of it.
        emit: bool,
    },
    /// Create an agent with its first run.
    CreateAgent {
        /// The prompt.
        prompt: String,
        /// The repository to work on.
        repo: Option<RepoUrl>,
        /// Whether the work ships as a pull request.
        open_pull_request: bool,
        /// The tool servers the agent gets.
        mcp_servers: Vec<McpServer>,
        /// The model.
        model: Option<ModelChoice>,
    },
    /// Open a follow-up run once the agent is free.
    CreateRun {
        /// The agent.
        agent: CursorAgentId,
        /// The prompt.
        prompt: String,
        /// The model.
        model: Option<ModelChoice>,
    },
    /// Cancel a run; failing to is no failure of the turn.
    CancelRun {
        /// The agent.
        agent: CursorAgentId,
        /// The run.
        run: CursorRunId,
    },
    /// Ingest the run live.
    Stream {
        /// The run.
        run: CursorRunId,
    },
    /// Mark the run as delivered in full.
    Checkpoint {
        /// The run.
        run: CursorRunId,
    },
    /// The turn is over.
    Finish(Result<StopReason, SessionError>),
}

/// What came of an action.
#[derive(Debug, PartialEq, Eq)]
pub enum TurnEvent {
    /// The resolved model.
    Chosen(Result<Option<ModelChoice>, SessionError>),
    /// An action that answers nothing more succeeded or failed.
    Done(Result<(), SessionError>),
    /// The run Cursor started, with its agent.
    Created(Result<(CursorAgentId, CursorRunId), SessionError>),
    /// The stream ended.
    Streamed(Result<StopReason, SessionError>),
}

/// The mathematical model of [`Turn`].
#[allow(inconsistent_fields)]
pub enum TurnView {
    Choosing,
    Loading { model: Option<ChoiceView> },
    Mirroring { model: Option<ChoiceView>, agent: Text },
    Recording { model: Option<ChoiceView>, agent: Option<Text> },
    Abandoning,
    Creating { sequence: i64 },
    Rejecting { failure: ErrorView },
    Accepting { agent: Text, run: Text },
    CatchingUp { agent: Text, run: Text },
    Stopping { agent: Text, run: Text },
    Streaming { run: Text },
    Closing { run: Text, outcome: Result<StopReason, ErrorView>, cancelled: bool },
    Checkpointing { run: Text, verdict: Result<StopReason, ErrorView> },
    Finished,
}

/// The mathematical model of [`TurnAction`].
#[allow(inconsistent_fields)]
pub enum TurnActionView {
    ResolveModel,
    LoadJournal,
    Backfill { agent: Text, current: Option<Text> },
    Capture { run: Option<Text>, input: InputView, emit: bool },
    CreateAgent {
        prompt: Text,
        repo: Option<Text>,
        open_pull_request: bool,
        mcp_servers: Seq<ServerView>,
        model: Option<ChoiceView>,
    },
    CreateRun { agent: Text, prompt: Text, model: Option<ChoiceView> },
    CancelRun { agent: Text, run: Text },
    Stream { run: Text },
    Checkpoint { run: Text },
    Finish(Result<StopReason, ErrorView>),
}

/// The mathematical model of [`TurnEvent`].
pub enum TurnEventView {
    Chosen(Result<Option<ChoiceView>, ErrorView>),
    Done(Result<(), ErrorView>),
    Created(Result<(Text, Text), ErrorView>),
    Streamed(Result<StopReason, ErrorView>),
}

impl DeepView for Turn {
    type V = TurnView;

    open spec fn deep_view(&self) -> TurnView {
        match self {
            Turn::Choosing => TurnView::Choosing,
            Turn::Loading { model } => TurnView::Loading { model: model.deep_view() },
            Turn::Mirroring { model, agent } => TurnView::Mirroring {
                model: model.deep_view(),
                agent: agent.deep_view(),
            },
            Turn::Recording { model, agent } => TurnView::Recording {
                model: model.deep_view(),
                agent: agent.deep_view(),
            },
            Turn::Abandoning => TurnView::Abandoning,
            Turn::Creating { sequence } => TurnView::Creating { sequence: *sequence },
            Turn::Rejecting { failure } => TurnView::Rejecting { failure: failure.deep_view() },
            Turn::Accepting { agent, run } => TurnView::Accepting {
                agent: agent.deep_view(),
                run: run.deep_view(),
            },
            Turn::CatchingUp { agent, run } => TurnView::CatchingUp {
                agent: agent.deep_view(),
                run: run.deep_view(),
            },
            Turn::Stopping { agent, run } => TurnView::Stopping {
                agent: agent.deep_view(),
                run: run.deep_view(),
            },
            Turn::Streaming { run } => TurnView::Streaming { run: run.deep_view() },
            Turn::Closing { run, outcome, cancelled } => TurnView::Closing {
                run: run.deep_view(),
                outcome: fallible(*outcome),
                cancelled: *cancelled,
            },
            Turn::Checkpointing { run, verdict } => TurnView::Checkpointing {
                run: run.deep_view(),
                verdict: fallible(*verdict),
            },
            Turn::Finished => TurnView::Finished,
        }
    }
}

impl DeepView for TurnAction {
    type V = TurnActionView;

    open spec fn deep_view(&self) -> TurnActionView {
        match self {
            TurnAction::ResolveModel => TurnActionView::ResolveModel,
            TurnAction::LoadJournal => TurnActionView::LoadJournal,
            TurnAction::Backfill { agent, current } => TurnActionView::Backfill {
                agent: agent.deep_view(),
                current: current.deep_view(),
            },
            TurnAction::Capture { run, input, emit } => TurnActionView::Capture {
                run: run.deep_view(),
                input: input.deep_view(),
                emit: *emit,
            },
            TurnAction::CreateAgent { prompt, repo, open_pull_request, mcp_servers, model } => {
                TurnActionView::CreateAgent {
                    prompt: prompt@,
                    repo: repo.deep_view(),
                    open_pull_request: *open_pull_request,
                    mcp_servers: mcp_servers.deep_view(),
                    model: model.deep_view(),
                }
            },
            TurnAction::CreateRun { agent, prompt, model } => TurnActionView::CreateRun {
                agent: agent.deep_view(),
                prompt: prompt@,
                model: model.deep_view(),
            },
            TurnAction::CancelRun { agent, run } => TurnActionView::CancelRun {
                agent: agent.deep_view(),
                run: run.deep_view(),
            },
            TurnAction::Stream { run } => TurnActionView::Stream { run: run.deep_view() },
            TurnAction::Checkpoint { run } => TurnActionView::Checkpoint { run: run.deep_view() },
            TurnAction::Finish(outcome) => TurnActionView::Finish(fallible(*outcome)),
        }
    }
}

impl DeepView for TurnEvent {
    type V = TurnEventView;

    open spec fn deep_view(&self) -> TurnEventView {
        match self {
            TurnEvent::Chosen(choice) => TurnEventView::Chosen(
                match choice {
                    Ok(model) => Ok(model.deep_view()),
                    Err(error) => Err(error.deep_view()),
                },
            ),
            TurnEvent::Done(outcome) => TurnEventView::Done(fallible(*outcome)),
            TurnEvent::Created(created) => TurnEventView::Created(
                match created {
                    Ok((agent, run)) => Ok((agent.deep_view(), run.deep_view())),
                    Err(error) => Err(error.deep_view()),
                },
            ),
            TurnEvent::Streamed(outcome) => TurnEventView::Streamed(fallible(*outcome)),
        }
    }
}

/// What a step leads to: the turn's next phase, the session's next state, and
/// what the host does meanwhile.
pub struct Stepped {
    pub turn: TurnView,
    pub state: StateView,
    pub action: TurnActionView,
}

/// The turn ends with an answer.
pub open spec fn turn_finished(state: StateView, answer: Result<StopReason, ErrorView>) -> Stepped {
    Stepped { turn: TurnView::Finished, state, action: TurnActionView::Finish(answer) }
}

/// How a turn begins. A session that was restored but not loaded refuses; any
/// other owns its cancellation from here on.
pub open spec fn turn_started(state: StateView) -> Stepped {
    if !state.ready_for_sync {
        turn_finished(
            state,
            Err(cursor_error("Cursor session must load successfully before prompting"@)),
        )
    } else {
        Stepped {
            turn: TurnView::Choosing,
            state: StateView { cancelled: false, ..state },
            action: TurnActionView::ResolveModel,
        }
    }
}

/// The prompt is journaled before the provider can start work on it.
pub open spec fn prompt_recorded(
    state: StateView,
    request: RequestView,
    model: Option<ChoiceView>,
    agent: Option<Text>,
) -> Stepped {
    Stepped {
        turn: TurnView::Recording { model, agent },
        state,
        action: TurnActionView::Capture {
            run: None,
            input: InputView::Prompt(request.blocks),
            emit: false,
        },
    }
}

/// The journaled prompt is handed to Cursor, unless the client has stopped.
pub open spec fn prompt_sent(
    state: StateView,
    request: RequestView,
    model: Option<ChoiceView>,
    agent: Option<Text>,
) -> Stepped {
    let sequence = state.entries.last().sequence;
    if state.cancelled {
        Stepped {
            turn: TurnView::Abandoning,
            state,
            action: TurnActionView::Capture {
                run: None,
                input: InputView::PromptAborted(sequence),
                emit: false,
            },
        }
    } else {
        Stepped {
            turn: TurnView::Creating { sequence },
            state,
            action: match agent {
                Some(agent) => TurnActionView::CreateRun { agent, prompt: request.prompt, model },
                None => TurnActionView::CreateAgent {
                    prompt: request.prompt,
                    repo: request.repo,
                    open_pull_request: request.repo is Some,
                    mcp_servers: state.mcp_servers,
                    model,
                },
            },
        }
    }
}

/// Cursor answered the request for a run.
pub open spec fn run_created(
    state: StateView,
    sequence: i64,
    created: Result<(Text, Text), ErrorView>,
) -> Stepped {
    match created {
        Ok((agent, run)) => Stepped {
            turn: TurnView::Accepting { agent, run },
            state,
            action: TurnActionView::Capture {
                run: Some(run),
                input: InputView::PromptAccepted(sequence),
                emit: false,
            },
        },
        Err(failure) => match failure {
            ErrorView::Cursor { rejected: true, .. } => Stepped {
                turn: TurnView::Rejecting { failure },
                state,
                action: TurnActionView::Capture {
                    run: None,
                    input: InputView::PromptAborted(sequence),
                    emit: false,
                },
            },
            _ => turn_finished(state, Err(failure)),
        },
    }
}

/// Every older run is caught up: the new run becomes the active one. A stop
/// the run did not exist to receive is sent now.
pub open spec fn run_activated(state: StateView, agent: Text, run: Text) -> Stepped {
    let active = StateView { agent: Some(agent), active_run: Some(run), ..state };
    if state.cancelled {
        Stepped {
            turn: TurnView::Stopping { agent, run },
            state: active,
            action: TurnActionView::CancelRun { agent, run },
        }
    } else {
        Stepped {
            turn: TurnView::Streaming { run },
            state: active,
            action: TurnActionView::Stream { run },
        }
    }
}

/// Whether a run's reconciliation is journaled.
pub open spec fn is_reconciled(entries: Seq<EntryView>, run: Text) -> bool {
    exists|i: int|
        0 <= i < entries.len() && (#[trigger] entries[i]).run == Some(run)
            && entries[i].input is Reconciled
}

/// What the turn answers. Once the client has sent a cancel the answer is
/// `Cancelled`, however the stream ended, unless capture itself failed.
pub open spec fn verdict_of(outcome: Result<StopReason, ErrorView>, cancelled: bool) -> Result<
    StopReason,
    ErrorView,
> {
    if cancelled && (outcome is Ok || outcome->Err_0 is Cursor) {
        Ok(StopReason::Cancelled)
    } else {
        outcome
    }
}

/// A delivered and reconciled run is checkpointed before the turn answers.
pub open spec fn run_concluded(
    state: StateView,
    run: Text,
    outcome: Result<StopReason, ErrorView>,
    cancelled: bool,
) -> Stepped {
    let verdict = verdict_of(outcome, cancelled);
    if outcome is Ok && is_reconciled(state.entries, run) {
        Stepped {
            turn: TurnView::Checkpointing { run, verdict },
            state,
            action: TurnActionView::Checkpoint { run },
        }
    } else {
        turn_finished(state, verdict)
    }
}

/// The stream ended. A stream that broke off, or that the client stopped, is
/// journaled as interrupted.
pub open spec fn run_streamed(
    state: StateView,
    run: Text,
    outcome: Result<StopReason, ErrorView>,
) -> Stepped {
    let idle = StateView { active_run: None, ..state };
    let cancelled = state.cancelled;
    let reason = match outcome {
        Err(ErrorView::Cursor { message, .. }) => Some(message),
        Err(_) => None,
        Ok(_) => if cancelled {
            Some("user cancelled the turn"@)
        } else {
            None
        },
    };
    match reason {
        Some(reason) => Stepped {
            turn: TurnView::Closing { run, outcome, cancelled },
            state: idle,
            action: TurnActionView::Capture {
                run: Some(run),
                input: InputView::Interrupted(reason),
                emit: true,
            },
        },
        None => run_concluded(idle, run, outcome, cancelled),
    }
}

/// Whether an event answers what the turn is waiting for. Once the prompt is
/// captured the journal holds at least it.
pub open spec fn turn_expects(turn: TurnView, state: StateView, event: TurnEventView) -> bool {
    match turn {
        TurnView::Choosing => event is Chosen,
        TurnView::Creating { .. } => event is Created,
        TurnView::Streaming { .. } => event is Streamed,
        TurnView::Recording { .. } => event is Done && (event->Done_0 is Ok ==> state.entries.len()
            > 0),
        TurnView::Finished => false,
        _ => event is Done,
    }
}

/// What a turn does with an event.
pub open spec fn turn_stepped(
    turn: TurnView,
    state: StateView,
    request: RequestView,
    event: TurnEventView,
) -> Stepped {
    match (turn, event) {
        (TurnView::Choosing, TurnEventView::Chosen(Ok(model))) => Stepped {
            turn: TurnView::Loading { model },
            state,
            action: TurnActionView::LoadJournal,
        },
        (_, TurnEventView::Chosen(Err(error))) => turn_finished(state, Err(error)),
        (TurnView::Creating { sequence }, TurnEventView::Created(created)) => run_created(
            state,
            sequence,
            created,
        ),
        (TurnView::Streaming { run }, TurnEventView::Streamed(outcome)) => run_streamed(
            state,
            run,
            outcome,
        ),
        (TurnView::Stopping { run, .. }, TurnEventView::Done(_)) => Stepped {
            turn: TurnView::Streaming { run },
            state,
            action: TurnActionView::Stream { run },
        },
        (_, TurnEventView::Done(Err(error))) => turn_finished(state, Err(error)),
        (TurnView::Loading { model }, _) => match state.agent {
            Some(agent) => Stepped {
                turn: TurnView::Mirroring { model, agent },
                state,
                action: TurnActionView::Backfill { agent, current: None },
            },
            None => prompt_recorded(state, request, model, None),
        },
        (TurnView::Mirroring { model, agent }, _) => prompt_recorded(
            state,
            request,
            model,
            Some(agent),
        ),
        (TurnView::Recording { model, agent }, _) => prompt_sent(state, request, model, agent),
        (TurnView::Abandoning, _) => turn_finished(state, Ok(StopReason::Cancelled)),
        (TurnView::Rejecting { failure }, _) => turn_finished(
            state,
            if state.cancelled {
                Ok(StopReason::Cancelled)
            } else {
                Err(failure)
            },
        ),
        (TurnView::Accepting { agent, run }, _) => Stepped {
            turn: TurnView::CatchingUp { agent, run },
            state: StateView { agent: Some(agent), ..state },
            action: TurnActionView::Backfill { agent, current: Some(run) },
        },
        (TurnView::CatchingUp { agent, run }, _) => run_activated(state, agent, run),
        (TurnView::Closing { run, outcome, cancelled }, _) => run_concluded(
            state,
            run,
            outcome,
            cancelled,
        ),
        (TurnView::Checkpointing { run, verdict }, _) => turn_finished(
            StateView { last_run: Some(run), ..state },
            verdict,
        ),
        _ => Stepped { turn, state, action: TurnActionView::LoadJournal },
    }
}

/// Whether a run's reconciliation is journaled.
pub fn run_reconciled(entries: &Vec<JournalEntry>, run: &CursorRunId) -> (reconciled: bool)
    ensures
        reconciled == is_reconciled(entries.deep_view(), run.deep_view()),
{
    let ghost all = entries.deep_view();
    let mut i: usize = 0;
    while i < entries.len()
        invariant
            i <= entries@.len(),
            all == entries.deep_view(),
            forall|k: int|
                0 <= k < i && (#[trigger] all[k]).run == Some(run.deep_view())
                    ==> !(all[k].input is Reconciled),
        decreases entries@.len() - i,
    {
        assert(all[i as int] == entries@[i as int].deep_view());
        if matches!(entries[i].input, JournalInput::Reconciled) && same_run(
            entries[i].run.as_ref(),
            Some(run),
        ) {
            return true;
        }
        i = i + 1;
    }
    false
}

fn clone_repo(repo: &Option<RepoUrl>) -> (copy: Option<RepoUrl>)
    ensures
        copy.deep_view() == repo.deep_view(),
{
    match repo {
        Some(repo) => Some(repo.clone()),
        None => None,
    }
}

/// What the turn answers. Once the client has sent a cancel the answer is
/// `Cancelled`, however the stream ended, unless capture itself failed.
pub fn verdict(outcome: Result<StopReason, SessionError>, cancelled: bool) -> (answer: Result<
    StopReason,
    SessionError,
>)
    ensures
        fallible(answer) == verdict_of(fallible(outcome), cancelled),
{
    if cancelled && matches!(outcome, Ok(_) | Err(SessionError::Cursor(_))) {
        Ok(StopReason::Cancelled)
    } else {
        outcome
    }
}

impl Turn {
    /// Whether a step's answer is the one the model gives.
    pub open spec fn steps_to(next: (Turn, TurnAction), state: StateView, expected: Stepped) ->
        bool {
        &&& next.0.deep_view() == expected.turn
        &&& state == expected.state
        &&& next.1.deep_view() == expected.action
    }

    /// Begin a turn that holds the session's turn lock.
    pub fn start(state: &mut SessionState) -> (begun: (Turn, TurnAction))
        ensures
            Turn::steps_to(begun, final(state).deep_view(), turn_started(old(state).deep_view())),
    {
        if !state.ready_for_sync {
            let error = SessionError::cursor(
                "Cursor session must load successfully before prompting".to_owned(),
            );
            return (Turn::Finished, TurnAction::Finish(Err(error)));
        }
        state.cancelled = false;
        (Turn::Choosing, TurnAction::ResolveModel)
    }

    fn record_prompt(
        request: &TurnRequest,
        model: Option<ModelChoice>,
        agent: Option<CursorAgentId>,
    ) -> (next: (Turn, TurnAction))
        ensures
            forall|state: StateView|
                #![trigger prompt_recorded(
                    state,
                    request.deep_view(),
                    model.deep_view(),
                    agent.deep_view(),
                )]
                Turn::steps_to(
                    next,
                    state,
                    prompt_recorded(
                        state,
                        request.deep_view(),
                        model.deep_view(),
                        agent.deep_view(),
                    ),
                ),
    {
        let input = JournalInput::Prompt(clone_blocks(&request.blocks));
        (
            Turn::Recording { model, agent },
            TurnAction::Capture { run: None, input, emit: false },
        )
    }

    fn send_prompt(
        state: &SessionState,
        request: &TurnRequest,
        model: Option<ModelChoice>,
        agent: Option<CursorAgentId>,
    ) -> (next: (Turn, TurnAction))
        requires
            state.deep_view().entries.len() > 0,
        ensures
            Turn::steps_to(
                next,
                state.deep_view(),
                prompt_sent(
                    state.deep_view(),
                    request.deep_view(),
                    model.deep_view(),
                    agent.deep_view(),
                ),
            ),
    {
        let count: usize = state.journal_entries.len();
        let sequence: i64 = state.journal_entries[count - 1].sequence;
        assert(state.deep_view().entries.last() == state.journal_entries@[count - 1].deep_view());
        if state.cancelled {
            return (
                Turn::Abandoning,
                TurnAction::Capture {
                    run: None,
                    input: JournalInput::PromptAborted(sequence),
                    emit: false,
                },
            );
        }
        let prompt: String = request.prompt.clone();
        let action: TurnAction = match agent {
            Some(agent) => TurnAction::CreateRun { agent, prompt, model },
            None => TurnAction::CreateAgent {
                prompt,
                repo: clone_repo(&request.repo),
                open_pull_request: request.repo.is_some(),
                mcp_servers: clone_servers(&state.mcp_servers),
                model,
            },
        };
        (Turn::Creating { sequence }, action)
    }

    fn take_run(
        sequence: i64,
        created: Result<(CursorAgentId, CursorRunId), SessionError>,
    ) -> (next: (Turn, TurnAction))
        ensures
            forall|state: StateView|
                #![trigger run_created(
                    state,
                    sequence,
                    TurnEvent::Created(created).deep_view()->Created_0,
                )]
                Turn::steps_to(
                    next,
                    state,
                    run_created(
                        state,
                        sequence,
                        TurnEvent::Created(created).deep_view()->Created_0,
                    ),
                ),
    {
        match created {
            Ok((agent, run)) => {
                let accepted: CursorRunId = run.clone();
                (
                    Turn::Accepting { agent, run },
                    TurnAction::Capture {
                        run: Some(accepted),
                        input: JournalInput::PromptAccepted(sequence),
                        emit: false,
                    },
                )
            },
            Err(failure) => {
                let rejected: bool = match &failure {
                    SessionError::Cursor(failure) => failure.rejected,
                    _ => false,
                };
                if rejected {
                    (
                        Turn::Rejecting { failure },
                        TurnAction::Capture {
                            run: None,
                            input: JournalInput::PromptAborted(sequence),
                            emit: false,
                        },
                    )
                } else {
                    (Turn::Finished, TurnAction::Finish(Err(failure)))
                }
            },
        }
    }

    fn activate(state: &mut SessionState, agent: CursorAgentId, run: CursorRunId) -> (next: (
        Turn,
        TurnAction,
    ))
        ensures
            Turn::steps_to(
                next,
                final(state).deep_view(),
                run_activated(old(state).deep_view(), agent.deep_view(), run.deep_view()),
            ),
    {
        state.agent = Some(agent.clone());
        state.active_run = Some(run.clone());
        if state.cancelled {
            let action = TurnAction::CancelRun { agent: agent.clone(), run: run.clone() };
            (Turn::Stopping { agent, run }, action)
        } else {
            let action = TurnAction::Stream { run: run.clone() };
            (Turn::Streaming { run }, action)
        }
    }

    fn conclude(
        state: &SessionState,
        run: CursorRunId,
        outcome: Result<StopReason, SessionError>,
        cancelled: bool,
    ) -> (next: (Turn, TurnAction))
        ensures
            Turn::steps_to(
                next,
                state.deep_view(),
                run_concluded(state.deep_view(), run.deep_view(), fallible(outcome), cancelled),
            ),
    {
        let succeeded: bool = outcome.is_ok();
        let answer: Result<StopReason, SessionError> = verdict(outcome, cancelled);
        if succeeded && run_reconciled(&state.journal_entries, &run) {
            let action = TurnAction::Checkpoint { run: run.clone() };
            (Turn::Checkpointing { run, verdict: answer }, action)
        } else {
            (Turn::Finished, TurnAction::Finish(answer))
        }
    }

    fn end_stream(
        state: &mut SessionState,
        run: CursorRunId,
        outcome: Result<StopReason, SessionError>,
    ) -> (next: (Turn, TurnAction))
        ensures
            Turn::steps_to(
                next,
                final(state).deep_view(),
                run_streamed(old(state).deep_view(), run.deep_view(), fallible(outcome)),
            ),
    {
        state.active_run = None;
        let cancelled: bool = state.cancelled;
        let reason: Option<String> = match &outcome {
            Err(SessionError::Cursor(failure)) => Some(failure.message.clone()),
            Err(_) => None,
            Ok(_) => if cancelled {
                Some("user cancelled the turn".to_owned())
            } else {
                None
            },
        };
        match reason {
            Some(reason) => {
                let action = TurnAction::Capture {
                    run: Some(run.clone()),
                    input: JournalInput::Interrupted(reason),
                    emit: true,
                };
                (Turn::Closing { run, outcome, cancelled }, action)
            },
            None => Turn::conclude(state, run, outcome, cancelled),
        }
    }

    fn proceed(self, state: &mut SessionState, request: &TurnRequest) -> (next: (Turn, TurnAction))
        requires
            turn_expects(
                self.deep_view(),
                old(state).deep_view(),
                TurnEventView::Done(Ok(())),
            ),
        ensures
            Turn::steps_to(
                next,
                final(state).deep_view(),
                turn_stepped(
                    self.deep_view(),
                    old(state).deep_view(),
                    request.deep_view(),
                    TurnEventView::Done(Ok(())),
                ),
            ),
    {
        match self {
            Turn::Loading { model } => match &state.agent {
                Some(agent) => {
                    let action = TurnAction::Backfill { agent: agent.clone(), current: None };
                    (Turn::Mirroring { model, agent: agent.clone() }, action)
                },
                None => Turn::record_prompt(request, model, None),
            },
            Turn::Mirroring { model, agent } => Turn::record_prompt(request, model, Some(agent)),
            Turn::Recording { model, agent } => Turn::send_prompt(state, request, model, agent),
            Turn::Abandoning => (Turn::Finished, TurnAction::Finish(Ok(StopReason::Cancelled))),
            Turn::Rejecting { failure } => {
                if state.cancelled {
                    (Turn::Finished, TurnAction::Finish(Ok(StopReason::Cancelled)))
                } else {
                    (Turn::Finished, TurnAction::Finish(Err(failure)))
                }
            },
            Turn::Accepting { agent, run } => {
                state.agent = Some(agent.clone());
                let action = TurnAction::Backfill {
                    agent: agent.clone(),
                    current: Some(run.clone()),
                };
                (Turn::CatchingUp { agent, run }, action)
            },
            Turn::CatchingUp { agent, run } => Turn::activate(state, agent, run),
            Turn::Stopping { run, .. } => {
                let action = TurnAction::Stream { run: run.clone() };
                (Turn::Streaming { run }, action)
            },
            Turn::Closing { run, outcome, cancelled } => Turn::conclude(
                state,
                run,
                outcome,
                cancelled,
            ),
            Turn::Checkpointing { run, verdict } => {
                state.last_run = Some(run);
                (Turn::Finished, TurnAction::Finish(verdict))
            },
            other => (other, TurnAction::LoadJournal),
        }
    }

    /// Whether an event answers what the turn is waiting for.
    pub fn expects(&self, state: &SessionState, event: &TurnEvent) -> (expected: bool)
        ensures
            expected == turn_expects(self.deep_view(), state.deep_view(), event.deep_view()),
    {
        match self {
            Turn::Choosing => matches!(event, TurnEvent::Chosen(_)),
            Turn::Creating { .. } => matches!(event, TurnEvent::Created(_)),
            Turn::Streaming { .. } => matches!(event, TurnEvent::Streamed(_)),
            Turn::Recording { .. } => match event {
                TurnEvent::Done(Ok(_)) => state.journal_entries.len() > 0,
                TurnEvent::Done(Err(_)) => true,
                _ => false,
            },
            Turn::Finished => false,
            _ => matches!(event, TurnEvent::Done(_)),
        }
    }

    /// Take in what came of the last action.
    pub fn step(self, state: &mut SessionState, request: &TurnRequest, event: TurnEvent) -> (next: (
        Turn,
        TurnAction,
    ))
        requires
            turn_expects(self.deep_view(), old(state).deep_view(), event.deep_view()),
        ensures
            Turn::steps_to(
                next,
                final(state).deep_view(),
                turn_stepped(
                    self.deep_view(),
                    old(state).deep_view(),
                    request.deep_view(),
                    event.deep_view(),
                ),
            ),
    {
        match (self, event) {
            (_, TurnEvent::Chosen(Ok(model))) => (
                Turn::Loading { model },
                TurnAction::LoadJournal,
            ),
            (_, TurnEvent::Chosen(Err(error))) => (
                Turn::Finished,
                TurnAction::Finish(Err(error)),
            ),
            (Turn::Creating { sequence }, TurnEvent::Created(created)) => Turn::take_run(
                sequence,
                created,
            ),
            (Turn::Streaming { run }, TurnEvent::Streamed(outcome)) => Turn::end_stream(
                state,
                run,
                outcome,
            ),
            (Turn::Stopping { agent, run }, TurnEvent::Done(_)) => {
                Turn::Stopping { agent, run }.proceed(state, request)
            },
            (turn, TurnEvent::Done(Ok(_))) => turn.proceed(state, request),
            (_, TurnEvent::Done(Err(error))) => (Turn::Finished, TurnAction::Finish(Err(error))),
            (turn, _) => (turn, TurnAction::LoadJournal),
        }
    }
}

} // verus!

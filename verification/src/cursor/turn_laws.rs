//! What holds of every turn: what Cursor is asked to do, what the journal is
//! asked to take, and what the client is answered.

use crate::cursor::journal::{EntryView, InputView, JournalInput};
use crate::cursor::model::StopReason;
use crate::cursor::models::ChoiceView;
use crate::cursor::session::{ErrorView, SessionState, StateView};
use crate::cursor::turn::{
    is_reconciled, turn_expects, turn_started, turn_stepped, RequestView, Turn, TurnAction,
    TurnActionView, TurnEvent, TurnEventView, TurnRequest, TurnView,
};
use crate::text::Text;
use vstd::prelude::*;

verus! {

/// Cursor works on what the client asked for: whenever a step has a run or an
/// agent created, its prompt is the request's text, word for word. A run is
/// opened on the agent the turn recorded, with the turn's model; an agent is
/// created only where the turn has none, on the request's repository, shipping
/// a pull request exactly when there is a repository, with the session's tool
/// servers and the turn's model.
pub proof fn law_cursor_works_on_the_request(
    turn: TurnView,
    state: StateView,
    request: RequestView,
    event: TurnEventView,
)
    requires
        turn_expects(turn, state, event),
    ensures
        match turn_stepped(turn, state, request, event).action {
            TurnActionView::CreateRun { agent, prompt, model } => {
                &&& prompt == request.prompt
                &&& turn == TurnView::Recording { model, agent: Some(agent) }
            },
            TurnActionView::CreateAgent { prompt, repo, open_pull_request, mcp_servers, model } => {
                &&& prompt == request.prompt
                &&& repo == request.repo
                &&& open_pull_request <==> request.repo is Some
                &&& mcp_servers == state.mcp_servers
                &&& turn == TurnView::Recording { model, agent: None }
            },
            _ => turn is Recording && event == TurnEventView::Done(Ok(())) ==> state.cancelled,
        },
{
}

/// A turn keeps the model it resolved and the agent its session had when the
/// journal was loaded, up to the moment the prompt is sent.
pub proof fn law_a_turn_keeps_its_model_and_agent(
    turn: TurnView,
    state: StateView,
    request: RequestView,
    event: TurnEventView,
)
    requires
        turn_expects(turn, state, event),
    ensures
        ({
            let next = turn_stepped(turn, state, request, event).turn;
            &&& next matches TurnView::Loading { model } ==> event == TurnEventView::Chosen(
                Ok(model),
            )
            &&& next matches TurnView::Mirroring { model, agent } ==> (turn == TurnView::Loading {
                model,
            } && state.agent == Some(agent))
            &&& next matches TurnView::Recording { model, agent } ==> (match agent {
                Some(agent) => turn == TurnView::Mirroring { model, agent },
                None => turn == TurnView::Loading { model } && state.agent is None,
            })
            &&& turn is Choosing && event->Chosen_0 is Ok ==> next is Loading
            &&& turn is Loading && event->Done_0 is Ok ==> (if state.agent is Some {
                next is Mirroring
            } else {
                next is Recording
            })
            &&& turn is Mirroring && event->Done_0 is Ok ==> next is Recording
        }),
{
}

/// A prompt that nothing stops reaches Cursor in five steps: the follow-up run
/// is asked of the session's own agent, with the resolved model and the
/// request's text, after the agent's older runs were caught up and the
/// client's own blocks were journaled.
pub proof fn law_a_follow_up_reaches_its_agent(
    request: RequestView,
    model: Option<ChoiceView>,
    agent: Text,
    chosen: StateView,
    loaded: StateView,
    mirrored: StateView,
    recorded: StateView,
)
    requires
        loaded.agent == Some(agent),
        recorded.entries.len() > 0,
        !recorded.cancelled,
    ensures
        ({
            let done = TurnEventView::Done(Ok(()));
            let first = turn_stepped(
                TurnView::Choosing,
                chosen,
                request,
                TurnEventView::Chosen(Ok(model)),
            );
            let second = turn_stepped(first.turn, loaded, request, done);
            let third = turn_stepped(second.turn, mirrored, request, done);
            let fourth = turn_stepped(third.turn, recorded, request, done);
            &&& first.action is LoadJournal
            &&& second.action == (TurnActionView::Backfill { agent, current: None })
            &&& third.action == (TurnActionView::Capture {
                run: None,
                input: InputView::Prompt(request.blocks),
                emit: false,
            })
            &&& fourth.action == (TurnActionView::CreateRun { agent, prompt: request.prompt, model })
        }),
{
}

/// The first prompt of a session creates its agent, with the resolved model,
/// the request's text and the request's repository, right after the client's
/// own blocks were journaled.
pub proof fn law_a_first_prompt_creates_the_agent(
    request: RequestView,
    model: Option<ChoiceView>,
    chosen: StateView,
    loaded: StateView,
    recorded: StateView,
)
    requires
        loaded.agent is None,
        recorded.entries.len() > 0,
        !recorded.cancelled,
    ensures
        ({
            let done = TurnEventView::Done(Ok(()));
            let first = turn_stepped(
                TurnView::Choosing,
                chosen,
                request,
                TurnEventView::Chosen(Ok(model)),
            );
            let second = turn_stepped(first.turn, loaded, request, done);
            let third = turn_stepped(second.turn, recorded, request, done);
            &&& first.action is LoadJournal
            &&& second.action == (TurnActionView::Capture {
                run: None,
                input: InputView::Prompt(request.blocks),
                emit: false,
            })
            &&& third.action == (TurnActionView::CreateAgent {
                prompt: request.prompt,
                repo: request.repo,
                open_pull_request: request.repo is Some,
                mcp_servers: recorded.mcp_servers,
                model,
            })
        }),
{
}

/// What a turn has journaled of its prompt: the client's own blocks before the
/// prompt is sent, then either its acceptance by the run Cursor named or its
/// abort, each naming the entry that the blocks were journaled at. None of the
/// three is shown to the client, which sent the prompt.
pub proof fn law_a_prompt_is_journaled_as_sent(
    turn: TurnView,
    state: StateView,
    request: RequestView,
    event: TurnEventView,
)
    requires
        turn_expects(turn, state, event),
    ensures
        ({
            let next = turn_stepped(turn, state, request, event);
            &&& next.turn is Recording <==> (next.action matches TurnActionView::Capture {
                input: InputView::Prompt(_),
                ..
            })
            &&& next.turn matches TurnView::Creating { sequence } ==> (sequence
                == state.entries.last().sequence && (next.action is CreateRun
                || next.action is CreateAgent))
            &&& match next.action {
                TurnActionView::Capture { run, input, emit } => match input {
                    InputView::Prompt(blocks) => {
                        &&& blocks == request.blocks
                        &&& run is None
                        &&& !emit
                    },
                    InputView::PromptAccepted(sequence) => {
                        &&& turn == TurnView::Creating { sequence }
                        &&& event->Created_0 is Ok
                        &&& run == Some(event->Created_0->Ok_0.1)
                        &&& !emit
                    },
                    InputView::PromptAborted(sequence) => {
                        &&& run is None
                        &&& !emit
                        &&& (turn == TurnView::Creating { sequence } && event->Created_0 is Err
                            && event->Created_0->Err_0 is Cursor
                            && event->Created_0->Err_0->Cursor_rejected) || (turn is Recording
                            && state.cancelled && sequence == state.entries.last().sequence)
                    },
                    InputView::Interrupted(_) => {
                        &&& emit
                        &&& turn is Streaming
                        &&& run == Some(turn->Streaming_run)
                    },
                    _ => false,
                },
                _ => true,
            }
        }),
{
}

/// An accepted prompt is streamed from the run that accepted it. From the
/// moment Cursor names the agent and the run, every action names that run: its
/// acceptance is journaled, the agent's other runs are caught up around it, a
/// stop sent meanwhile reaches it, and its stream is read with the session
/// knowing its agent and its active run.
pub proof fn law_the_accepted_run_is_the_one_streamed(
    request: RequestView,
    sequence: i64,
    agent: Text,
    run: Text,
    created: StateView,
    accepted: StateView,
    caught_up: StateView,
    stopped: StateView,
    stop: Result<(), ErrorView>,
)
    ensures
        ({
            let done = TurnEventView::Done(Ok(()));
            let first = turn_stepped(
                TurnView::Creating { sequence },
                created,
                request,
                TurnEventView::Created(Ok((agent, run))),
            );
            let second = turn_stepped(first.turn, accepted, request, done);
            let third = turn_stepped(second.turn, caught_up, request, done);
            let fourth = turn_stepped(third.turn, stopped, request, TurnEventView::Done(stop));
            &&& first.action == (TurnActionView::Capture {
                run: Some(run),
                input: InputView::PromptAccepted(sequence),
                emit: false,
            })
            &&& second.action == (TurnActionView::Backfill { agent, current: Some(run) })
            &&& second.state.agent == Some(agent)
            &&& third.state.agent == Some(agent)
            &&& third.state.active_run == Some(run)
            &&& !caught_up.cancelled ==> third.action == (TurnActionView::Stream { run })
                && third.turn == (TurnView::Streaming { run })
            &&& caught_up.cancelled ==> third.action == (TurnActionView::CancelRun { agent, run })
                && fourth.action == (TurnActionView::Stream { run }) && fourth.turn
                == (TurnView::Streaming { run })
        }),
{
}

/// A run that streamed to its end without a stop answers what its stream
/// answered. Where the journal holds the run's reconciliation the run is
/// checkpointed first, and the session's watermark is then that run.
pub proof fn law_a_streamed_run_answers_its_stream(
    request: RequestView,
    run: Text,
    reason: StopReason,
    streamed: StateView,
    checkpointed: StateView,
    at: int,
)
    requires
        !streamed.cancelled,
    ensures
        ({
            let first = turn_stepped(
                TurnView::Streaming { run },
                streamed,
                request,
                TurnEventView::Streamed(Ok(reason)),
            );
            let second = turn_stepped(
                first.turn,
                checkpointed,
                request,
                TurnEventView::Done(Ok(())),
            );
            &&& first.state.active_run is None
            &&& 0 <= at < streamed.entries.len() && streamed.entries[at].run == Some(run)
                && streamed.entries[at].input is Reconciled ==> {
                &&& first.action == (TurnActionView::Checkpoint { run })
                &&& second.action == TurnActionView::Finish(Ok(reason))
                &&& second.state.last_run == Some(run)
            }
            &&& (forall|i: int|
                0 <= i < streamed.entries.len() && (#[trigger] streamed.entries[i]).run == Some(run)
                    ==> !(streamed.entries[i].input is Reconciled)) ==> {
                &&& first.action == TurnActionView::Finish(Ok(reason))
                &&& first.state.last_run == streamed.last_run
            }
        }),
{
    if 0 <= at < streamed.entries.len() && streamed.entries[at].run == Some(run)
        && streamed.entries[at].input is Reconciled {
        assert(is_reconciled(streamed.entries, run));
    }
}

/// A stream that broke off is journaled as interrupted, in the failure's own
/// words, and shown; one that the client stopped is journaled as interrupted
/// too. The turn then answers that it was cancelled where the client had
/// stopped it, and the failure where it had not. A stream that broke off is
/// never checkpointed.
pub proof fn law_a_broken_stream_is_journaled(
    request: RequestView,
    run: Text,
    outcome: Result<StopReason, ErrorView>,
    streamed: StateView,
    closed: StateView,
)
    ensures
        ({
            let first = turn_stepped(
                TurnView::Streaming { run },
                streamed,
                request,
                TurnEventView::Streamed(outcome),
            );
            let second = turn_stepped(
                first.turn,
                closed,
                request,
                TurnEventView::Done(Ok(())),
            );
            &&& first.state.active_run is None
            &&& outcome matches Err(ErrorView::Cursor { message, .. }) ==> {
                &&& first.action == (TurnActionView::Capture {
                    run: Some(run),
                    input: InputView::Interrupted(message),
                    emit: true,
                })
                &&& second.action == TurnActionView::Finish(
                    if streamed.cancelled {
                        Ok(StopReason::Cancelled)
                    } else {
                        outcome
                    },
                )
            }
            &&& outcome is Ok && streamed.cancelled ==> {
                &&& first.action == (TurnActionView::Capture {
                    run: Some(run),
                    input: InputView::Interrupted("user cancelled the turn"@),
                    emit: true,
                })
                &&& is_reconciled(closed.entries, run) ==> second.action
                    == (TurnActionView::Checkpoint { run }) && second.turn
                    == (TurnView::Checkpointing { run, verdict: Ok(StopReason::Cancelled) })
                &&& !is_reconciled(closed.entries, run) ==> second.action
                    == TurnActionView::Finish(Ok(StopReason::Cancelled))
            }
            &&& outcome is Err && !(outcome->Err_0 is Cursor) ==> first.action
                == TurnActionView::Finish(outcome)
        }),
{
}

/// A failed step ends the turn with that failure and nothing else: resolving
/// the model, loading or writing the journal, catching up, checkpointing. The
/// one exception is a stop that could not be sent, which costs the turn
/// nothing. What Cursor rejected is journaled as given up before the failure is
/// answered, or the stop where the client has stopped.
pub proof fn law_a_failed_step_ends_the_turn(
    turn: TurnView,
    state: StateView,
    request: RequestView,
    event: TurnEventView,
    later: StateView,
)
    requires
        turn_expects(turn, state, event),
    ensures
        ({
            let next = turn_stepped(turn, state, request, event);
            &&& event matches TurnEventView::Chosen(Err(error)) ==> next.action
                == TurnActionView::Finish(Err(error))
            &&& event matches TurnEventView::Done(Err(error)) ==> (if turn is Stopping {
                next.action == (TurnActionView::Stream { run: turn->Stopping_run })
            } else {
                next.action == TurnActionView::Finish(Err(error)) && next.state == state
            })
            &&& event matches TurnEventView::Created(Err(error)) ==> (match error {
                ErrorView::Cursor { rejected: true, .. } => {
                    &&& next.action == (TurnActionView::Capture {
                        run: None,
                        input: InputView::PromptAborted(turn->Creating_sequence),
                        emit: false,
                    })
                    &&& turn_stepped(
                        next.turn,
                        later,
                        request,
                        TurnEventView::Done(Ok(())),
                    ).action == TurnActionView::Finish(
                        if later.cancelled {
                            Ok(StopReason::Cancelled)
                        } else {
                            Err(error)
                        },
                    )
                },
                _ => next.action == TurnActionView::Finish(Err(error)),
            })
        }),
{
}

/// A turn the client stopped before its prompt was sent sends nothing: the
/// prompt it journaled is journaled as given up, and the answer is that it was
/// cancelled.
pub proof fn law_a_stop_before_the_prompt_was_sent(
    request: RequestView,
    model: Option<ChoiceView>,
    agent: Option<Text>,
    recorded: StateView,
    given_up: StateView,
)
    requires
        recorded.cancelled,
        recorded.entries.len() > 0,
    ensures
        ({
            let done = TurnEventView::Done(Ok(()));
            let first = turn_stepped(
                TurnView::Recording { model, agent },
                recorded,
                request,
                done,
            );
            let second = turn_stepped(first.turn, given_up, request, done);
            &&& first.action == (TurnActionView::Capture {
                run: None,
                input: InputView::PromptAborted(recorded.entries.last().sequence),
                emit: false,
            })
            &&& second.action == TurnActionView::Finish(Ok(StopReason::Cancelled))
        }),
{
}

/// A turn touches nothing of the session but its agent, its active run and its
/// watermark. The journal, what replay knows, the chosen model, the tool
/// servers and a stop the client has sent stay as they are.
pub proof fn law_a_turn_leaves_the_rest_of_the_session(
    turn: TurnView,
    state: StateView,
    request: RequestView,
    event: TurnEventView,
)
    requires
        turn_expects(turn, state, event),
    ensures
        ({
            let next = turn_stepped(turn, state, request, event).state;
            &&& next == StateView {
                agent: next.agent,
                active_run: next.active_run,
                last_run: next.last_run,
                ..state
            }
            &&& next.agent != state.agent ==> (turn is Accepting && next.agent == Some(
                turn->Accepting_agent,
            )) || (turn is CatchingUp && next.agent == Some(turn->CatchingUp_agent))
            &&& next.active_run != state.active_run ==> (turn is CatchingUp && next.active_run
                == Some(turn->CatchingUp_run)) || (turn is Streaming && next.active_run is None)
        }),
{
}

/// A turn begins by forgetting any earlier stop and asking for the model, and
/// touches nothing else. Only a session that is not in sync is refused, as it
/// was.
pub proof fn law_a_turn_begins_unstopped(state: StateView)
    ensures
        ({
            let first = turn_started(state);
            if state.ready_for_sync {
                &&& first.action is ResolveModel
                &&& first.turn is Choosing
                &&& !first.state.cancelled
                &&& StateView { cancelled: state.cancelled, ..first.state } == state
            } else {
                &&& first.action is Finish
                &&& first.action->Finish_0 == Err::<StopReason, ErrorView>(
                    ErrorView::Cursor {
                        message: "Cursor session must load successfully before prompting"@,
                        rejected: false,
                    },
                )
                &&& first.turn is Finished
                &&& first.state == state
            }
        }),
{
}

/// Whether a run counts as reconciled is a matter of the journal alone, and of
/// that run's own entries alone.
pub proof fn law_reconciliation_is_journaled(entries: Seq<EntryView>, entry: EntryView, run: Text)
    ensures
        is_reconciled(entries.push(entry), run) <==> is_reconciled(entries, run) || (entry.run
            == Some(run) && entry.input is Reconciled),
        !is_reconciled(Seq::empty(), run),
{
    let more = entries.push(entry);
    if is_reconciled(entries, run) {
        let i = choose|i: int|
            0 <= i < entries.len() && (#[trigger] entries[i]).run == Some(run)
                && entries[i].input is Reconciled;
        assert(more[i] == entries[i]);
    }
    if entry.run == Some(run) && entry.input is Reconciled {
        assert(more[entries.len() as int] == entry);
    }
    if is_reconciled(more, run) {
        let i = choose|i: int|
            0 <= i < more.len() && (#[trigger] more[i]).run == Some(run)
                && more[i].input is Reconciled;
        if i < entries.len() {
            assert(entries[i] == more[i]);
        }
    }
}

/// What Cursor is handed is the client's own words: whatever a step is taken
/// with, the action it gives carries the request's very prompt and repository,
/// the session's very tool servers, and the agent, the model and the run that
/// the turn itself holds; what is captured of a prompt is the request's very
/// blocks.
pub proof fn law_an_action_carries_what_the_turn_was_given(
    turn: Turn,
    state: SessionState,
    request: TurnRequest,
    event: TurnEvent,
    next: (Turn, TurnAction),
    after: StateView,
)
    requires
        turn_expects(turn.deep_view(), state.deep_view(), event.deep_view()),
        Turn::steps_to(
            next,
            after,
            turn_stepped(
                turn.deep_view(),
                state.deep_view(),
                request.deep_view(),
                event.deep_view(),
            ),
        ),
    ensures
        match next.1 {
            TurnAction::CreateRun { agent, prompt, model } => {
                &&& prompt@ == request.prompt@
                &&& turn matches Turn::Recording { model: resolved, agent: Some(own) }
                    && agent.deep_view() == own.deep_view() && model.deep_view()
                    == resolved.deep_view()
            },
            TurnAction::CreateAgent { prompt, repo, open_pull_request, mcp_servers, model } => {
                &&& prompt@ == request.prompt@
                &&& repo.deep_view() == request.repo.deep_view()
                &&& open_pull_request <==> request.repo is Some
                &&& mcp_servers.deep_view() == state.mcp_servers.deep_view()
                &&& turn matches Turn::Recording { model: resolved, agent: None }
                    && model.deep_view() == resolved.deep_view()
            },
            TurnAction::Capture { run, input, emit } => match input {
                JournalInput::Prompt(blocks) => blocks.deep_view() == request.blocks.deep_view()
                    && run is None && !emit,
                JournalInput::PromptAccepted(sequence) => turn matches Turn::Creating {
                    sequence: own,
                } && own == sequence && run is Some && (event matches TurnEvent::Created(
                    Ok((_, created)),
                ) && run->0.deep_view() == created.deep_view()),
                JournalInput::PromptAborted(_) => run is None && !emit,
                JournalInput::Interrupted(_) => turn matches Turn::Streaming { run: own } && run
                    is Some && run->0.deep_view() == own.deep_view() && emit,
                _ => false,
            },
            TurnAction::CancelRun { agent, run } => turn matches Turn::CatchingUp {
                agent: own,
                run: current,
            } && agent.deep_view() == own.deep_view() && run.deep_view() == current.deep_view(),
            TurnAction::Stream { run } => (turn matches Turn::CatchingUp { run: own, .. }
                && run.deep_view() == own.deep_view()) || (turn matches Turn::Stopping {
                run: own,
                ..
            } && run.deep_view() == own.deep_view()),
            TurnAction::Checkpoint { run } => (turn matches Turn::Streaming { run: own }
                && run.deep_view() == own.deep_view()) || (turn matches Turn::Closing {
                run: own,
                ..
            } && run.deep_view() == own.deep_view()),
            TurnAction::Backfill { agent, current } => (turn is Loading && current is None
                && state.agent is Some && agent.deep_view() == state.agent->0.deep_view()) || (turn
                matches Turn::Accepting { agent: own, run } && agent.deep_view() == own.deep_view()
                && current is Some && current->0.deep_view() == run.deep_view()),
            _ => true,
        },
{
}

/// What a turn waits for: the model, the run it asked for, the end of a stream,
/// or the outcome of anything else; a turn that is over waits for nothing. The
/// prompt counts as journaled only once the journal holds something.
pub proof fn law_what_a_turn_waits_for(turn: TurnView, state: StateView, event: TurnEventView)
    ensures
        turn is Finished ==> !turn_expects(turn, state, event),
        turn is Choosing ==> (turn_expects(turn, state, event) <==> event is Chosen),
        turn is Creating ==> (turn_expects(turn, state, event) <==> event is Created),
        turn is Streaming ==> (turn_expects(turn, state, event) <==> event is Streamed),
        turn is Recording ==> (turn_expects(turn, state, event) <==> event is Done && (event->Done_0
            is Err || state.entries.len() > 0)),
        !(turn is Finished || turn is Choosing || turn is Creating || turn is Streaming
            || turn is Recording) ==> (turn_expects(turn, state, event) <==> event is Done),
{
}

} // verus!

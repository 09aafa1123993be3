//! What holds of reading a run: its stream, its polls, and the wait for its
//! agent.

use crate::cursor::event::EventView;
use crate::cursor::ingest::{
    captured_content, ingest_expects, ingest_started, ingest_stepped, ingest_wf, IngestAction,
    IngestActionView, IngestEvent, IngestEventView, IngestMode, IngestPhaseView, IngestView,
};
use crate::cursor::journal::{
    decoded, poll_of, replay_error_message, EntryView, InputView, JournalInput, NativeRecord,
    RecordView,
};
use crate::cursor::model::{OutcomeView, StatusView, StopReason};
use crate::cursor::polling::{
    failure_view, poll_expects, poll_stepped, PollActionView, PollEventView, PollView,
};
use crate::cursor::queueing::{queue_expects, queue_stepped, Queue, QueueActionView, QueueEventView};
use crate::cursor::session::{CursorFailure, ErrorView, SessionError, StateView};
use crate::decimal::decimal_text;
use crate::text::{occurs_at, Text};
use vstd::prelude::*;

verus! {

/// Whether a message is one of those that a reopened stream may repeat or leave
/// out at will.
pub open spec fn is_upkeep(record: RecordView) -> bool {
    record.event == "status"@ || record.event == "heartbeat"@ || record.event == "error"@
}

/// What ingestion captures is what it read, and nothing else: a message as it
/// came, a failure of the connection in its own words, an interruption only
/// when the client stopped while the stream was lost. The client hears of it
/// exactly when the ingestion is one the client is waiting for.
pub proof fn law_ingestion_captures_what_it_read(
    ingest: IngestView,
    state: StateView,
    cancelled: bool,
    event: IngestEventView,
)
    requires
        ingest_wf(ingest),
        ingest_expects(ingest.phase, event),
    ensures
        match ingest_stepped(ingest, state, cancelled, event).1 {
            IngestActionView::Capture { input, emit } => match input {
                InputView::Sse(record) => {
                    &&& event == IngestEventView::Record(record)
                    &&& ingest.phase is Reading
                    &&& emit == ingest.mode.emit
                    &&& is_upkeep(record) || ingest.matched >= ingest.captured.len()
                    &&& ingest_stepped(ingest, state, cancelled, event).0.phase
                        == (IngestPhaseView::Recording { record })
                },
                InputView::TransportError(message) => {
                    &&& event == IngestEventView::StreamFailed(message) || event
                        == IngestEventView::Opened(Err(message))
                    &&& emit == ingest.mode.emit
                },
                InputView::Interrupted(reason) => {
                    &&& reason == "cancelled while disconnected"@
                    &&& cancelled
                    &&& ingest.phase is Pausing
                    &&& emit == ingest.mode.emit
                },
                InputView::Reconciled => ingest.phase is Retrying || emit == ingest.mode.emit,
                _ => false,
            },
            _ => true,
        },
{
}

/// No message is lost: one the journal does not hold yet is captured, and one
/// that only keeps the connection up is captured whatever the journal holds.
pub proof fn law_every_new_message_is_captured(
    ingest: IngestView,
    state: StateView,
    cancelled: bool,
    record: RecordView,
)
    requires
        ingest.phase is Reading,
        is_upkeep(record) || ingest.matched == ingest.captured.len(),
    ensures
        ({
            let next = ingest_stepped(ingest, state, cancelled, IngestEventView::Record(record));
            &&& next.1 == (IngestActionView::Capture {
                input: InputView::Sse(record),
                emit: ingest.mode.emit,
            })
            &&& next.0.matched == ingest.matched
        }),
{
}

/// A connection that fails is journaled as failed, and reading goes on as if
/// the stream had ended.
pub proof fn law_a_failed_connection_is_noted(
    ingest: IngestView,
    state: StateView,
    cancelled: bool,
    message: Text,
)
    ensures
        ({
            let noted = IngestActionView::Capture {
                input: InputView::TransportError(message),
                emit: ingest.mode.emit,
            };
            let failed = ingest_stepped(
                IngestView { phase: IngestPhaseView::Reading, ..ingest },
                state,
                cancelled,
                IngestEventView::StreamFailed(message),
            );
            let unopened = ingest_stepped(
                IngestView { phase: IngestPhaseView::Opening, ..ingest },
                state,
                cancelled,
                IngestEventView::Opened(Err(message)),
            );
            let ended = ingest_stepped(
                IngestView { phase: IngestPhaseView::Reading, ..ingest },
                state,
                cancelled,
                IngestEventView::StreamEnded,
            );
            &&& failed.1 == noted
            &&& unopened.1 == noted
            &&& ingest_stepped(
                failed.0,
                state,
                cancelled,
                IngestEventView::Captured(Ok(())),
            ).1 == ended.1
        }),
{
}

/// Reading starts where the journal stops: a run whose end is not known has its
/// stream opened and matched against exactly what the journal holds of it, and
/// one whose end is known is stamped as reconciled without a word.
pub proof fn law_reading_starts_where_the_journal_stops(
    state: StateView,
    run: Text,
    mode: IngestMode,
)
    ensures
        ({
            let begun = ingest_started(state, run, mode);
            &&& begun.0.run == run
            &&& begun.0.mode == mode
            &&& begun.0.matched == 0
            &&& begun.0.captured == captured_content(state.entries, run)
            &&& begun.0.terminal is None
            &&& !begun.0.saw_content
            &&& state.runs[run].terminal is None ==> begun.1 is OpenStream && begun.0.phase
                is Opening
            &&& state.runs[run].terminal matches Some(status) ==> (if mode.strict
                && !state.runs[run].prompt {
                begun.1 == IngestActionView::Finish(
                    Err(
                        ErrorView::Cursor {
                            message: "original Cursor prompt unavailable for "@ + run,
                            rejected: false,
                        },
                    ),
                )
            } else {
                &&& begun.1 == (IngestActionView::Capture {
                    input: InputView::Reconciled,
                    emit: false,
                })
                &&& begun.0.phase == (IngestPhaseView::Stamping { status })
            })
        }),
{
}

/// What the journal holds of a run's stream: its own messages, in order, but
/// for those that only keep the connection up.
pub proof fn law_the_captured_stream_is_the_runs_own(
    entries: Seq<EntryView>,
    entry: EntryView,
    run: Text,
)
    ensures
        captured_content(Seq::empty(), run).len() == 0,
        captured_content(entries.push(entry), run) == (match entry.input {
            InputView::Sse(record) => if entry.run == Some(run) && !is_upkeep(record) {
                captured_content(entries, run).push(record)
            } else {
                captured_content(entries, run)
            },
            _ => captured_content(entries, run),
        }),
{
    assert(entries.push(entry).drop_last() =~= entries);
}

/// A reconciled run is answered by how it ended: one that finished ends the
/// turn, one that was cancelled answers so, one that failed fails the turn by
/// name. Reading back a history answers for any end.
pub proof fn law_a_reconciled_run_answers_its_end(
    ingest: IngestView,
    state: StateView,
    cancelled: bool,
    status: StatusView,
)
    requires
        status.is_terminal(),
    ensures
        ({
            let answered = ingest_stepped(
                IngestView { phase: IngestPhaseView::Reconciling { status }, ..ingest },
                state,
                cancelled,
                IngestEventView::Captured(Ok(())),
            ).1;
            let stamped = ingest_stepped(
                IngestView { phase: IngestPhaseView::Stamping { status }, ..ingest },
                state,
                cancelled,
                IngestEventView::Captured(Ok(())),
            ).1;
            &&& ingest.mode.strict ==> answered == IngestActionView::Finish(Ok(StopReason::EndTurn))
            &&& status is Finished ==> answered == IngestActionView::Finish(Ok(StopReason::EndTurn))
            &&& status is Cancelled && !ingest.mode.strict ==> answered == IngestActionView::Finish(
                Ok(StopReason::Cancelled),
            )
            &&& status is Error && !ingest.mode.strict ==> answered == IngestActionView::Finish(
                Err(
                    ErrorView::Cursor {
                        message: "cursor run "@ + ingest.run + " ended in "@ + "Error"@,
                        rejected: false,
                    },
                ),
            )
            &&& status is Cancelled ==> stamped == IngestActionView::Finish(
                Ok(StopReason::Cancelled),
            )
            &&& !(status is Cancelled) ==> stamped == answered
        }),
{
}

/// A result ends the run's stream once nothing more follows: its status is
/// remembered while reading goes on, and when the stream says it is done the
/// run is reconciled with that status, and answered by it.
pub proof fn law_a_streamed_result_is_reconciled(
    ingest: IngestView,
    state: StateView,
    cancelled: bool,
    result: RecordView,
    done: RecordView,
)
    requires
        decoded(result) is Result,
        decoded(done) is Done,
        ingest.matched >= ingest.captured.len() || !ingest.mode.strict,
        ingest.mode.strict ==> state.runs[ingest.run].prompt && state.runs[ingest.run].terminal
            is Some,
    ensures
        ({
            let ended = ingest_stepped(
                IngestView { phase: IngestPhaseView::Recording { record: result }, ..ingest },
                state,
                cancelled,
                IngestEventView::Captured(Ok(())),
            );
            let over = ingest_stepped(
                IngestView { phase: IngestPhaseView::Recording { record: done }, ..ended.0 },
                state,
                cancelled,
                IngestEventView::Captured(Ok(())),
            );
            let status = decoded(result)->Result_status;
            &&& ended.1 is Read
            &&& ended.0.terminal == Some(status)
            &&& over.1 == (IngestActionView::Capture {
                input: InputView::Reconciled,
                emit: ingest.mode.emit,
            })
            &&& over.0.phase == (IngestPhaseView::Reconciling { status })
        }),
{
}

/// A message that neither ends the run nor the stream is read past, and changes
/// nothing of what is known of the run's end.
pub proof fn law_other_messages_are_read_past(
    ingest: IngestView,
    state: StateView,
    cancelled: bool,
    record: RecordView,
)
    requires
        ingest.phase == (IngestPhaseView::Recording { record }),
        !(decoded(record) is Result),
        !(decoded(record) is Error),
        !(decoded(record) is Done),
    ensures
        ({
            let next = ingest_stepped(
                ingest,
                state,
                cancelled,
                IngestEventView::Captured(Ok(())),
            );
            &&& next.1 is Read
            &&& next.0.phase is Reading
            &&& next.0.terminal == ingest.terminal
            &&& next.0.saw_content == (ingest.saw_content || !is_upkeep(record))
        }),
{
}

/// A stream that is not there yet is opened again, up to four times, a little
/// later, as long as nothing was read of it; a stop while waiting gives up on
/// the stream but not on the run.
pub proof fn law_a_stream_not_there_yet_is_opened_again(
    ingest: IngestView,
    state: StateView,
    cancelled: bool,
    record: RecordView,
)
    requires
        record.event == "error"@,
        decoded(record) matches EventView::Error { code, .. } && code == Some(
            "stream_unavailable"@,
        ),
    ensures
        ({
            let next = ingest_stepped(
                IngestView { phase: IngestPhaseView::Recording { record }, ..ingest },
                state,
                cancelled,
                IngestEventView::Captured(Ok(())),
            );
            let again = ingest_stepped(
                next.0,
                state,
                cancelled,
                IngestEventView::Slept { cancelled: false },
            );
            &&& !ingest.saw_content && ingest.mode.attempt < 4 ==> {
                &&& next.1 == (IngestActionView::Sleep { millis: 400 })
                &&& again.0.mode.attempt == ingest.mode.attempt + 1
                &&& again.0.mode.emit == ingest.mode.emit
                &&& again.0.mode.strict == ingest.mode.strict
                &&& again.0.run == ingest.run
                &&& state.runs[ingest.run].terminal is None ==> again.1 is OpenStream
            }
            &&& ingest.saw_content || ingest.mode.attempt >= 4 ==> !(next.1 is Sleep)
        }),
{
}

/// A run that lost its stream is polled until its end is known, every two
/// seconds and 450 times at most. Its end is reconciled; a stop meanwhile is
/// journaled as an interruption and answered; running out fails by name.
pub proof fn law_a_lost_run_is_polled(
    ingest: IngestView,
    state: StateView,
    cancelled: bool,
    attempt: usize,
    outcome: OutcomeView,
)
    requires
        !ingest.mode.strict,
        attempt < 450,
    ensures
        ({
            let polled = ingest_stepped(
                IngestView { phase: IngestPhaseView::Polling { attempt }, ..ingest },
                state,
                cancelled,
                IngestEventView::Polled(Ok(outcome)),
            );
            let rested = ingest_stepped(
                IngestView { phase: IngestPhaseView::Pausing { attempt }, ..ingest },
                state,
                cancelled,
                IngestEventView::Slept { cancelled },
            );
            &&& outcome.status.is_terminal() ==> {
                &&& polled.1 == (IngestActionView::Capture {
                    input: InputView::Reconciled,
                    emit: ingest.mode.emit,
                })
                &&& polled.0.phase == (IngestPhaseView::Reconciling { status: outcome.status })
            }
            &&& !outcome.status.is_terminal() ==> {
                &&& polled.1 == (IngestActionView::Sleep { millis: 2000 })
                &&& polled.0.phase == (IngestPhaseView::Pausing { attempt })
            }
            &&& attempt == 449 ==> rested.1 == IngestActionView::Finish(
                Err(
                    ErrorView::Cursor {
                        message: "Cursor run "@ + ingest.run + " did not reach a terminal state"@,
                        rejected: false,
                    },
                ),
            )
            &&& attempt < 449 && !cancelled ==> rested.1 is Poll && rested.0.phase
                == (IngestPhaseView::Polling { attempt: (attempt + 1) as usize })
            &&& attempt < 449 && cancelled ==> {
                &&& rested.1 == (IngestActionView::Capture {
                    input: InputView::Interrupted("cancelled while disconnected"@),
                    emit: ingest.mode.emit,
                })
                &&& ingest_stepped(
                    rested.0,
                    state,
                    cancelled,
                    IngestEventView::Captured(Ok(())),
                ).1 == IngestActionView::Finish(Ok(StopReason::Cancelled))
            }
        }),
{
}

/// A stream that has gone quiet has its run polled once: an end is reconciled,
/// a run that goes on is read on, unless the client has stopped; then it is
/// polled to its end. Reading back a history takes quiet for the end.
pub proof fn law_a_quiet_stream_is_checked(
    ingest: IngestView,
    state: StateView,
    cancelled: bool,
    outcome: OutcomeView,
)
    requires
        ingest.phase is Reading,
    ensures
        ({
            let quiet = ingest_stepped(ingest, state, cancelled, IngestEventView::Quiet);
            let ended = ingest_stepped(ingest, state, cancelled, IngestEventView::StreamEnded);
            let checked = ingest_stepped(
                quiet.0,
                state,
                cancelled,
                IngestEventView::Polled(Ok(outcome)),
            );
            &&& ingest.mode.strict ==> quiet == ended
            &&& !ingest.mode.strict ==> {
                &&& quiet.1 is Poll
                &&& outcome.status.is_terminal() ==> checked.1 == (IngestActionView::Capture {
                    input: InputView::Reconciled,
                    emit: ingest.mode.emit,
                }) && checked.0.phase == (IngestPhaseView::Reconciling { status: outcome.status })
                &&& !outcome.status.is_terminal() && !cancelled ==> checked.1 is Read
                    && checked.0.phase is Reading && checked.0.terminal == ingest.terminal
                &&& !outcome.status.is_terminal() && cancelled && ingest.terminal is None
                    ==> checked.1 is Poll && checked.0.phase == (IngestPhaseView::Polling {
                    attempt: 0,
                })
            }
        }),
{
}

/// Reading back a history needs all of it: a stream that no longer holds what
/// the journal does, one that never tells the run's end, and a run whose prompt
/// is not known each fail by name.
pub proof fn law_a_history_is_read_back_whole(
    ingest: IngestView,
    state: StateView,
    cancelled: bool,
)
    requires
        ingest.phase is Reading,
        ingest.mode.strict,
    ensures
        ({
            let ended = ingest_stepped(ingest, state, cancelled, IngestEventView::StreamEnded).1;
            let complete = state.runs[ingest.run].prompt && state.runs[ingest.run].terminal is Some;
            if ingest.matched < ingest.captured.len() {
                ended == IngestActionView::Finish(
                    Err(
                        ErrorView::Cursor {
                            message: "Cursor no longer exposes the captured stream prefix for "@
                                + ingest.run,
                            rejected: false,
                        },
                    ),
                )
            } else if ingest.terminal is None {
                ended == IngestActionView::Finish(
                    Err(
                        ErrorView::Cursor {
                            message: "Cursor cannot fully hydrate run "@ + ingest.run
                                + ": complete native stream unavailable"@,
                            rejected: false,
                        },
                    ),
                )
            } else if !complete {
                ended == IngestActionView::Finish(
                    Err(
                        ErrorView::Cursor {
                            message: "Cursor cannot hydrate the original prompt for run "@
                                + ingest.run,
                            rejected: false,
                        },
                    ),
                )
            } else {
                ended == (IngestActionView::Capture {
                    input: InputView::Reconciled,
                    emit: ingest.mode.emit,
                })
            }
        }),
{
}

/// A failed capture, and a poll that failed, end ingestion with that failure.
/// The run, what the journal held of it and, but for reopening, the mode stay
/// the same throughout.
pub proof fn law_a_failure_ends_ingestion(
    ingest: IngestView,
    state: StateView,
    cancelled: bool,
    event: IngestEventView,
)
    requires
        ingest_wf(ingest),
        ingest_expects(ingest.phase, event),
    ensures
        ({
            let next = ingest_stepped(ingest, state, cancelled, event);
            &&& event matches IngestEventView::Captured(Err(error)) ==> next.1
                == IngestActionView::Finish(Err(error))
            &&& event matches IngestEventView::Polled(Err(error)) ==> next.1
                == IngestActionView::Finish(Err(error))
            &&& next.0.run == ingest.run
            &&& next.0.mode != ingest.mode ==> ingest.phase is Retrying && event
                == (IngestEventView::Slept { cancelled: false })
            &&& next.0.captured != ingest.captured ==> ingest.phase is Retrying && event
                == (IngestEventView::Slept { cancelled: false })
        }),
{
}

/// The ways a run is read: the client waiting for it is the only one that
/// hears of it, and only reading back a history insists on all of it.
pub proof fn law_who_hears_of_a_run()
    ensures
        IngestMode::live_mode().emit,
        !IngestMode::live_mode().strict,
        !IngestMode::mirror_mode().emit,
        !IngestMode::mirror_mode().strict,
        !IngestMode::hydrate_mode().emit,
        IngestMode::hydrate_mode().strict,
        IngestMode::live_mode().attempt == 0 && IngestMode::mirror_mode().attempt == 0
            && IngestMode::hydrate_mode().attempt == 0,
{
}

/// A poll's answer is journaled as it came before it is read, and answered as
/// it reads: its status and its text, or why it cannot be read.
pub proof fn law_a_polls_answer_is_journaled_then_read(
    failures: usize,
    raw: Text,
    error: ErrorView,
)
    ensures
        ({
            let answered = poll_stepped(
                PollView::Asking { failures },
                PollEventView::Answered(Ok(raw)),
            );
            let read = poll_stepped(answered.0, PollEventView::Captured(Ok(()))).1;
            let failed = poll_stepped(answered.0, PollEventView::Captured(Err(error))).1;
            &&& answered.1 == (PollActionView::Capture { raw })
            &&& poll_of(raw) matches Ok(outcome) ==> read == PollActionView::Finish(Ok(outcome))
            &&& poll_of(raw) matches Err(refusal) ==> read == PollActionView::Finish(
                Err(
                    ErrorView::Cursor {
                        message: replay_error_message(refusal),
                        rejected: false,
                    },
                ),
            )
            &&& failed == PollActionView::Finish(Err(error))
        }),
{
}

/// A failed poll is tried again two seconds later, five times; a stop meanwhile,
/// and a sixth failure, are answered with the failure.
pub proof fn law_a_failed_poll_is_tried_again(failures: usize, failure: ErrorView)
    requires
        failures <= 5,
    ensures
        ({
            let failed = poll_stepped(
                PollView::Asking { failures },
                PollEventView::Answered(Err(failure)),
            );
            &&& failures == 5 ==> failed.1 == PollActionView::Finish(Err(failure))
            &&& failures < 5 ==> {
                &&& failed.1 == (PollActionView::Sleep { millis: 2000 })
                &&& poll_stepped(failed.0, PollEventView::Slept { cancelled: true }).1
                    == PollActionView::Finish(Err(failure))
                &&& poll_stepped(failed.0, PollEventView::Slept { cancelled: false }) == (
                    PollView::Asking { failures: (failures + 1) as usize },
                    PollActionView::Ask,
                )
            }
        }),
{
}

/// The wait for an agent ends with the run Cursor gave, or with the refusal it
/// gave; only an agent that is busy is waited for, two seconds at a time, and
/// 450 times at most.
pub proof fn law_the_wait_for_an_agent(
    attempt: usize,
    cancelled: bool,
    run: Text,
    message: Text,
    rejected: bool,
    at: int,
)
    requires
        attempt < 450,
    ensures
        ({
            let refused = queue_stepped(
                Queue::Asking { attempt },
                cancelled,
                QueueEventView::Answered(Err(ErrorView::Cursor { message, rejected })),
            );
            let given_up = ErrorView::Cursor {
                message: "the prompt was cancelled while waiting for the agent to be free"@,
                rejected: true,
            };
            let rested = queue_stepped(
                Queue::Waiting { attempt },
                cancelled,
                QueueEventView::Slept { cancelled: false },
            );
            &&& queue_stepped(
                Queue::Asking { attempt },
                cancelled,
                QueueEventView::Answered(Ok(run)),
            ).1 == QueueActionView::Finish(Ok(run))
            &&& occurs_at(message, "agent_busy"@, at) ==> refused == (
                Queue::Waiting { attempt },
                QueueActionView::Sleep { millis: 2000 },
            )
            &&& (forall|k: int| !#[trigger] occurs_at(message, "agent_busy"@, k)) ==> refused.1
                == QueueActionView::Finish(Err(ErrorView::Cursor { message, rejected }))
            &&& queue_stepped(
                Queue::Waiting { attempt },
                cancelled,
                QueueEventView::Slept { cancelled: true },
            ).1 == QueueActionView::Finish(Err(given_up))
            &&& attempt < 449 && !cancelled ==> rested == (
                Queue::Asking { attempt: (attempt + 1) as usize },
                QueueActionView::Ask,
            )
            &&& attempt < 449 && cancelled ==> rested.1 == QueueActionView::Finish(Err(given_up))
            &&& attempt == 449 ==> rested.1 == QueueActionView::Finish(
                Err(
                    ErrorView::Cursor {
                        message: "the agent stayed busy for "@ + decimal_text(900) + " seconds"@,
                        rejected: true,
                    },
                ),
            )
        }),
{
}

/// A failure that does not come from Cursor is no busy agent: it ends the wait.
pub proof fn law_only_cursor_says_an_agent_is_busy(
    attempt: usize,
    cancelled: bool,
    error: ErrorView,
)
    requires
        !(error is Cursor),
    ensures
        queue_stepped(
            Queue::Asking { attempt },
            cancelled,
            QueueEventView::Answered(Err(error)),
        ).1 == QueueActionView::Finish(Err(error)),
{
}

/// What reading a run waits for, phase by phase; what is over waits for
/// nothing.
pub proof fn law_what_reading_a_run_waits_for(
    phase: IngestPhaseView,
    event: IngestEventView,
    poll: PollView,
    polled: PollEventView,
    queue: Queue,
    queued: QueueEventView,
)
    ensures
        phase is Finished ==> !ingest_expects(phase, event),
        phase is Opening ==> (ingest_expects(phase, event) <==> event is Opened),
        phase is Reading ==> (ingest_expects(phase, event) <==> event is Record || event
            is StreamFailed || event is StreamEnded || event is Quiet),
        phase is Retrying || phase is Pausing ==> (ingest_expects(phase, event) <==> event
            is Slept),
        phase is Checking || phase is Polling ==> (ingest_expects(phase, event) <==> event
            is Polled),
        phase is Stamping || phase is NotingFailure || phase is Recording || phase is Interrupting
            || phase is Reconciling ==> (ingest_expects(phase, event) <==> event is Captured),
        poll is Finished ==> !poll_expects(poll, polled),
        poll is Asking ==> (poll_expects(poll, polled) <==> polled is Answered),
        poll is Waiting ==> (poll_expects(poll, polled) <==> polled is Slept),
        poll is Capturing ==> (poll_expects(poll, polled) <==> polled is Captured),
        queue is Finished ==> !queue_expects(queue, queued),
        queue is Asking ==> (queue_expects(queue, queued) <==> queued is Answered),
        queue is Waiting ==> (queue_expects(queue, queued) <==> queued is Slept),
{
}

/// What ingestion has captured is the message that was read, event, data and
/// id.
pub proof fn law_a_captured_message_is_the_one_read(
    ingest: IngestView,
    state: StateView,
    cancelled: bool,
    record: NativeRecord,
    action: IngestAction,
)
    requires
        ingest.phase is Reading,
        ingest.matched == ingest.captured.len(),
        action.deep_view() == ingest_stepped(
            ingest,
            state,
            cancelled,
            IngestEvent::Record(record).deep_view(),
        ).1,
    ensures
        action matches IngestAction::Capture { input: JournalInput::Sse(taken), emit } && {
            &&& taken.event@ == record.event@
            &&& taken.data@ == record.data@
            &&& taken.id.deep_view() == record.id.deep_view()
            &&& emit == ingest.mode.emit
        },
{
}

/// What a matched message says of the run's end counts as if it had just been
/// captured: a result that the journal already holds tells the run's end, and
/// any other message leaves it as it was.
pub proof fn law_a_matched_result_tells_the_end(
    ingest: IngestView,
    state: StateView,
    cancelled: bool,
    record: RecordView,
)
    requires
        ingest.phase is Reading,
        !is_upkeep(record),
        ingest.matched < ingest.captured.len(),
        ingest.captured[ingest.matched as int] == record,
    ensures
        ({
            let next = ingest_stepped(ingest, state, cancelled, IngestEventView::Record(record)).0;
            &&& next.matched == ingest.matched + 1
            &&& next.saw_content == ingest.saw_content
            &&& decoded(record) is Result ==> next.terminal == Some(decoded(record)->Result_status)
            &&& !(decoded(record) is Result) ==> next.terminal == ingest.terminal
        }),
{
}

/// A stream that differs from what the journal holds of it is refused by name.
pub proof fn law_a_differing_stream_is_refused(
    ingest: IngestView,
    state: StateView,
    cancelled: bool,
    record: RecordView,
)
    requires
        ingest.phase is Reading,
        !is_upkeep(record),
        ingest.matched < ingest.captured.len(),
        ingest.captured[ingest.matched as int] != record,
    ensures
        ingest_stepped(ingest, state, cancelled, IngestEventView::Record(record)).1
            == IngestActionView::Finish(
            Err(
                ErrorView::Cursor {
                    message: "Cursor stream prefix cannot be reconciled for "@ + ingest.run
                        + "; refusing incomplete history"@,
                    rejected: false,
                },
            ),
        ),
{
}

/// A failure of Cursor is told in its own words, and as a rejection exactly when
/// it is one.
pub proof fn law_a_failure_is_told_in_its_own_words(failure: CursorFailure)
    ensures
        failure_view(failure) == (ErrorView::Cursor {
            message: failure.message@,
            rejected: failure.rejected,
        }),
        SessionError::Cursor(failure).deep_view() == failure_view(failure),
{
}

} // verus!

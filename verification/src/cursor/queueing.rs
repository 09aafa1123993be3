//! Opening a follow-up run behind whatever run is already going.
//!
//! Cursor allows one active run per agent and answers `agent_busy` otherwise,
//! and the other run is not necessarily ours: the agent's page on cursor.com
//! drives the same agent. A busy agent is something to wait behind, not an
//! error. A client's cancel abandons the wait.

use crate::cursor::ingest::POLL_INTERVAL_MILLIS;
use crate::cursor::model::CursorRunId;
use crate::cursor::polling::failure_view;
use crate::cursor::session::{CursorFailure, ErrorView, SessionError};
use crate::decimal::{decimal, decimal_text};
use crate::text::{contains, contains_text, Text};
use vstd::prelude::*;

verus! {

/// How long a prompt waits behind a run something else started before giving
/// up, in poll intervals.
pub const BUSY_ATTEMPTS: usize = 450;

/// The wait for an agent to be free.
#[derive(Debug, Clone, Copy, PartialEq, Eq, Structural)]
pub enum Queue {
    /// Cursor is being asked for a run.
    Asking {
        /// Requests made before this one.
        attempt: usize,
    },
    /// The agent is busy; the next request waits.
    Waiting {
        /// Requests made before the one just refused.
        attempt: usize,
    },
    /// The wait is over.
    Finished,
}

/// What the host is to do next.
#[derive(Debug, PartialEq, Eq)]
pub enum QueueAction {
    /// Ask Cursor to open the run.
    Ask,
    /// Wait, unless the client cancels first.
    Sleep {
        /// How long.
        millis: u64,
    },
    /// The wait is over.
    Finish(Result<CursorRunId, SessionError>),
}

/// What came of an action.
#[derive(Debug, PartialEq, Eq)]
pub enum QueueEvent {
    /// Cursor's answer.
    Answered(Result<CursorRunId, CursorFailure>),
    /// The wait is over.
    Slept {
        /// The client cancelled during it.
        cancelled: bool,
    },
}

/// The mathematical model of [`QueueAction`].
pub enum QueueActionView {
    Ask,
    Sleep { millis: u64 },
    Finish(Result<Text, ErrorView>),
}

/// The mathematical model of [`QueueEvent`].
pub enum QueueEventView {
    Answered(Result<Text, ErrorView>),
    Slept { cancelled: bool },
}

impl DeepView for QueueAction {
    type V = QueueActionView;

    open spec fn deep_view(&self) -> QueueActionView {
        match self {
            QueueAction::Ask => QueueActionView::Ask,
            QueueAction::Sleep { millis } => QueueActionView::Sleep { millis: *millis },
            QueueAction::Finish(outcome) => QueueActionView::Finish(
                match outcome {
                    Ok(run) => Ok(run.deep_view()),
                    Err(error) => Err(error.deep_view()),
                },
            ),
        }
    }
}

impl DeepView for QueueEvent {
    type V = QueueEventView;

    open spec fn deep_view(&self) -> QueueEventView {
        match self {
            QueueEvent::Answered(answer) => QueueEventView::Answered(
                match answer {
                    Ok(run) => Ok(run.deep_view()),
                    Err(failure) => Err(failure_view(*failure)),
                },
            ),
            QueueEvent::Slept { cancelled } => QueueEventView::Slept { cancelled: *cancelled },
        }
    }
}

/// The rejection of a prompt whose client stopped waiting.
pub open spec fn abandoned() -> ErrorView {
    ErrorView::Cursor {
        message: "the prompt was cancelled while waiting for the agent to be free"@,
        rejected: true,
    }
}

/// The rejection of a prompt whose agent never became free.
pub open spec fn stayed_busy() -> ErrorView {
    ErrorView::Cursor {
        message: "the agent stayed busy for "@ + decimal_text(
            (BUSY_ATTEMPTS as nat) * (POLL_INTERVAL_MILLIS as nat / 1000),
        ) + " seconds"@,
        rejected: true,
    }
}

/// Whether an answer says the agent is busy.
pub open spec fn is_busy(error: ErrorView) -> bool {
    match error {
        ErrorView::Cursor { message, .. } => contains_text(message, "agent_busy"@),
        _ => false,
    }
}

/// The agent is asked, unless the client has stopped.
pub open spec fn queue_asking(attempt: usize, cancelled: bool) -> (Queue, QueueActionView) {
    if cancelled {
        (Queue::Finished, QueueActionView::Finish(Err(abandoned())))
    } else {
        (Queue::Asking { attempt }, QueueActionView::Ask)
    }
}

/// Requests are counted.
pub open spec fn queue_wf(queue: Queue) -> bool {
    match queue {
        Queue::Asking { attempt } => attempt < BUSY_ATTEMPTS,
        Queue::Waiting { attempt } => attempt < BUSY_ATTEMPTS,
        Queue::Finished => true,
    }
}

/// Whether an event answers what the queue is waiting for.
pub open spec fn queue_expects(queue: Queue, event: QueueEventView) -> bool {
    match queue {
        Queue::Asking { .. } => event is Answered,
        Queue::Waiting { .. } => event is Slept,
        Queue::Finished => false,
    }
}

/// What the queue does with an event. `cancelled` says whether the client has
/// stopped the turn by now.
pub open spec fn queue_stepped(queue: Queue, cancelled: bool, event: QueueEventView) -> (
    Queue,
    QueueActionView,
) {
    match (queue, event) {
        (Queue::Asking { .. }, QueueEventView::Answered(Ok(run))) => (
            Queue::Finished,
            QueueActionView::Finish(Ok(run)),
        ),
        (Queue::Asking { attempt }, QueueEventView::Answered(Err(error))) => if is_busy(error) {
            (
                Queue::Waiting { attempt },
                QueueActionView::Sleep { millis: POLL_INTERVAL_MILLIS },
            )
        } else {
            (Queue::Finished, QueueActionView::Finish(Err(error)))
        },
        (Queue::Waiting { attempt }, QueueEventView::Slept { cancelled: stopped }) => if stopped {
            (Queue::Finished, QueueActionView::Finish(Err(abandoned())))
        } else if attempt + 1 == BUSY_ATTEMPTS {
            (Queue::Finished, QueueActionView::Finish(Err(stayed_busy())))
        } else {
            queue_asking((attempt + 1) as usize, cancelled)
        },
        _ => (Queue::Finished, QueueActionView::Ask),
    }
}

fn rejection(message: String) -> (error: SessionError)
    ensures
        error.deep_view() == (ErrorView::Cursor { message: message@, rejected: true }),
{
    SessionError::Cursor(CursorFailure { message, rejected: true })
}

impl Queue {
    /// Whether an event answers what the queue is waiting for.
    pub fn expects(&self, event: &QueueEvent) -> (expected: bool)
        ensures
            expected == queue_expects(*self, event.deep_view()),
    {
        match self {
            Queue::Asking { .. } => matches!(event, QueueEvent::Answered(_)),
            Queue::Waiting { .. } => matches!(event, QueueEvent::Slept { .. }),
            Queue::Finished => false,
        }
    }

    fn ask(attempt: usize, cancelled: bool) -> (next: (Queue, QueueAction))
        ensures
            (next.0, next.1.deep_view()) == queue_asking(attempt, cancelled),
    {
        if cancelled {
            let message: String =
                "the prompt was cancelled while waiting for the agent to be free".to_owned();
            (Queue::Finished, QueueAction::Finish(Err(rejection(message))))
        } else {
            (Queue::Asking { attempt }, QueueAction::Ask)
        }
    }

    /// Begin waiting for the agent.
    pub fn start(cancelled: bool) -> (begun: (Queue, QueueAction))
        ensures
            queue_wf(begun.0),
            (begun.0, begun.1.deep_view()) == queue_asking(0, cancelled),
    {
        Queue::ask(0, cancelled)
    }

    /// Take in what came of the last action. `cancelled` says whether the
    /// client has stopped the turn by now.
    pub fn step(self, cancelled: bool, event: QueueEvent) -> (next: (Queue, QueueAction))
        requires
            queue_wf(self),
            queue_expects(self, event.deep_view()),
        ensures
            queue_wf(next.0),
            (next.0, next.1.deep_view()) == queue_stepped(self, cancelled, event.deep_view()),
    {
        match (self, event) {
            (Queue::Asking { .. }, QueueEvent::Answered(Ok(run))) => (
                Queue::Finished,
                QueueAction::Finish(Ok(run)),
            ),
            (Queue::Asking { attempt }, QueueEvent::Answered(Err(failure))) => {
                if contains(failure.message.as_str(), "agent_busy") {
                    (
                        Queue::Waiting { attempt },
                        QueueAction::Sleep { millis: POLL_INTERVAL_MILLIS },
                    )
                } else {
                    (Queue::Finished, QueueAction::Finish(Err(SessionError::Cursor(failure))))
                }
            },
            (Queue::Waiting { attempt }, QueueEvent::Slept { cancelled: stopped }) => {
                if stopped {
                    return Queue::ask(attempt, true);
                }
                if attempt + 1 == BUSY_ATTEMPTS {
                    let mut message: String = "the agent stayed busy for ".to_owned();
                    message.append(
                        decimal(
                            (BUSY_ATTEMPTS as u64) * (POLL_INTERVAL_MILLIS / 1000),
                        ).as_str(),
                    );
                    message.append(" seconds");
                    return (Queue::Finished, QueueAction::Finish(Err(rejection(message))));
                }
                Queue::ask(attempt + 1, cancelled)
            },
            _ => (Queue::Finished, QueueAction::Ask),
        }
    }
}

/// Every prompt that was not handed over is told so: whatever ends the wait
/// without a run, other than Cursor's own refusal, is a rejection.
pub proof fn law_a_given_up_wait_is_a_rejection(
    queue: Queue,
    cancelled: bool,
    event: QueueEventView,
)
    requires
        queue_wf(queue),
        queue_expects(queue, event),
        event is Slept,
    ensures
        queue_stepped(queue, cancelled, event).1 matches QueueActionView::Finish(outcome) ==> (
        outcome matches Err(ErrorView::Cursor { rejected, .. }) && rejected),
{
}

/// A busy agent is never an error by itself: it is waited for.
pub proof fn law_a_busy_agent_is_waited_for(queue: Queue, cancelled: bool, error: ErrorView)
    requires
        queue is Asking,
        is_busy(error),
    ensures
        queue_stepped(queue, cancelled, QueueEventView::Answered(Err(error))).1
            == (QueueActionView::Sleep { millis: POLL_INTERVAL_MILLIS }),
{
}

} // verus!

//! One poll of a running turn, tolerant of a provider that stumbles.

use crate::cursor::ingest::POLL_INTERVAL_MILLIS;
use crate::cursor::journal::{poll_of, read_poll, replay_error_message};
use crate::cursor::model::{OutcomeView, RunOutcome};
use crate::cursor::session::{cursor_error, CursorFailure, ErrorView, SessionError};
use crate::text::Text;
use vstd::prelude::*;

verus! {

/// Consecutive poll failures tolerated before the turn takes the error.
pub const POLL_ERROR_TOLERANCE: usize = 5;

/// One poll.
#[derive(Debug, PartialEq, Eq)]
pub enum Poll {
    /// Cursor is being asked.
    Asking {
        /// Failures so far.
        failures: usize,
    },
    /// A failure is being waited out.
    Waiting {
        /// Failures before this one.
        failures: usize,
        /// This one.
        failure: CursorFailure,
    },
    /// The answer is being captured.
    Capturing {
        /// The answer as it arrived.
        raw: String,
    },
    /// The poll is over.
    Finished,
}

/// What the host is to do next.
#[derive(Debug, PartialEq, Eq)]
pub enum PollAction {
    /// Ask Cursor for the run's record.
    Ask,
    /// Wait, unless the client cancels first.
    Sleep {
        /// How long.
        millis: u64,
    },
    /// Capture the answer before it is interpreted.
    Capture {
        /// The answer as it arrived.
        raw: String,
    },
    /// The poll is over.
    Finish(Result<RunOutcome, SessionError>),
}

/// What came of an action.
#[derive(Debug, PartialEq, Eq)]
pub enum PollEvent {
    /// Cursor's answer.
    Answered(Result<String, CursorFailure>),
    /// The wait is over.
    Slept {
        /// The client cancelled during it.
        cancelled: bool,
    },
    /// The capture succeeded or failed.
    Captured(Result<(), SessionError>),
}

/// The mathematical model of [`Poll`].
pub enum PollView {
    Asking { failures: usize },
    Waiting { failures: usize, failure: ErrorView },
    Capturing { raw: Text },
    Finished,
}

/// The mathematical model of [`PollAction`].
pub enum PollActionView {
    Ask,
    Sleep { millis: u64 },
    Capture { raw: Text },
    Finish(Result<OutcomeView, ErrorView>),
}

/// The mathematical model of [`PollEvent`].
pub enum PollEventView {
    Answered(Result<Text, ErrorView>),
    Slept { cancelled: bool },
    Captured(Result<(), ErrorView>),
}

/// The model of a failure as the error it becomes.
pub open spec fn failure_view(failure: CursorFailure) -> ErrorView {
    ErrorView::Cursor { message: failure.message@, rejected: failure.rejected }
}

impl DeepView for Poll {
    type V = PollView;

    open spec fn deep_view(&self) -> PollView {
        match self {
            Poll::Asking { failures } => PollView::Asking { failures: *failures },
            Poll::Waiting { failures, failure } => PollView::Waiting {
                failures: *failures,
                failure: failure_view(*failure),
            },
            Poll::Capturing { raw } => PollView::Capturing { raw: raw@ },
            Poll::Finished => PollView::Finished,
        }
    }
}

impl DeepView for PollAction {
    type V = PollActionView;

    open spec fn deep_view(&self) -> PollActionView {
        match self {
            PollAction::Ask => PollActionView::Ask,
            PollAction::Sleep { millis } => PollActionView::Sleep { millis: *millis },
            PollAction::Capture { raw } => PollActionView::Capture { raw: raw@ },
            PollAction::Finish(outcome) => PollActionView::Finish(
                match outcome {
                    Ok(outcome) => Ok(outcome.deep_view()),
                    Err(error) => Err(error.deep_view()),
                },
            ),
        }
    }
}

impl DeepView for PollEvent {
    type V = PollEventView;

    open spec fn deep_view(&self) -> PollEventView {
        match self {
            PollEvent::Answered(answer) => PollEventView::Answered(
                match answer {
                    Ok(raw) => Ok(raw@),
                    Err(failure) => Err(failure_view(*failure)),
                },
            ),
            PollEvent::Slept { cancelled } => PollEventView::Slept { cancelled: *cancelled },
            PollEvent::Captured(outcome) => PollEventView::Captured(
                match outcome {
                    Ok(_) => Ok(()),
                    Err(error) => Err(error.deep_view()),
                },
            ),
        }
    }
}

/// A poll is never asked more often than failures are tolerated.
pub open spec fn poll_wf(poll: PollView) -> bool {
    match poll {
        PollView::Asking { failures } => failures <= POLL_ERROR_TOLERANCE,
        PollView::Waiting { failures, .. } => failures < POLL_ERROR_TOLERANCE,
        _ => true,
    }
}

/// Whether an event answers what the poll is waiting for.
pub open spec fn poll_expects(poll: PollView, event: PollEventView) -> bool {
    match poll {
        PollView::Asking { .. } => event is Answered,
        PollView::Waiting { .. } => event is Slept,
        PollView::Capturing { .. } => event is Captured,
        PollView::Finished => false,
    }
}

/// How a captured answer reads.
pub open spec fn answer_read(raw: Text) -> Result<OutcomeView, ErrorView> {
    match poll_of(raw) {
        Ok(outcome) => Ok(outcome),
        Err(error) => Err(cursor_error(replay_error_message(error))),
    }
}

/// What a poll does with an event.
pub open spec fn poll_stepped(poll: PollView, event: PollEventView) -> (PollView, PollActionView) {
    match (poll, event) {
        (PollView::Asking { .. }, PollEventView::Answered(Ok(raw))) => (
            PollView::Capturing { raw },
            PollActionView::Capture { raw },
        ),
        (PollView::Asking { failures }, PollEventView::Answered(Err(failure))) => if failures
            == POLL_ERROR_TOLERANCE {
            (PollView::Finished, PollActionView::Finish(Err(failure)))
        } else {
            (
                PollView::Waiting { failures, failure },
                PollActionView::Sleep { millis: POLL_INTERVAL_MILLIS },
            )
        },
        (PollView::Waiting { failures, failure }, PollEventView::Slept { cancelled }) => if
            cancelled {
            (PollView::Finished, PollActionView::Finish(Err(failure)))
        } else {
            (PollView::Asking { failures: (failures + 1) as usize }, PollActionView::Ask)
        },
        (PollView::Capturing { raw }, PollEventView::Captured(outcome)) => (
            PollView::Finished,
            PollActionView::Finish(
                match outcome {
                    Ok(_) => answer_read(raw),
                    Err(error) => Err(error),
                },
            ),
        ),
        _ => (PollView::Finished, PollActionView::Ask),
    }
}

impl Poll {
    /// Whether an event answers what the poll is waiting for.
    pub fn expects(&self, event: &PollEvent) -> (expected: bool)
        ensures
            expected == poll_expects(self.deep_view(), event.deep_view()),
    {
        match self {
            Poll::Asking { .. } => matches!(event, PollEvent::Answered(_)),
            Poll::Waiting { .. } => matches!(event, PollEvent::Slept { .. }),
            Poll::Capturing { .. } => matches!(event, PollEvent::Captured(_)),
            Poll::Finished => false,
        }
    }

    /// Begin a poll.
    pub fn start() -> (begun: (Poll, PollAction))
        ensures
            begun.0.deep_view() == (PollView::Asking { failures: 0 }),
            begun.1.deep_view() == PollActionView::Ask,
            poll_wf(begun.0.deep_view()),
    {
        (Poll::Asking { failures: 0 }, PollAction::Ask)
    }

    /// Take in what came of the last action.
    pub fn step(self, event: PollEvent) -> (next: (Poll, PollAction))
        requires
            poll_wf(self.deep_view()),
            poll_expects(self.deep_view(), event.deep_view()),
        ensures
            poll_wf(next.0.deep_view()),
            (next.0.deep_view(), next.1.deep_view()) == poll_stepped(
                self.deep_view(),
                event.deep_view(),
            ),
    {
        match (self, event) {
            (Poll::Asking { .. }, PollEvent::Answered(Ok(raw))) => (
                Poll::Capturing { raw: raw.clone() },
                PollAction::Capture { raw },
            ),
            (Poll::Asking { failures }, PollEvent::Answered(Err(failure))) => {
                if failures == POLL_ERROR_TOLERANCE {
                    (Poll::Finished, PollAction::Finish(Err(SessionError::Cursor(failure))))
                } else {
                    (
                        Poll::Waiting { failures, failure },
                        PollAction::Sleep { millis: POLL_INTERVAL_MILLIS },
                    )
                }
            },
            (Poll::Waiting { failures, failure }, PollEvent::Slept { cancelled }) => {
                if cancelled {
                    (Poll::Finished, PollAction::Finish(Err(SessionError::Cursor(failure))))
                } else {
                    (Poll::Asking { failures: failures + 1 }, PollAction::Ask)
                }
            },
            (Poll::Capturing { raw }, PollEvent::Captured(Ok(_))) => {
                match read_poll(raw.as_str()) {
                    Ok(outcome) => (Poll::Finished, PollAction::Finish(Ok(outcome))),
                    Err(error) => (
                        Poll::Finished,
                        PollAction::Finish(Err(SessionError::cursor(error.message()))),
                    ),
                }
            },
            (Poll::Capturing { .. }, PollEvent::Captured(Err(error))) => (
                Poll::Finished,
                PollAction::Finish(Err(error)),
            ),
            _ => (Poll::Finished, PollAction::Ask),
        }
    }
}

/// A poll answers or fails after at most [`POLL_ERROR_TOLERANCE`] failures it
/// waits out: every wait brings it closer to its last attempt.
pub proof fn law_poll_gives_up(poll: PollView, event: PollEventView)
    requires
        poll_wf(poll),
        poll_expects(poll, event),
    ensures
        poll_stepped(poll, event).0 matches PollView::Waiting { failures, .. }
            ==> poll == (PollView::Asking { failures }) && failures < POLL_ERROR_TOLERANCE,
        poll_stepped(poll, event).0 matches PollView::Asking { failures: now }
            ==> (poll matches PollView::Waiting { failures, .. } && now == failures + 1),
{
}

} // verus!

//! Stopping a session: which runs are asked to stop, and what the client is
//! told.
//!
//! The stop is felt locally at once. The remote half is best-effort where it
//! can only guess, and honest where it was refused: every run found gets its
//! own attempt, however the others land, and a listing that fails costs the
//! remote stop only.

use crate::cursor::model::{CursorAgentId, CursorRunId, ListingView, RunListing};
use crate::cursor::polling::failure_view;
use crate::cursor::registry::{
    cancel_plan, current_ids, current_runs, is_current, CancelPlan, CancelView,
};
use crate::cursor::session::{CursorFailure, ErrorView, SessionError, SessionState, StateView};
use crate::text::Text;
use vstd::prelude::*;

verus! {

/// The first of some attempts that failed.
pub open spec fn first_failure(outcomes: Seq<Result<(), CursorFailure>>) -> Option<ErrorView>
    decreases outcomes.len(),
{
    if outcomes.len() == 0 {
        None
    } else {
        match outcomes[0] {
            Ok(_) => first_failure(outcomes.skip(1)),
            Err(failure) => Some(failure_view(failure)),
        }
    }
}

/// What the client is told of the attempts: their first failure, if any
/// failed.
pub fn cancel_answer(outcomes: Vec<Result<(), CursorFailure>>) -> (answer: Result<(), SessionError>)
    ensures
        answer is Ok <==> forall|i: int|
            0 <= i < outcomes@.len() ==> (#[trigger] outcomes@[i]) is Ok,
        match answer {
            Ok(_) => first_failure(outcomes@) is None,
            Err(error) => first_failure(outcomes@) == Some(error.deep_view()),
        },
{
    let mut outcomes: Vec<Result<(), CursorFailure>> = outcomes;
    let ghost all = outcomes@;
    let mut answer: Result<(), SessionError> = Ok(());
    assert(all.skip(all.len() as int) =~= Seq::<Result<(), CursorFailure>>::empty());
    while outcomes.len() > 0
        invariant
            outcomes@.len() <= all.len(),
            outcomes@ == all.take(outcomes@.len() as int),
            match answer {
                Ok(_) => first_failure(all.skip(outcomes@.len() as int)) is None,
                Err(error) => first_failure(all.skip(outcomes@.len() as int)) == Some(
                    error.deep_view(),
                ),
            },
        decreases outcomes@.len(),
    {
        let ghost count = outcomes@.len() as int;
        if let Some(outcome) = outcomes.pop() {
            proof {
                assert(outcome == all[count - 1]);
                assert(all.skip(count - 1)[0] == outcome);
                assert(all.skip(count - 1).skip(1) =~= all.skip(count));
                assert(outcomes@ =~= all.take(count - 1));
            }
            if let Err(failure) = outcome {
                answer = Err(SessionError::Cursor(failure));
            }
        }
    }
    proof {
        assert(all.skip(0) =~= all);
        lemma_first_failure(all);
    }
    answer
}

proof fn lemma_first_failure(outcomes: Seq<Result<(), CursorFailure>>)
    ensures
        first_failure(outcomes) is None <==> forall|i: int|
            0 <= i < outcomes.len() ==> (#[trigger] outcomes[i]) is Ok,
    decreases outcomes.len(),
{
    if outcomes.len() > 0 {
        let rest = outcomes.skip(1);
        lemma_first_failure(rest);
        if outcomes[0] is Ok && first_failure(rest) is None {
            assert forall|i: int| 0 <= i < outcomes.len() implies (#[trigger] outcomes[i]) is Ok by {
                if i > 0 {
                    assert(outcomes[i] == rest[i - 1]);
                }
            }
        }
        if forall|i: int| 0 <= i < outcomes.len() ==> (#[trigger] outcomes[i]) is Ok {
            assert(outcomes[0] is Ok);
            assert forall|i: int| 0 <= i < rest.len() implies (#[trigger] rest[i]) is Ok by {
                assert(rest[i] == outcomes[i + 1]);
            }
        }
    }
}

/// Where a stop is.
#[derive(Debug, PartialEq, Eq)]
pub enum Stop {
    /// Cursor is asked which runs are current.
    Listing {
        /// The agent.
        agent: CursorAgentId,
    },
    /// Runs are being cancelled.
    Cancelling {
        /// How many.
        count: usize,
    },
    /// The stop is answered.
    Finished,
}

/// What the host is to do next.
#[derive(Debug, PartialEq, Eq)]
pub enum StopAction {
    /// List the agent's runs.
    ListRuns {
        /// The agent.
        agent: CursorAgentId,
    },
    /// Cancel each of these runs, whatever comes of the others.
    CancelAll {
        /// The agent.
        agent: CursorAgentId,
        /// The runs.
        runs: Vec<CursorRunId>,
    },
    /// The stop is answered.
    Finish(Result<(), SessionError>),
}

/// What came of an action.
#[derive(Debug, PartialEq, Eq)]
pub enum StopEvent {
    /// The agent's runs.
    Listed(Result<Vec<RunListing>, CursorFailure>),
    /// What came of cancelling each run, in the order they were named.
    Cancelled(Vec<Result<(), CursorFailure>>),
}

/// The mathematical model of [`Stop`].
pub enum StopView {
    Listing { agent: Text },
    Cancelling { count: nat },
    Finished,
}

/// The mathematical model of [`StopAction`].
pub enum StopActionView {
    ListRuns { agent: Text },
    CancelAll { agent: Text, runs: Seq<Text> },
    Finish(Option<ErrorView>),
}

impl DeepView for Stop {
    type V = StopView;

    open spec fn deep_view(&self) -> StopView {
        match self {
            Stop::Listing { agent } => StopView::Listing { agent: agent.deep_view() },
            Stop::Cancelling { count } => StopView::Cancelling { count: *count as nat },
            Stop::Finished => StopView::Finished,
        }
    }
}

impl DeepView for StopAction {
    type V = StopActionView;

    open spec fn deep_view(&self) -> StopActionView {
        match self {
            StopAction::ListRuns { agent } => StopActionView::ListRuns {
                agent: agent.deep_view(),
            },
            StopAction::CancelAll { agent, runs } => StopActionView::CancelAll {
                agent: agent.deep_view(),
                runs: runs.deep_view(),
            },
            StopAction::Finish(answer) => StopActionView::Finish(
                match answer {
                    Ok(_) => None,
                    Err(error) => Some(error.deep_view()),
                },
            ),
        }
    }
}

/// Cancelling some runs; without any, there is nothing to wait for.
pub open spec fn cancelling(agent: Text, runs: Seq<Text>) -> (StopView, StopActionView) {
    if runs.len() == 0 {
        (StopView::Finished, StopActionView::Finish(None))
    } else {
        (
            StopView::Cancelling { count: runs.len() },
            StopActionView::CancelAll { agent, runs },
        )
    }
}

/// How a stop begins: with the run this process is streaming, with the runs
/// Cursor says are current, or with nothing while there is no agent.
pub open spec fn stop_started(state: StateView) -> (StopView, StopActionView) {
    match cancel_plan(state) {
        CancelView::Nothing => (StopView::Finished, StopActionView::Finish(None)),
        CancelView::Run { agent, run } => cancelling(agent, seq![run]),
        CancelView::Current { agent } => (
            StopView::Listing { agent },
            StopActionView::ListRuns { agent },
        ),
    }
}

/// Whether an event answers what a stop is waiting for: one outcome for each
/// run.
pub open spec fn stop_expects(stop: StopView, event: StopEvent) -> bool {
    match stop {
        StopView::Listing { .. } => event is Listed,
        StopView::Cancelling { count } => event matches StopEvent::Cancelled(outcomes)
            && outcomes@.len() == count,
        StopView::Finished => false,
    }
}

/// What a stop does with an event.
pub open spec fn stop_stepped(stop: StopView, event: StopEvent) -> (StopView, StopActionView) {
    match (stop, event) {
        (StopView::Listing { agent }, StopEvent::Listed(Ok(listings))) => cancelling(
            agent,
            current_ids(listings.deep_view()),
        ),
        (_, StopEvent::Cancelled(outcomes)) => (
            StopView::Finished,
            StopActionView::Finish(first_failure(outcomes@)),
        ),
        _ => (StopView::Finished, StopActionView::Finish(None)),
    }
}

impl Stop {
    fn cancel_all(agent: CursorAgentId, runs: Vec<CursorRunId>) -> (next: (Stop, StopAction))
        ensures
            (next.0.deep_view(), next.1.deep_view()) == cancelling(
                agent.deep_view(),
                runs.deep_view(),
            ),
    {
        if runs.len() == 0 {
            return (Stop::Finished, StopAction::Finish(Ok(())));
        }
        (Stop::Cancelling { count: runs.len() }, StopAction::CancelAll { agent, runs })
    }

    /// Stop the session's turn, and begin stopping its runs.
    pub fn start(state: &mut SessionState) -> (begun: (Stop, StopAction))
        ensures
            final(state).deep_view() == (StateView { cancelled: true, ..old(state).deep_view() }),
            (begun.0.deep_view(), begun.1.deep_view()) == stop_started(old(state).deep_view()),
    {
        match state.cancel() {
            CancelPlan::Nothing => (Stop::Finished, StopAction::Finish(Ok(()))),
            CancelPlan::Run { agent, run } => {
                let mut runs: Vec<CursorRunId> = Vec::new();
                runs.push(run);
                assert(runs.deep_view() =~= seq![run.deep_view()]);
                Self::cancel_all(agent, runs)
            },
            CancelPlan::Current { agent } => (
                Stop::Listing { agent: agent.clone() },
                StopAction::ListRuns { agent },
            ),
        }
    }

    /// Whether an event answers what the stop is waiting for.
    pub fn expects(&self, event: &StopEvent) -> (expected: bool)
        ensures
            expected == stop_expects(self.deep_view(), *event),
    {
        match self {
            Stop::Listing { .. } => matches!(event, StopEvent::Listed(_)),
            Stop::Cancelling { count } => match event {
                StopEvent::Cancelled(outcomes) => outcomes.len() == *count,
                StopEvent::Listed(_) => false,
            },
            Stop::Finished => false,
        }
    }

    /// Take in what came of the last action.
    pub fn step(self, event: StopEvent) -> (next: (Stop, StopAction))
        requires
            stop_expects(self.deep_view(), event),
        ensures
            (next.0.deep_view(), next.1.deep_view()) == stop_stepped(self.deep_view(), event),
    {
        match (self, event) {
            (Stop::Listing { agent }, StopEvent::Listed(Ok(listings))) => {
                let runs: Vec<CursorRunId> = current_runs(&listings);
                Self::cancel_all(agent, runs)
            },
            (_, StopEvent::Cancelled(outcomes)) => (
                Stop::Finished,
                StopAction::Finish(cancel_answer(outcomes)),
            ),
            _ => (Stop::Finished, StopAction::Finish(Ok(()))),
        }
    }
}

/// A stop that cannot find out which runs are current is still a stop: the
/// client is told of success.
pub proof fn law_a_failed_listing_costs_only_the_remote_stop(agent: Text, failure: CursorFailure)
    ensures
        stop_stepped(StopView::Listing { agent }, StopEvent::Listed(Err(failure)))
            == (StopView::Finished, StopActionView::Finish(None)),
{
}

/// Every run in progress gets its own attempt, and no other run does.
pub proof fn law_every_current_run_is_attempted(agent: Text, listings: Vec<RunListing>, run: Text)
    ensures
        ({
            let next = stop_stepped(StopView::Listing { agent }, StopEvent::Listed(Ok(listings)));
            let attempted = next.1 matches StopActionView::CancelAll { runs, .. } && runs.contains(
                run,
            );
            attempted <==> exists|i: int|
                0 <= i < listings.deep_view().len() && (#[trigger] listings.deep_view()[i]).id
                    == run && listings.deep_view()[i].status.in_progress()
        }),
{
    let all: Seq<ListingView> = listings.deep_view();
    let kept = all.filter(is_current());
    let ids = current_ids(all);
    if ids.contains(run) {
        let k = ids.index_of(run);
        assert(kept.contains(kept[k]));
        all.lemma_filter_pred(is_current(), k);
        all.lemma_filter_contains_rev(is_current(), kept[k]);
        let i = all.index_of(kept[k]);
        assert(all[i].id == run);
    }
    if exists|i: int|
        0 <= i < all.len() && (#[trigger] all[i]).id == run && all[i].status.in_progress() {
        let i = choose|i: int|
            0 <= i < all.len() && (#[trigger] all[i]).id == run && all[i].status.in_progress();
        all.lemma_filter_contains(is_current(), i);
        let k = kept.index_of(all[i]);
        assert(ids[k] == run);
    }
}

} // verus!

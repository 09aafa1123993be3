//! Catching up the runs an agent was given elsewhere.
//!
//! The agent's page on cursor.com drives the same agent, so a session's view
//! forks from the conversation unless those runs are mirrored. They go through
//! the same journal path as local prompts, oldest first, and the client is
//! asked to load the recovered history once.

use crate::cursor::ingest::about_run;
use crate::cursor::journal::{EntryView, JournalEntry};
use crate::cursor::model::{same_run, CursorRunId, ListingView, RunListing};
use crate::cursor::projection::{history_of, history_projection};
use crate::cursor::session::{cursor_error, ErrorView, SessionError, SessionState, StateView};
use crate::cursor::turn::{is_reconciled, run_reconciled};
use crate::text::Text;
use vstd::prelude::*;

verus! {

/// The runs of the journal's first `count` entries that are not reconciled
/// anywhere in the journal, in the order they first appear.
pub open spec fn pending_upto(entries: Seq<EntryView>, count: nat) -> Seq<Text>
    decreases count,
{
    if count == 0 {
        Seq::empty()
    } else {
        let before = pending_upto(entries, (count - 1) as nat);
        match entries[count - 1].run {
            Some(run) => if !is_reconciled(entries, run) && !before.contains(run) {
                before.push(run)
            } else {
                before
            },
            None => before,
        }
    }
}

/// The journal's runs that are not reconciled, in the order they first appear.
pub open spec fn pending_runs(entries: Seq<EntryView>) -> Seq<Text> {
    pending_upto(entries, entries.len())
}

/// The listed runs newer than the watermark, newest first. Without a watermark
/// nothing counts as newer: the history is already rendered, or unknowable.
pub open spec fn newer_runs(listed: Seq<Text>, watermark: Option<Text>) -> Seq<Text>
    decreases listed.len(),
{
    if listed.len() == 0 || watermark is None || watermark == Some(listed[0]) {
        Seq::empty()
    } else {
        seq![listed[0]] + newer_runs(listed.skip(1), watermark)
    }
}

/// The ids of a run list.
pub open spec fn listed_ids(listings: Seq<ListingView>) -> Seq<Text> {
    listings.map_values(|listing: ListingView| listing.id)
}

/// Picks the pending runs the provider's list leaves out.
pub open spec fn is_unlisted(listed: Seq<Text>, current: Option<Text>) -> spec_fn(Text) -> bool {
    |run: Text| !listed.contains(run) && current != Some(run)
}

/// Picks the listed runs to catch up.
pub open spec fn is_wanted(pending: Seq<Text>, newer: Seq<Text>, current: Option<Text>) -> spec_fn(
    Text,
) -> bool {
    |run: Text| current != Some(run) && (pending.contains(run) || newer.contains(run))
}

/// The runs to catch up. A pending run the provider's list leaves out still
/// has to recover, so those come first; the listed ones follow, oldest first.
pub open spec fn runs_to_mirror(
    entries: Seq<EntryView>,
    listed: Seq<Text>,
    watermark: Option<Text>,
    current: Option<Text>,
) -> Seq<Text> {
    let pending = pending_runs(entries);
    pending.filter(is_unlisted(listed, current)) + listed.reverse().filter(
        is_wanted(pending, newer_runs(listed, watermark), current),
    )
}

fn contains_run(runs: &Vec<CursorRunId>, run: &CursorRunId) -> (found: bool)
    ensures
        found == runs.deep_view().contains(run.deep_view()),
{
    let ghost all = runs.deep_view();
    let mut i: usize = 0;
    while i < runs.len()
        invariant
            i <= runs@.len(),
            all == runs.deep_view(),
            forall|k: int| 0 <= k < i ==> #[trigger] all[k] != run.deep_view(),
        decreases runs@.len() - i,
    {
        assert(all[i as int] == runs@[i as int].deep_view());
        if runs[i].same(run) {
            assert(all[i as int] == run.deep_view());
            return true;
        }
        i = i + 1;
    }
    false
}

fn pending(entries: &Vec<JournalEntry>) -> (runs: Vec<CursorRunId>)
    ensures
        runs.deep_view() == pending_runs(entries.deep_view()),
{
    let ghost all = entries.deep_view();
    let mut runs: Vec<CursorRunId> = Vec::new();
    assert(runs.deep_view() =~= Seq::<Text>::empty());
    let mut i: usize = 0;
    while i < entries.len()
        invariant
            i <= entries@.len(),
            all == entries.deep_view(),
            runs.deep_view() == pending_upto(all, i as nat),
        decreases entries@.len() - i,
    {
        assert(all[i as int] == entries@[i as int].deep_view());
        if let Some(run) = &entries[i].run {
            if !run_reconciled(entries, run) && !contains_run(&runs, run) {
                let ghost before = runs.deep_view();
                runs.push(run.clone());
                assert(runs.deep_view() =~= before.push(run.deep_view()));
            }
        }
        i = i + 1;
    }
    runs
}

fn listing_ids(listings: &Vec<RunListing>) -> (ids: Vec<CursorRunId>)
    ensures
        ids.deep_view() == listed_ids(listings.deep_view()),
{
    let mut ids: Vec<CursorRunId> = Vec::new();
    let mut i: usize = 0;
    while i < listings.len()
        invariant
            i <= listings@.len(),
            ids@.len() == i,
            forall|k: int|
                0 <= k < i ==> (#[trigger] ids@[k]).deep_view() == listings@[k].id.deep_view(),
        decreases listings@.len() - i,
    {
        ids.push(listings[i].id.clone());
        i = i + 1;
    }
    assert(ids.deep_view() =~= listed_ids(listings.deep_view()));
    ids
}

fn newer(listed: &Vec<CursorRunId>, watermark: &Option<CursorRunId>) -> (runs: Vec<CursorRunId>)
    ensures
        runs.deep_view() == newer_runs(listed.deep_view(), watermark.deep_view()),
{
    let ghost all = listed.deep_view();
    let ghost mark = watermark.deep_view();
    let mut runs: Vec<CursorRunId> = Vec::new();
    assert(runs.deep_view() =~= Seq::<Text>::empty());
    let mut i: usize = 0;
    assert(all.skip(0) =~= all);
    assert(runs.deep_view() + newer_runs(all, mark) =~= newer_runs(all, mark));
    while i < listed.len()
        invariant
            i <= listed@.len(),
            all == listed.deep_view(),
            mark == watermark.deep_view(),
            newer_runs(all, mark) == runs.deep_view() + newer_runs(all.skip(i as int), mark),
        decreases listed@.len() - i,
    {
        assert(all.skip(i as int)[0] == listed@[i as int].deep_view());
        if watermark.is_none() || same_run(watermark.as_ref(), Some(&listed[i])) {
            assert(newer_runs(all, mark) =~= runs.deep_view());
            return runs;
        }
        let ghost before = runs.deep_view();
        let ghost id = listed@[i as int].deep_view();
        runs.push(listed[i].clone());
        proof {
            assert(all.skip(i as int).skip(1) =~= all.skip(i + 1));
            assert(runs.deep_view() =~= before.push(id));
            assert(before + (seq![id] + newer_runs(all.skip(i + 1), mark)) =~= before.push(id)
                + newer_runs(all.skip(i + 1), mark));
        }
        i = i + 1;
    }
    assert(newer_runs(all, mark) =~= runs.deep_view());
    runs
}

/// The runs to catch up, in order.
pub fn plan_mirror(
    entries: &Vec<JournalEntry>,
    listings: &Vec<RunListing>,
    watermark: &Option<CursorRunId>,
    current: &Option<CursorRunId>,
) -> (runs: Vec<CursorRunId>)
    ensures
        runs.deep_view() == runs_to_mirror(
            entries.deep_view(),
            listed_ids(listings.deep_view()),
            watermark.deep_view(),
            current.deep_view(),
        ),
{
    let listed: Vec<CursorRunId> = listing_ids(listings);
    let pending: Vec<CursorRunId> = pending(entries);
    let newer: Vec<CursorRunId> = newer(&listed, watermark);
    let ghost ids = listed.deep_view();
    let ghost waiting = pending.deep_view();
    let ghost unlisted = is_unlisted(ids, current.deep_view());
    let ghost wanted = is_wanted(waiting, newer.deep_view(), current.deep_view());
    let mut runs: Vec<CursorRunId> = Vec::new();
    let mut i: usize = 0;
    proof {
        reveal(Seq::filter);
        assert(runs.deep_view() =~= waiting.take(0).filter(unlisted));
    }
    while i < pending.len()
        invariant
            i <= pending@.len(),
            waiting == pending.deep_view(),
            ids == listed.deep_view(),
            unlisted == is_unlisted(ids, current.deep_view()),
            runs.deep_view() == waiting.take(i as int).filter(unlisted),
        decreases pending@.len() - i,
    {
        let ghost run = pending@[i as int].deep_view();
        let ghost before = runs.deep_view();
        proof {
            reveal(Seq::filter);
            assert(waiting.take(i + 1).drop_last() =~= waiting.take(i as int));
            assert(waiting.take(i + 1).last() == run);
        }
        if !contains_run(&listed, &pending[i]) && !same_run(current.as_ref(), Some(&pending[i])) {
            runs.push(pending[i].clone());
            assert(runs.deep_view() =~= before.push(run));
        }
        i = i + 1;
    }
    assert(waiting.take(i as int) =~= waiting);
    let ghost recovered = runs.deep_view();
    let ghost newest_last = ids.reverse();
    let mut left: usize = listed.len();
    proof {
        reveal(Seq::filter);
        assert(recovered + newest_last.take(0).filter(wanted) =~= recovered);
    }
    while left > 0
        invariant
            left <= listed@.len(),
            ids == listed.deep_view(),
            newest_last == ids.reverse(),
            waiting == pending.deep_view(),
            wanted == is_wanted(waiting, newer.deep_view(), current.deep_view()),
            runs.deep_view() == recovered + newest_last.take(ids.len() - left).filter(wanted),
        decreases left,
    {
        let ghost run = listed@[left - 1].deep_view();
        let ghost before = runs.deep_view();
        proof {
            reveal(Seq::filter);
            let next = newest_last.take(ids.len() - left + 1);
            assert(next.drop_last() =~= newest_last.take(ids.len() - left));
            assert(next.last() == ids[left - 1]);
        }
        left = left - 1;
        let id: &CursorRunId = &listed[left];
        if !same_run(current.as_ref(), Some(id)) && (contains_run(&pending, id) || contains_run(
            &newer,
            id,
        )) {
            runs.push(id.clone());
            proof {
                assert(runs.deep_view() =~= before.push(run));
                assert(before.push(run) =~= recovered + newest_last.take(
                    ids.len() - left - 1,
                ).filter(wanted).push(run));
            }
        }
    }
    assert(newest_last.take(ids.len() as int) =~= newest_last);
    runs
}

/// A run to catch up.
#[derive(Debug, PartialEq, Eq)]
pub struct MirrorRun {
    /// The run.
    pub run: CursorRunId,
    /// Whether the journal had already reconciled it.
    pub reconciled: bool,
}

/// The mathematical model of [`MirrorRun`].
pub struct MirrorView {
    pub run: Text,
    pub reconciled: bool,
}

impl DeepView for MirrorRun {
    type V = MirrorView;

    open spec fn deep_view(&self) -> MirrorView {
        MirrorView { run: self.run.deep_view(), reconciled: self.reconciled }
    }
}

/// The runs to catch up, with those the journal has already reconciled marked.
pub open spec fn marked(entries: Seq<EntryView>, runs: Seq<Text>) -> Seq<MirrorView> {
    runs.map_values(|run: Text| MirrorView { run, reconciled: is_reconciled(entries, run) })
}

fn mark(entries: &Vec<JournalEntry>, runs: &Vec<CursorRunId>) -> (plan: Vec<MirrorRun>)
    ensures
        plan.deep_view() == marked(entries.deep_view(), runs.deep_view()),
{
    let mut plan: Vec<MirrorRun> = Vec::new();
    let mut i: usize = 0;
    while i < runs.len()
        invariant
            i <= runs@.len(),
            plan@.len() == i,
            forall|k: int|
                0 <= k < i ==> (#[trigger] plan@[k]).deep_view() == (MirrorView {
                    run: runs@[k].deep_view(),
                    reconciled: is_reconciled(entries.deep_view(), runs@[k].deep_view()),
                }),
        decreases runs@.len() - i,
    {
        let reconciled: bool = run_reconciled(entries, &runs[i]);
        plan.push(MirrorRun { run: runs[i].clone(), reconciled });
        i = i + 1;
    }
    assert(plan.deep_view() =~= marked(entries.deep_view(), runs.deep_view()));
    plan
}

/// What catching up is waiting for.
#[derive(Debug, PartialEq, Eq)]
pub enum Backfill {
    /// The journal to be loaded.
    Loading,
    /// The agent's run list.
    Listing,
    /// A run to be ingested.
    Ingesting {
        /// The runs to catch up.
        runs: Vec<MirrorRun>,
        /// Which of them is being ingested.
        at: usize,
    },
    /// The host to be told that the history changed.
    Notifying,
    /// Nothing: catching up is over.
    Finished,
}

/// What the host is to do next.
#[derive(Debug, PartialEq, Eq)]
pub enum BackfillAction {
    /// Load the session's journal, if it is not loaded yet.
    LoadJournal,
    /// List the agent's runs, newest first.
    ListRuns,
    /// Ingest a run silently. A cancelled prompt must not cancel its recovery.
    Ingest {
        /// The run.
        run: CursorRunId,
    },
    /// Ask the host to load the recovered history.
    RequireReload,
    /// Catching up is over; whether there was anything to catch up.
    Finish(Result<bool, SessionError>),
}

/// What came of an action.
#[derive(Debug, PartialEq, Eq)]
pub enum BackfillEvent {
    /// An action that answers nothing more succeeded or failed.
    Done(Result<(), SessionError>),
    /// The agent's runs, newest first.
    Listed(Result<Vec<RunListing>, SessionError>),
}

/// The mathematical model of [`Backfill`].
pub enum BackfillView {
    Loading,
    Listing,
    Ingesting { runs: Seq<MirrorView>, at: nat },
    Notifying,
    Finished,
}

/// The mathematical model of [`BackfillAction`].
pub enum BackfillActionView {
    LoadJournal,
    ListRuns,
    Ingest { run: Text },
    RequireReload,
    Finish(Result<bool, ErrorView>),
}

/// The mathematical model of [`BackfillEvent`].
pub enum BackfillEventView {
    Done(Result<(), ErrorView>),
    Listed(Result<Seq<ListingView>, ErrorView>),
}

impl DeepView for Backfill {
    type V = BackfillView;

    open spec fn deep_view(&self) -> BackfillView {
        match self {
            Backfill::Loading => BackfillView::Loading,
            Backfill::Listing => BackfillView::Listing,
            Backfill::Ingesting { runs, at } => BackfillView::Ingesting {
                runs: runs.deep_view(),
                at: *at as nat,
            },
            Backfill::Notifying => BackfillView::Notifying,
            Backfill::Finished => BackfillView::Finished,
        }
    }
}

impl DeepView for BackfillAction {
    type V = BackfillActionView;

    open spec fn deep_view(&self) -> BackfillActionView {
        match self {
            BackfillAction::LoadJournal => BackfillActionView::LoadJournal,
            BackfillAction::ListRuns => BackfillActionView::ListRuns,
            BackfillAction::Ingest { run } => BackfillActionView::Ingest { run: run.deep_view() },
            BackfillAction::RequireReload => BackfillActionView::RequireReload,
            BackfillAction::Finish(outcome) => BackfillActionView::Finish(
                match outcome {
                    Ok(mirrored) => Ok(*mirrored),
                    Err(error) => Err(error.deep_view()),
                },
            ),
        }
    }
}

impl DeepView for BackfillEvent {
    type V = BackfillEventView;

    open spec fn deep_view(&self) -> BackfillEventView {
        match self {
            BackfillEvent::Done(outcome) => BackfillEventView::Done(
                match outcome {
                    Ok(_) => Ok(()),
                    Err(error) => Err(error.deep_view()),
                },
            ),
            BackfillEvent::Listed(outcome) => BackfillEventView::Listed(
                match outcome {
                    Ok(listings) => Ok(listings.deep_view()),
                    Err(error) => Err(error.deep_view()),
                },
            ),
        }
    }
}

/// What a step leads to.
pub struct BackfillStepped {
    pub backfill: BackfillView,
    pub state: StateView,
    pub action: BackfillActionView,
}

/// Catching up ends.
pub open spec fn backfill_finished(state: StateView, outcome: Result<bool, ErrorView>) ->
    BackfillStepped {
    BackfillStepped {
        backfill: BackfillView::Finished,
        state,
        action: BackfillActionView::Finish(outcome),
    }
}

/// Every run is reconciled. The client loads the recovered history once it can
/// be told in full, and is asked only once.
pub open spec fn mirrored(state: StateView) -> BackfillStepped {
    if history_of(state.entries) is Err || state.reload_pending {
        backfill_finished(state, Ok(true))
    } else {
        BackfillStepped {
            backfill: BackfillView::Notifying,
            state: StateView { reload_pending: true, ..state },
            action: BackfillActionView::RequireReload,
        }
    }
}

/// The next run that was not reconciled yet is ingested.
pub open spec fn mirror_from(state: StateView, runs: Seq<MirrorView>, at: nat) -> BackfillStepped
    decreases runs.len() - at,
{
    if at >= runs.len() {
        mirrored(state)
    } else {
        let next = runs[at as int];
        if !next.reconciled {
            BackfillStepped {
                backfill: BackfillView::Ingesting { runs, at },
                state,
                action: BackfillActionView::Ingest { run: next.run },
            }
        } else if is_reconciled(state.entries, next.run) {
            mirror_from(state, runs, at + 1)
        } else {
            backfill_finished(state, Err(unreconciled(next.run)))
        }
    }
}

/// The complaint that a run's ingestion left it unreconciled.
pub open spec fn unreconciled(run: Text) -> ErrorView {
    cursor_error("Cursor run "@ + run + " remains unreconciled"@)
}

/// Whether an event answers what catching up is waiting for.
pub open spec fn backfill_expects(backfill: BackfillView, event: BackfillEventView) -> bool {
    match backfill {
        BackfillView::Listing => event is Listed,
        BackfillView::Ingesting { runs, at } => event is Done && at < runs.len(),
        BackfillView::Finished => false,
        _ => event is Done,
    }
}

/// What catching up does with an event.
pub open spec fn backfill_stepped(
    backfill: BackfillView,
    state: StateView,
    current: Option<Text>,
    event: BackfillEventView,
) -> BackfillStepped {
    match (backfill, event) {
        (BackfillView::Notifying, BackfillEventView::Done(Err(error))) => backfill_finished(
            StateView { reload_pending: false, ..state },
            Err(error),
        ),
        (_, BackfillEventView::Done(Err(error))) => backfill_finished(state, Err(error)),
        (_, BackfillEventView::Listed(Err(error))) => backfill_finished(state, Err(error)),
        (BackfillView::Loading, _) => BackfillStepped {
            backfill: BackfillView::Listing,
            state,
            action: BackfillActionView::ListRuns,
        },
        (BackfillView::Listing, BackfillEventView::Listed(Ok(listings))) => {
            let runs = runs_to_mirror(
                state.entries,
                listed_ids(listings),
                state.last_run,
                current,
            );
            if runs.len() == 0 {
                backfill_finished(state, Ok(false))
            } else {
                mirror_from(state, marked(state.entries, runs), 0)
            }
        },
        (BackfillView::Ingesting { runs, at }, _) => if is_reconciled(
            state.entries,
            runs[at as int].run,
        ) {
            mirror_from(state, runs, at + 1)
        } else {
            backfill_finished(state, Err(unreconciled(runs[at as int].run)))
        },
        (BackfillView::Notifying, _) => backfill_finished(state, Ok(true)),
        _ => BackfillStepped { backfill, state, action: BackfillActionView::LoadJournal },
    }
}

impl Backfill {
    /// Whether an event answers what catching up is waiting for.
    pub fn expects(&self, event: &BackfillEvent) -> (expected: bool)
        ensures
            expected == backfill_expects(self.deep_view(), event.deep_view()),
    {
        match self {
            Backfill::Listing => matches!(event, BackfillEvent::Listed(_)),
            Backfill::Ingesting { runs, at } => *at < runs.len() && matches!(
                event,
                BackfillEvent::Done(_)
            ),
            Backfill::Finished => false,
            _ => matches!(event, BackfillEvent::Done(_)),
        }
    }

    /// Whether a step's answer is the one the model gives.
    pub open spec fn steps_to(
        next: (Backfill, BackfillAction),
        state: StateView,
        expected: BackfillStepped,
    ) -> bool {
        &&& next.0.deep_view() == expected.backfill
        &&& state == expected.state
        &&& next.1.deep_view() == expected.action
    }

    /// Begin catching up.
    pub fn start() -> (begun: (Backfill, BackfillAction))
        ensures
            begun.0.deep_view() == BackfillView::Loading,
            begun.1.deep_view() == BackfillActionView::LoadJournal,
    {
        (Backfill::Loading, BackfillAction::LoadJournal)
    }

    fn request_reload(state: &mut SessionState) -> (next: (Backfill, BackfillAction))
        ensures
            Backfill::steps_to(next, final(state).deep_view(), mirrored(old(state).deep_view())),
    {
        if history_projection(&state.journal_entries).is_err() || state.reload_pending {
            return (Backfill::Finished, BackfillAction::Finish(Ok(true)));
        }
        state.reload_pending = true;
        (Backfill::Notifying, BackfillAction::RequireReload)
    }

    fn give_up(run: &CursorRunId) -> (next: (Backfill, BackfillAction))
        ensures
            next.0.deep_view() == BackfillView::Finished,
            next.1.deep_view() == BackfillActionView::Finish(Err(unreconciled(run.deep_view()))),
    {
        let message: String = about_run("Cursor run ", run, " remains unreconciled");
        (Backfill::Finished, BackfillAction::Finish(Err(SessionError::cursor(message))))
    }

    fn mirror(state: &mut SessionState, runs: Vec<MirrorRun>, start: usize) -> (next: (
        Backfill,
        BackfillAction,
    ))
        ensures
            Backfill::steps_to(
                next,
                final(state).deep_view(),
                mirror_from(old(state).deep_view(), runs.deep_view(), start as nat),
            ),
    {
        let ghost all = runs.deep_view();
        let mut at: usize = start;
        while at < runs.len()
            invariant
                all == runs.deep_view(),
                *state == *old(state),
                mirror_from(state.deep_view(), all, start as nat) == mirror_from(
                    state.deep_view(),
                    all,
                    at as nat,
                ),
            decreases runs@.len() - at,
        {
            assert(all[at as int] == runs@[at as int].deep_view());
            if !runs[at].reconciled {
                let action = BackfillAction::Ingest { run: runs[at].run.clone() };
                return (Backfill::Ingesting { runs, at }, action);
            }
            if !run_reconciled(&state.journal_entries, &runs[at].run) {
                return Backfill::give_up(&runs[at].run);
            }
            at = at + 1;
        }
        Backfill::request_reload(state)
    }

    /// Take in what came of the last action. `current` is the run the caller's
    /// own turn is about.
    pub fn step(
        self,
        state: &mut SessionState,
        current: &Option<CursorRunId>,
        event: BackfillEvent,
    ) -> (next: (Backfill, BackfillAction))
        requires
            backfill_expects(self.deep_view(), event.deep_view()),
        ensures
            Backfill::steps_to(
                next,
                final(state).deep_view(),
                backfill_stepped(
                    self.deep_view(),
                    old(state).deep_view(),
                    current.deep_view(),
                    event.deep_view(),
                ),
            ),
    {
        match (self, event) {
            (Backfill::Notifying, BackfillEvent::Done(outcome)) => match outcome {
                Ok(_) => (Backfill::Finished, BackfillAction::Finish(Ok(true))),
                Err(error) => {
                    state.reload_pending = false;
                    (Backfill::Finished, BackfillAction::Finish(Err(error)))
                },
            },
            (_, BackfillEvent::Done(Err(error))) => (
                Backfill::Finished,
                BackfillAction::Finish(Err(error)),
            ),
            (_, BackfillEvent::Listed(Err(error))) => (
                Backfill::Finished,
                BackfillAction::Finish(Err(error)),
            ),
            (Backfill::Loading, _) => (Backfill::Listing, BackfillAction::ListRuns),
            (Backfill::Listing, BackfillEvent::Listed(Ok(listings))) => {
                let runs: Vec<CursorRunId> = plan_mirror(
                    &state.journal_entries,
                    &listings,
                    &state.last_run,
                    current,
                );
                if runs.len() == 0 {
                    assert(runs.deep_view().len() == 0);
                    return (Backfill::Finished, BackfillAction::Finish(Ok(false)));
                }
                let plan: Vec<MirrorRun> = mark(&state.journal_entries, &runs);
                Backfill::mirror(state, plan, 0)
            },
            (Backfill::Ingesting { runs, at }, _) => {
                let count: usize = runs.len();
                assert(at < count);
                assert(runs.deep_view()[at as int] == runs@[at as int].deep_view());
                if !run_reconciled(&state.journal_entries, &runs[at].run) {
                    return Backfill::give_up(&runs[at].run);
                }
                Backfill::mirror(state, runs, at + 1)
            },
            (backfill, _) => (backfill, BackfillAction::LoadJournal),
        }
    }
}

} // verus!

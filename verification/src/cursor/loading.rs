//! Reading a session back: its journal, and the whole of its history.
//!
//! A load answers only once the entire session is reconstructed. Sessions
//! older than the journal are only safe to load when every one of their runs
//! can still be fetched in full, original prompt included.

use crate::cursor::journal::{
    no_runs, EntryView, JournalEntry, JournalInput, ReplayErrorView, ReplayMachine, ReplayStep,
    Runs, StepView, replay_error_message,
};
use crate::cursor::model::{CursorRunId, ListingView, RunListing};
use crate::cursor::projection::{
    entry_projected, history_error_message, history_of, history_projection, project_entry,
    BatchView, HistoryBatch,
};
use crate::cursor::session::{cursor_error, ErrorView, SessionError, SessionState, StateView};
use crate::cursor::turn::{is_reconciled, run_reconciled};
use crate::text::Text;
use vstd::prelude::*;

verus! {

/// What replaying the journal's first `count` entries leaves, and the steps it
/// took.
pub open spec fn replayed_upto(entries: Seq<EntryView>, count: nat) -> Result<
    (Runs, Seq<StepView>),
    ReplayErrorView,
>
    decreases count,
{
    if count == 0 {
        Ok((no_runs(), Seq::empty()))
    } else {
        match replayed_upto(entries, (count - 1) as nat) {
            Err(error) => Err(error),
            Ok((runs, steps)) => {
                let projected = entry_projected(runs, entries[count - 1], entries);
                match projected.1 {
                    Err(error) => Err(error),
                    Ok(more) => Ok((projected.0, steps + more)),
                }
            },
        }
    }
}

proof fn lemma_replay_error_stays(entries: Seq<EntryView>, count: nat, more: nat)
    requires
        replayed_upto(entries, count) is Err,
        count <= more,
    ensures
        replayed_upto(entries, more) == replayed_upto(entries, count),
    decreases more,
{
    if count < more {
        lemma_replay_error_stays(entries, count, (more - 1) as nat);
    }
}

/// The session once its journal is read.
pub open spec fn journal_adopted(state: StateView, entries: Seq<EntryView>) -> StateView {
    match replayed_upto(entries, entries.len()) {
        Ok((runs, _)) => StateView { entries, runs, journal_loaded: true, ..state },
        Err(_) => state,
    }
}

impl SessionState {
    /// Take over a journal read from storage. What it takes to render it is
    /// handed back, for the host to bring its translation to the same point.
    /// A journal that cannot be replayed leaves the session as it was.
    pub fn adopt_journal(&mut self, entries: Vec<JournalEntry>) -> (outcome: Result<
        Vec<ReplayStep>,
        SessionError,
    >)
        ensures
            final(self).deep_view() == journal_adopted(
                old(self).deep_view(),
                entries.deep_view(),
            ),
            match outcome {
                Ok(steps) => replayed_upto(entries.deep_view(), entries@.len()) is Ok
                    && replayed_upto(entries.deep_view(), entries@.len())->Ok_0.1
                    == steps.deep_view(),
                Err(error) => replayed_upto(entries.deep_view(), entries@.len()) is Err
                    && error.deep_view() == cursor_error(
                    replay_error_message(
                        replayed_upto(entries.deep_view(), entries@.len())->Err_0,
                    ),
                ),
            },
    {
        let ghost all = entries.deep_view();
        let mut machine: ReplayMachine = ReplayMachine::default();
        let mut steps: Vec<ReplayStep> = Vec::new();
        assert(steps.deep_view() =~= Seq::<StepView>::empty());
        let mut i: usize = 0;
        while i < entries.len()
            invariant
                i <= entries@.len(),
                all == entries.deep_view(),
                *self == *old(self),
                replayed_upto(all, i as nat) == Ok::<(Runs, Seq<StepView>), ReplayErrorView>(
                    (machine.deep_view(), steps.deep_view()),
                ),
            decreases entries@.len() - i,
        {
            assert(all[i as int] == entries@[i as int].deep_view());
            let ghost before = steps.deep_view();
            match project_entry(&mut machine, &entries[i], &entries) {
                Ok(more) => {
                    let mut more = more;
                    let ghost added = more.deep_view();
                    steps.append(&mut more);
                    assert(steps.deep_view() =~= before + added);
                },
                Err(error) => {
                    proof {
                        lemma_replay_error_stays(all, (i + 1) as nat, all.len());
                    }
                    return Err(SessionError::cursor(error.message()));
                },
            }
            i = i + 1;
        }
        self.journal_entries = entries;
        self.machine = machine;
        self.journal_loaded = true;
        Ok(steps)
    }
}

/// Reading a session's journal, once per load.
#[derive(Debug, Clone, Copy, PartialEq, Eq, Structural)]
pub enum JournalRead {
    /// The journal is being read.
    Reading,
    /// The host's translation is being brought to the same point.
    Rebuilding,
    /// A session without a past records that its history begins here.
    Beginning,
    /// The journal is read, or could not be.
    Finished,
}

/// What the host is to do next.
#[derive(Debug, PartialEq, Eq)]
pub enum ReadAction {
    /// Read the journal.
    Read,
    /// Render these steps without telling the client.
    Rebuild {
        /// What replaying the journal rendered.
        steps: Vec<ReplayStep>,
    },
    /// Capture that history is known from its beginning.
    CaptureComplete,
    /// The journal is read, or could not be.
    Finish(Result<(), SessionError>),
}

/// What came of an action.
#[derive(Debug, PartialEq, Eq)]
pub enum ReadEvent {
    /// The journal, or why it could not be read.
    Read(Result<Vec<JournalEntry>, String>),
    /// The steps were rendered, or could not be.
    Rebuilt(Result<(), String>),
    /// The capture succeeded or failed.
    Captured(Result<(), SessionError>),
}

/// The mathematical model of [`ReadAction`].
pub enum ReadActionView {
    Read,
    Rebuild { steps: Seq<StepView> },
    CaptureComplete,
    Finish(Option<ErrorView>),
}

impl DeepView for ReadAction {
    type V = ReadActionView;

    open spec fn deep_view(&self) -> ReadActionView {
        match self {
            ReadAction::Read => ReadActionView::Read,
            ReadAction::Rebuild { steps } => ReadActionView::Rebuild { steps: steps.deep_view() },
            ReadAction::CaptureComplete => ReadActionView::CaptureComplete,
            ReadAction::Finish(outcome) => ReadActionView::Finish(
                match outcome {
                    Ok(_) => None,
                    Err(error) => Some(error.deep_view()),
                },
            ),
        }
    }
}

/// The reading, the session and what is to be done, after a step.
pub struct ReadStepped {
    pub read: JournalRead,
    pub state: StateView,
    pub action: ReadActionView,
}

/// Whether an event answers what a reading is waiting for.
pub open spec fn read_expects(read: JournalRead, event: ReadEvent) -> bool {
    match read {
        JournalRead::Reading => event is Read,
        JournalRead::Rebuilding => event is Rebuilt,
        JournalRead::Beginning => event is Captured,
        JournalRead::Finished => false,
    }
}

/// A reading that is over.
pub open spec fn read_finished(state: StateView, error: Option<ErrorView>) -> ReadStepped {
    ReadStepped { read: JournalRead::Finished, state, action: ReadActionView::Finish(error) }
}

/// How a reading begins. A journal that is loaded is not read again.
pub open spec fn read_started(state: StateView) -> ReadStepped {
    if state.journal_loaded {
        read_finished(state, None)
    } else {
        ReadStepped { read: JournalRead::Reading, state, action: ReadActionView::Read }
    }
}

/// What a reading does with an event. A session this process opened has no
/// past: it first captures that its history is complete, and only then has its
/// history begun.
pub open spec fn read_stepped(read: JournalRead, state: StateView, event: ReadEvent) ->
    ReadStepped {
    match event {
        ReadEvent::Read(Err(message)) => read_finished(state, Some(cursor_error(message@))),
        ReadEvent::Read(Ok(entries)) => {
            let adopted = journal_adopted(state, entries.deep_view());
            match replayed_upto(entries.deep_view(), entries@.len()) {
                Err(error) => read_finished(
                    adopted,
                    Some(cursor_error(replay_error_message(error))),
                ),
                Ok((_, steps)) => ReadStepped {
                    read: JournalRead::Rebuilding,
                    state: adopted,
                    action: ReadActionView::Rebuild { steps },
                },
            }
        },
        ReadEvent::Rebuilt(Err(message)) => read_finished(state, Some(cursor_error(message@))),
        ReadEvent::Rebuilt(Ok(_)) => if state.fresh {
            ReadStepped {
                read: JournalRead::Beginning,
                state,
                action: ReadActionView::CaptureComplete,
            }
        } else {
            read_finished(state, None)
        },
        ReadEvent::Captured(Err(error)) => read_finished(state, Some(error.deep_view())),
        ReadEvent::Captured(Ok(_)) => read_finished(StateView { fresh: false, ..state }, None),
    }
}

impl JournalRead {
    /// Whether a step's answer is the one the model gives.
    pub open spec fn steps_to(
        next: (JournalRead, ReadAction),
        state: StateView,
        expected: ReadStepped,
    ) -> bool {
        &&& next.0 == expected.read
        &&& state == expected.state
        &&& next.1.deep_view() == expected.action
    }

    fn finish(outcome: Result<(), SessionError>) -> (next: (JournalRead, ReadAction))
        ensures
            next.0 == JournalRead::Finished,
            next.1.deep_view() == ReadActionView::Finish(
                match outcome {
                    Ok(_) => None,
                    Err(error) => Some(error.deep_view()),
                },
            ),
    {
        (JournalRead::Finished, ReadAction::Finish(outcome))
    }

    /// Begin reading a session's journal.
    pub fn start(state: &SessionState) -> (begun: (JournalRead, ReadAction))
        ensures
            JournalRead::steps_to(begun, state.deep_view(), read_started(state.deep_view())),
    {
        if state.journal_loaded {
            Self::finish(Ok(()))
        } else {
            (JournalRead::Reading, ReadAction::Read)
        }
    }

    /// Whether an event answers what the reading is waiting for.
    pub fn expects(&self, event: &ReadEvent) -> (expected: bool)
        ensures
            expected == read_expects(*self, *event),
    {
        match self {
            JournalRead::Reading => matches!(event, ReadEvent::Read(_)),
            JournalRead::Rebuilding => matches!(event, ReadEvent::Rebuilt(_)),
            JournalRead::Beginning => matches!(event, ReadEvent::Captured(_)),
            JournalRead::Finished => false,
        }
    }

    /// Take in what came of the last action.
    pub fn step(self, state: &mut SessionState, event: ReadEvent) -> (next: (
        JournalRead,
        ReadAction,
    ))
        requires
            read_expects(self, event),
        ensures
            JournalRead::steps_to(
                next,
                final(state).deep_view(),
                read_stepped(self, old(state).deep_view(), event),
            ),
    {
        match event {
            ReadEvent::Read(Err(message)) => Self::finish(Err(SessionError::cursor(message))),
            ReadEvent::Read(Ok(entries)) => match state.adopt_journal(entries) {
                Ok(steps) => (JournalRead::Rebuilding, ReadAction::Rebuild { steps }),
                Err(error) => Self::finish(Err(error)),
            },
            ReadEvent::Rebuilt(Err(message)) => Self::finish(Err(SessionError::cursor(message))),
            ReadEvent::Rebuilt(Ok(_)) => {
                if state.fresh {
                    (JournalRead::Beginning, ReadAction::CaptureComplete)
                } else {
                    Self::finish(Ok(()))
                }
            },
            ReadEvent::Captured(Err(error)) => Self::finish(Err(error)),
            ReadEvent::Captured(Ok(_)) => {
                state.history_begun();
                Self::finish(Ok(()))
            },
        }
    }
}

/// A session's history begins only once the journal holds that it is complete,
/// and a journal is never asked to hold that twice: what has begun does not
/// begin again.
pub proof fn law_a_history_begins_once(read: JournalRead, state: StateView, event: ReadEvent)
    requires
        read_expects(read, event),
    ensures
        ({
            let next = read_stepped(read, state, event);
            &&& next.state.fresh ==> state.fresh
            &&& state.fresh && !next.state.fresh ==> (event matches ReadEvent::Captured(Ok(_)))
            &&& next.action is CaptureComplete ==> state.fresh
        }),
{
}

/// Whether history is known from its beginning.
pub open spec fn is_history_complete(entries: Seq<EntryView>) -> bool {
    exists|i: int| 0 <= i < entries.len() && (#[trigger] entries[i]).input is HistoryComplete
}

/// Whether a run's native history is captured in full.
pub open spec fn is_captured(state: StateView, run: Text) -> bool {
    state.runs[run].complete() && is_reconciled(state.entries, run)
}

/// The last run whose reconciliation is journaled.
pub open spec fn last_reconciled(entries: Seq<EntryView>) -> Option<Text>
    decreases entries.len(),
{
    if entries.len() == 0 {
        None
    } else if entries.last().input is Reconciled && entries.last().run is Some {
        entries.last().run
    } else {
        last_reconciled(entries.drop_last())
    }
}

/// What a load is waiting for.
#[derive(Debug)]
pub enum Load {
    /// The journal to be loaded.
    Loading,
    /// The agent's run list.
    Listing,
    /// A run to be hydrated.
    Hydrating {
        /// The runs to hydrate, oldest first.
        runs: Vec<CursorRunId>,
        /// Which of them is being hydrated.
        at: usize,
    },
    /// The journal to take that history is complete.
    Completing,
    /// The client to receive the history.
    Delivering {
        /// What replay knows of the delivered runs.
        machine: ReplayMachine,
    },
    /// The host to checkpoint the delivered history.
    Checkpointing {
        /// What replay knows of the delivered runs.
        machine: ReplayMachine,
        /// The last reconciled run.
        run: CursorRunId,
    },
    /// Nothing: the load is over.
    Finished,
}

/// What the host is to do next.
#[derive(Debug, PartialEq, Eq)]
pub enum LoadAction {
    /// Load the session's journal.
    LoadJournal,
    /// List the agent's runs, newest first.
    ListRuns,
    /// Ingest a run's complete history.
    Hydrate {
        /// The run.
        run: CursorRunId,
    },
    /// Capture that history is known from its beginning.
    CaptureComplete,
    /// Render the history from nothing and deliver it, each batch's turn
    /// reported as ended after its updates.
    Deliver {
        /// The history.
        batches: Vec<HistoryBatch>,
    },
    /// Mark the run as delivered in full.
    Checkpoint {
        /// The run.
        run: CursorRunId,
    },
    /// The load is over.
    Finish(Result<(), SessionError>),
}

/// What came of an action.
#[derive(Debug, PartialEq, Eq)]
pub enum LoadEvent {
    /// An action that answers nothing more succeeded or failed.
    Done(Result<(), SessionError>),
    /// The agent's runs, newest first.
    Listed(Result<Vec<RunListing>, SessionError>),
}

/// The mathematical model of [`Load`].
#[allow(inconsistent_fields)]
pub enum LoadView {
    Loading,
    Listing,
    Hydrating { runs: Seq<Text>, at: nat },
    Completing,
    Delivering { runs: Runs },
    Checkpointing { runs: Runs, run: Text },
    Finished,
}

/// The mathematical model of [`LoadAction`].
pub enum LoadActionView {
    LoadJournal,
    ListRuns,
    Hydrate { run: Text },
    CaptureComplete,
    Deliver { batches: Seq<BatchView> },
    Checkpoint { run: Text },
    Finish(Result<(), ErrorView>),
}

/// The mathematical model of [`LoadEvent`].
pub enum LoadEventView {
    Done(Result<(), ErrorView>),
    Listed(Result<Seq<ListingView>, ErrorView>),
}

impl DeepView for Load {
    type V = LoadView;

    open spec fn deep_view(&self) -> LoadView {
        match self {
            Load::Loading => LoadView::Loading,
            Load::Listing => LoadView::Listing,
            Load::Hydrating { runs, at } => LoadView::Hydrating {
                runs: runs.deep_view(),
                at: *at as nat,
            },
            Load::Completing => LoadView::Completing,
            Load::Delivering { machine } => LoadView::Delivering { runs: machine.deep_view() },
            Load::Checkpointing { machine, run } => LoadView::Checkpointing {
                runs: machine.deep_view(),
                run: run.deep_view(),
            },
            Load::Finished => LoadView::Finished,
        }
    }
}

impl DeepView for LoadAction {
    type V = LoadActionView;

    open spec fn deep_view(&self) -> LoadActionView {
        match self {
            LoadAction::LoadJournal => LoadActionView::LoadJournal,
            LoadAction::ListRuns => LoadActionView::ListRuns,
            LoadAction::Hydrate { run } => LoadActionView::Hydrate { run: run.deep_view() },
            LoadAction::CaptureComplete => LoadActionView::CaptureComplete,
            LoadAction::Deliver { batches } => LoadActionView::Deliver {
                batches: batches.deep_view(),
            },
            LoadAction::Checkpoint { run } => LoadActionView::Checkpoint { run: run.deep_view() },
            LoadAction::Finish(outcome) => LoadActionView::Finish(
                match outcome {
                    Ok(_) => Ok(()),
                    Err(error) => Err(error.deep_view()),
                },
            ),
        }
    }
}

impl DeepView for LoadEvent {
    type V = LoadEventView;

    open spec fn deep_view(&self) -> LoadEventView {
        match self {
            LoadEvent::Done(outcome) => LoadEventView::Done(
                match outcome {
                    Ok(_) => Ok(()),
                    Err(error) => Err(error.deep_view()),
                },
            ),
            LoadEvent::Listed(outcome) => LoadEventView::Listed(
                match outcome {
                    Ok(listings) => Ok(listings.deep_view()),
                    Err(error) => Err(error.deep_view()),
                },
            ),
        }
    }
}

/// What a step leads to.
pub struct LoadStepped {
    pub load: LoadView,
    pub state: StateView,
    pub action: LoadActionView,
}

/// The session while it is being loaded: nothing syncs, the journal is read
/// anew, and an earlier capture failure is forgotten.
pub open spec fn load_begun(state: StateView) -> StateView {
    StateView { ready_for_sync: false, journal_loaded: false, capture_failed: false, ..state }
}

/// The session once its load was answered.
pub open spec fn load_answered(state: StateView) -> StateView {
    StateView { ready_for_sync: true, reload_pending: false, ..state }
}

/// The load ends.
pub open spec fn load_finished(state: StateView, outcome: Result<(), ErrorView>) -> LoadStepped {
    LoadStepped { load: LoadView::Finished, state, action: LoadActionView::Finish(outcome) }
}

/// The load moves on without touching the session.
pub open spec fn load_moved(state: StateView, load: LoadView, action: LoadActionView) ->
    LoadStepped {
    LoadStepped { load, state, action }
}

/// History is complete: it is validated as a whole before its first frame is
/// delivered.
pub open spec fn history_delivered(state: StateView) -> LoadStepped {
    match history_of(state.entries) {
        Err(error) => load_finished(state, Err(cursor_error(history_error_message(error)))),
        Ok(history) => load_moved(
            state,
            LoadView::Delivering { runs: history.runs },
            LoadActionView::Deliver { batches: history.batches },
        ),
    }
}

/// The next run that is not captured in full is hydrated.
pub open spec fn hydrate_from(state: StateView, runs: Seq<Text>, at: nat) -> LoadStepped
    decreases runs.len() - at,
{
    if at >= runs.len() {
        load_moved(state, LoadView::Completing, LoadActionView::CaptureComplete)
    } else if is_captured(state, runs[at as int]) {
        hydrate_from(state, runs, at + 1)
    } else {
        load_moved(
            state,
            LoadView::Hydrating { runs, at },
            LoadActionView::Hydrate { run: runs[at as int] },
        )
    }
}

/// The ids of a run list, oldest first.
pub open spec fn oldest_first(listings: Seq<ListingView>) -> Seq<Text> {
    listings.map_values(|listing: ListingView| listing.id).reverse()
}

/// Whether an event answers what the load is waiting for.
pub open spec fn load_expects(load: LoadView, event: LoadEventView) -> bool {
    match load {
        LoadView::Listing => event is Listed,
        LoadView::Hydrating { runs, at } => event is Done && at < runs.len(),
        LoadView::Finished => false,
        _ => event is Done,
    }
}

/// What a load does with an event.
pub open spec fn load_stepped(load: LoadView, state: StateView, event: LoadEventView) ->
    LoadStepped {
    match (load, event) {
        (_, LoadEventView::Done(Err(error))) => load_finished(state, Err(error)),
        (_, LoadEventView::Listed(Err(error))) => load_finished(state, Err(error)),
        (LoadView::Loading, _) => if is_history_complete(state.entries) {
            history_delivered(state)
        } else if state.agent is Some {
            load_moved(state, LoadView::Listing, LoadActionView::ListRuns)
        } else {
            load_moved(state, LoadView::Completing, LoadActionView::CaptureComplete)
        },
        (LoadView::Listing, LoadEventView::Listed(Ok(listings))) => if listings.len() == 0 {
            load_finished(
                state,
                Err(cursor_error("Cursor history unavailable for restored session"@)),
            )
        } else {
            hydrate_from(state, oldest_first(listings), 0)
        },
        (LoadView::Hydrating { runs, at }, _) => hydrate_from(state, runs, at + 1),
        (LoadView::Completing, _) => history_delivered(state),
        (LoadView::Delivering { runs }, _) => match last_reconciled(state.entries) {
            Some(run) => load_moved(
                state,
                LoadView::Checkpointing { runs, run },
                LoadActionView::Checkpoint { run },
            ),
            None => load_finished(StateView { runs, ..state }, Ok(())),
        },
        (LoadView::Checkpointing { runs, run }, _) => load_finished(
            StateView { runs, last_run: Some(run), ..state },
            Ok(()),
        ),
        _ => load_moved(state, load, LoadActionView::LoadJournal),
    }
}

fn history_complete(entries: &Vec<JournalEntry>) -> (complete: bool)
    ensures
        complete == is_history_complete(entries.deep_view()),
{
    let ghost all = entries.deep_view();
    let mut i: usize = 0;
    while i < entries.len()
        invariant
            i <= entries@.len(),
            all == entries.deep_view(),
            forall|k: int| 0 <= k < i ==> !((#[trigger] all[k]).input is HistoryComplete),
        decreases entries@.len() - i,
    {
        assert(all[i as int] == entries@[i as int].deep_view());
        if matches!(entries[i].input, JournalInput::HistoryComplete) {
            return true;
        }
        i = i + 1;
    }
    false
}

fn find_last_reconciled(entries: &Vec<JournalEntry>) -> (run: Option<CursorRunId>)
    ensures
        run.deep_view() == last_reconciled(entries.deep_view()),
{
    let ghost all = entries.deep_view();
    let mut left: usize = entries.len();
    assert(all.take(left as int) =~= all);
    while left > 0
        invariant
            left <= entries@.len(),
            all == entries.deep_view(),
            last_reconciled(all) == last_reconciled(all.take(left as int)),
        decreases left,
    {
        assert(all.take(left as int).last() == entries@[left - 1].deep_view());
        assert(all.take(left as int).drop_last() =~= all.take(left - 1));
        left = left - 1;
        if matches!(entries[left].input, JournalInput::Reconciled) {
            if let Some(run) = &entries[left].run {
                return Some(run.clone());
            }
        }
    }
    None
}

fn reversed_ids(listings: &Vec<RunListing>) -> (ids: Vec<CursorRunId>)
    ensures
        ids.deep_view() == oldest_first(listings.deep_view()),
{
    let ghost count = listings@.len();
    let mut ids: Vec<CursorRunId> = Vec::new();
    let mut left: usize = listings.len();
    while left > 0
        invariant
            count == listings@.len(),
            left <= count,
            ids@.len() == count - left,
            forall|k: int|
                0 <= k < ids@.len() ==> (#[trigger] ids@[k]).deep_view() == listings@[count - 1
                    - k].id.deep_view(),
        decreases left,
    {
        left = left - 1;
        ids.push(listings[left].id.clone());
    }
    assert(ids.deep_view() =~= oldest_first(listings.deep_view()));
    ids
}

impl Load {
    /// Whether an event answers what the load is waiting for.
    pub fn expects(&self, event: &LoadEvent) -> (expected: bool)
        ensures
            expected == load_expects(self.deep_view(), event.deep_view()),
    {
        match self {
            Load::Listing => matches!(event, LoadEvent::Listed(_)),
            Load::Hydrating { runs, at } => *at < runs.len() && matches!(event, LoadEvent::Done(_)),
            Load::Finished => false,
            _ => matches!(event, LoadEvent::Done(_)),
        }
    }

    /// Whether a step's answer is the one the model gives.
    pub open spec fn steps_to(next: (Load, LoadAction), state: StateView, expected: LoadStepped) ->
        bool {
        &&& next.0.deep_view() == expected.load
        &&& state == expected.state
        &&& next.1.deep_view() == expected.action
    }

    /// Begin a load that holds the session's turn lock.
    pub fn start(state: &mut SessionState) -> (begun: (Load, LoadAction))
        ensures
            final(state).deep_view() == load_begun(old(state).deep_view()),
            begun.0.deep_view() == LoadView::Loading,
            begun.1.deep_view() == LoadActionView::LoadJournal,
    {
        state.ready_for_sync = false;
        state.journal_loaded = false;
        state.capture_failed = false;
        (Load::Loading, LoadAction::LoadJournal)
    }

    /// Enable continuation, once the load's response was successfully queued.
    pub fn complete(state: &mut SessionState)
        ensures
            final(state).deep_view() == load_answered(old(state).deep_view()),
    {
        state.ready_for_sync = true;
        state.reload_pending = false;
    }

    fn deliver(state: &SessionState) -> (next: (Load, LoadAction))
        ensures
            Load::steps_to(next, state.deep_view(), history_delivered(state.deep_view())),
    {
        match history_projection(&state.journal_entries) {
            Err(error) => (
                Load::Finished,
                LoadAction::Finish(Err(SessionError::cursor(error.message()))),
            ),
            Ok((machine, batches)) => (
                Load::Delivering { machine },
                LoadAction::Deliver { batches },
            ),
        }
    }

    fn hydrate(state: &SessionState, runs: Vec<CursorRunId>, start: usize) -> (next: (
        Load,
        LoadAction,
    ))
        ensures
            Load::steps_to(
                next,
                state.deep_view(),
                hydrate_from(state.deep_view(), runs.deep_view(), start as nat),
            ),
    {
        let ghost all = runs.deep_view();
        let mut at: usize = start;
        while at < runs.len()
            invariant
                all == runs.deep_view(),
                hydrate_from(state.deep_view(), all, start as nat) == hydrate_from(
                    state.deep_view(),
                    all,
                    at as nat,
                ),
            decreases runs@.len() - at,
        {
            assert(all[at as int] == runs@[at as int].deep_view());
            let captured: bool = state.machine.complete(&runs[at]) && run_reconciled(
                &state.journal_entries,
                &runs[at],
            );
            if !captured {
                let action = LoadAction::Hydrate { run: runs[at].clone() };
                return (Load::Hydrating { runs, at }, action);
            }
            at = at + 1;
        }
        (Load::Completing, LoadAction::CaptureComplete)
    }

    /// Take in what came of the last action.
    pub fn step(self, state: &mut SessionState, event: LoadEvent) -> (next: (Load, LoadAction))
        requires
            load_expects(self.deep_view(), event.deep_view()),
        ensures
            Load::steps_to(
                next,
                final(state).deep_view(),
                load_stepped(self.deep_view(), old(state).deep_view(), event.deep_view()),
            ),
    {
        match (self, event) {
            (_, LoadEvent::Done(Err(error))) => (Load::Finished, LoadAction::Finish(Err(error))),
            (_, LoadEvent::Listed(Err(error))) => (Load::Finished, LoadAction::Finish(Err(error))),
            (Load::Loading, _) => {
                if history_complete(&state.journal_entries) {
                    Load::deliver(state)
                } else if state.agent.is_some() {
                    (Load::Listing, LoadAction::ListRuns)
                } else {
                    (Load::Completing, LoadAction::CaptureComplete)
                }
            },
            (Load::Listing, LoadEvent::Listed(Ok(listings))) => {
                if listings.len() == 0 {
                    let error = SessionError::cursor(
                        "Cursor history unavailable for restored session".to_owned(),
                    );
                    return (Load::Finished, LoadAction::Finish(Err(error)));
                }
                let runs: Vec<CursorRunId> = reversed_ids(&listings);
                Load::hydrate(state, runs, 0)
            },
            (Load::Hydrating { runs, at }, _) => {
                let count: usize = runs.len();
                assert(at < count);
                Load::hydrate(state, runs, at + 1)
            },
            (Load::Completing, _) => Load::deliver(state),
            (Load::Delivering { machine }, _) => {
                match find_last_reconciled(&state.journal_entries) {
                    Some(run) => {
                        let action = LoadAction::Checkpoint { run: run.clone() };
                        (Load::Checkpointing { machine, run }, action)
                    },
                    None => {
                        state.machine = machine;
                        (Load::Finished, LoadAction::Finish(Ok(())))
                    },
                }
            },
            (Load::Checkpointing { machine, run }, _) => {
                state.last_run = Some(run);
                state.machine = machine;
                (Load::Finished, LoadAction::Finish(Ok(())))
            },
            (load, _) => (load, LoadAction::LoadJournal),
        }
    }
}

} // verus!

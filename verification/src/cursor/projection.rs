//! From the journal to the conversation it records.
//!
//! A prompt is journaled before Cursor has a run for it. Where it belongs in
//! the conversation is only known once a run accepts it, so projection puts an
//! accepted prompt right before its run's first native input, whatever the
//! order in which the two were captured.

use crate::cursor::journal::{
    input_replayed, no_runs, replay_error_message, replayed_as, EntryView, InputView, JournalEntry,
    JournalInput, ReplayError, ReplayErrorView, ReplayMachine, ReplayStep, Runs, StepView,
};
use crate::cursor::model::{
    outcome_of, same_run, turn_outcome, CursorRunId, RunStatus, TurnOutcome, TurnOutcomeView,
};
use crate::text::Text;
use vstd::prelude::*;

verus! {

/// The first entry a predicate picks.
pub open spec fn find_entry(entries: Seq<EntryView>, picks: spec_fn(EntryView) -> bool) -> Option<
    EntryView,
>
    decreases entries.len(),
{
    if entries.len() == 0 {
        None
    } else if picks(entries[0]) {
        Some(entries[0])
    } else {
        find_entry(entries.skip(1), picks)
    }
}

/// Picks the session-level entry of a sequence number.
pub open spec fn is_intent(sequence: i64) -> spec_fn(EntryView) -> bool {
    |entry: EntryView| entry.sequence == sequence && entry.run is None
}

/// Picks the entry of a sequence number.
pub open spec fn has_sequence(sequence: i64) -> spec_fn(EntryView) -> bool {
    |entry: EntryView| entry.sequence == sequence
}

/// Picks the entry by which a run accepted its prompt.
pub open spec fn is_acceptance_of(run: Text) -> spec_fn(EntryView) -> bool {
    |entry: EntryView| entry.run == Some(run) && entry.input is PromptAccepted
}

/// The input an entry replays as: an acceptance stands for the prompt it
/// accepts.
pub open spec fn replay_input_of(entry: EntryView, entries: Seq<EntryView>) -> Result<
    InputView,
    ReplayErrorView,
> {
    match entry.input {
        InputView::PromptAccepted(sequence) => match find_entry(entries, is_intent(sequence)) {
            Some(intent) => Ok(intent.input),
            None => Err(ReplayErrorView::MissingPrompt),
        },
        input => Ok(input),
    }
}

/// The prompt an entry's run accepted, shown before the run's first native
/// input.
pub open spec fn prompt_projected(runs: Runs, entry: EntryView, entries: Seq<EntryView>) -> (
    Runs,
    Result<Seq<StepView>, ReplayErrorView>,
) {
    match entry.run {
        Some(run) => if runs[run].prompt {
            (runs, Ok(Seq::empty()))
        } else {
            match find_entry(entries, is_acceptance_of(run)) {
                Some(accepted) => match replay_input_of(accepted, entries) {
                    Ok(input) => input_replayed(runs, Some(run), input),
                    Err(error) => (runs, Err(error)),
                },
                None => (runs, Ok(Seq::empty())),
            }
        },
        None => (runs, Ok(Seq::empty())),
    }
}

/// The prompt an abort gave up, shown where it was given up.
pub open spec fn abort_projected(entry: EntryView, entries: Seq<EntryView>) -> Seq<StepView> {
    match entry.input {
        InputView::PromptAborted(sequence) => match find_entry(entries, has_sequence(sequence)) {
            Some(intent) => match input_replayed(no_runs(), None, intent.input).1 {
                Ok(steps) => steps,
                Err(_) => Seq::empty(),
            },
            None => Seq::empty(),
        },
        _ => Seq::empty(),
    }
}

/// Whether an entry only records intent, and shows nothing by itself.
pub open spec fn is_silent(entry: EntryView) -> bool {
    entry.input is PromptAccepted || (entry.run is None && entry.input is Prompt)
}

/// What one entry adds to the conversation, given the whole journal.
pub open spec fn entry_projected(runs: Runs, entry: EntryView, entries: Seq<EntryView>) -> (
    Runs,
    Result<Seq<StepView>, ReplayErrorView>,
) {
    if is_silent(entry) {
        (runs, Ok(Seq::empty()))
    } else {
        let prompted = prompt_projected(runs, entry, entries);
        match prompted.1 {
            Err(error) => (prompted.0, Err(error)),
            Ok(prompt) => {
                let replayed = input_replayed(prompted.0, entry.run, entry.input);
                match replayed.1 {
                    Err(error) => (replayed.0, Err(error)),
                    Ok(steps) => (
                        replayed.0,
                        Ok(prompt + abort_projected(entry, entries) + steps),
                    ),
                }
            },
        }
    }
}

fn find_intent(entries: &Vec<JournalEntry>, sequence: i64) -> (found: Option<&JournalEntry>)
    ensures
        found.deep_view() == find_entry(entries.deep_view(), is_intent(sequence)),
{
    let ghost all = entries.deep_view();
    let mut i: usize = 0;
    assert(all.skip(0) =~= all);
    while i < entries.len()
        invariant
            i <= entries@.len(),
            all == entries.deep_view(),
            find_entry(all, is_intent(sequence)) == find_entry(
                all.skip(i as int),
                is_intent(sequence),
            ),
        decreases entries@.len() - i,
    {
        assert(all.skip(i as int)[0] == entries@[i as int].deep_view());
        if entries[i].sequence == sequence && entries[i].run.is_none() {
            return Some(&entries[i]);
        }
        assert(all.skip(i as int).skip(1) =~= all.skip(i + 1));
        i = i + 1;
    }
    None
}

fn find_sequence(entries: &Vec<JournalEntry>, sequence: i64) -> (found: Option<&JournalEntry>)
    ensures
        found.deep_view() == find_entry(entries.deep_view(), has_sequence(sequence)),
{
    let ghost all = entries.deep_view();
    let mut i: usize = 0;
    assert(all.skip(0) =~= all);
    while i < entries.len()
        invariant
            i <= entries@.len(),
            all == entries.deep_view(),
            find_entry(all, has_sequence(sequence)) == find_entry(
                all.skip(i as int),
                has_sequence(sequence),
            ),
        decreases entries@.len() - i,
    {
        assert(all.skip(i as int)[0] == entries@[i as int].deep_view());
        if entries[i].sequence == sequence {
            return Some(&entries[i]);
        }
        assert(all.skip(i as int).skip(1) =~= all.skip(i + 1));
        i = i + 1;
    }
    None
}

fn find_acceptance<'a>(entries: &'a Vec<JournalEntry>, run: &CursorRunId) -> (found: Option<
    &'a JournalEntry,
>)
    ensures
        found.deep_view() == find_entry(entries.deep_view(), is_acceptance_of(run.deep_view())),
{
    let ghost all = entries.deep_view();
    let mut i: usize = 0;
    assert(all.skip(0) =~= all);
    while i < entries.len()
        invariant
            i <= entries@.len(),
            all == entries.deep_view(),
            find_entry(all, is_acceptance_of(run.deep_view())) == find_entry(
                all.skip(i as int),
                is_acceptance_of(run.deep_view()),
            ),
        decreases entries@.len() - i,
    {
        assert(all.skip(i as int)[0] == entries@[i as int].deep_view());
        if same_run(entries[i].run.as_ref(), Some(run)) && matches!(
            entries[i].input,
            JournalInput::PromptAccepted(_)
        ) {
            return Some(&entries[i]);
        }
        assert(all.skip(i as int).skip(1) =~= all.skip(i + 1));
        i = i + 1;
    }
    None
}

/// The input an entry replays as: an acceptance stands for the prompt it
/// accepts.
pub fn replay_input(entry: &JournalEntry, entries: &Vec<JournalEntry>) -> (input: Result<
    JournalInput,
    ReplayError,
>)
    ensures
        match input {
            Ok(input) => replay_input_of(entry.deep_view(), entries.deep_view()) == Ok::<
                InputView,
                ReplayErrorView,
            >(input.deep_view()),
            Err(error) => replay_input_of(entry.deep_view(), entries.deep_view()) == Err::<
                InputView,
                ReplayErrorView,
            >(error.deep_view()),
        },
{
    match entry.input {
        JournalInput::PromptAccepted(sequence) => match find_intent(entries, sequence) {
            Some(intent) => Ok(intent.input.clone()),
            None => Err(ReplayError::MissingPrompt),
        },
        _ => Ok(entry.input.clone()),
    }
}

fn extend(steps: &mut Vec<ReplayStep>, more: Vec<ReplayStep>)
    ensures
        final(steps).deep_view() == old(steps).deep_view() + more.deep_view(),
{
    let mut more = more;
    let ghost added = more.deep_view();
    steps.append(&mut more);
    assert(steps.deep_view() =~= old(steps).deep_view() + added);
}

/// Project conversational facts independently of pre-execution intent order.
pub fn project_entry(
    machine: &mut ReplayMachine,
    entry: &JournalEntry,
    entries: &Vec<JournalEntry>,
) -> (steps: Result<Vec<ReplayStep>, ReplayError>)
    ensures
        final(machine).deep_view() == entry_projected(
            old(machine).deep_view(),
            entry.deep_view(),
            entries.deep_view(),
        ).0,
        replayed_as(
            steps,
            entry_projected(
                old(machine).deep_view(),
                entry.deep_view(),
                entries.deep_view(),
            ).1,
        ),
{
    let mut steps: Vec<ReplayStep> = Vec::new();
    assert(steps.deep_view() =~= Seq::<StepView>::empty());
    if matches!(entry.input, JournalInput::PromptAccepted(_)) || (entry.run.is_none() && matches!(
        entry.input,
        JournalInput::Prompt(_)
    )) {
        return Ok(steps);
    }
    if let Some(run) = &entry.run {
        if !machine.has_prompt(run) {
            if let Some(accepted) = find_acceptance(entries, run) {
                let input: JournalInput = match replay_input(accepted, entries) {
                    Ok(input) => input,
                    Err(error) => return Err(error),
                };
                match machine.push(Some(run), &input) {
                    Ok(prompt) => {
                        steps = prompt;
                    },
                    Err(error) => return Err(error),
                }
            }
        }
    }
    let ghost prompt = steps.deep_view();
    if let JournalInput::PromptAborted(sequence) = entry.input {
        if let Some(intent) = find_sequence(entries, sequence) {
            match machine.push(None, &intent.input) {
                Ok(given_up) => extend(&mut steps, given_up),
                Err(error) => return Err(error),
            }
        }
    }
    proof {
        assert(steps.deep_view() =~= prompt + abort_projected(
            entry.deep_view(),
            entries.deep_view(),
        ));
    }
    match machine.push(entry.run.as_ref(), &entry.input) {
        Ok(more) => {
            extend(&mut steps, more);
            Ok(steps)
        },
        Err(error) => Err(error),
    }
}

/// A stretch of replayed history, and the turn it ended, if it ended one.
#[derive(Debug, PartialEq, Eq)]
pub struct HistoryBatch {
    /// What to render.
    pub steps: Vec<ReplayStep>,
    /// How the turn ended.
    pub outcome: Option<TurnOutcome>,
}

/// The mathematical model of [`HistoryBatch`].
pub struct BatchView {
    pub steps: Seq<StepView>,
    pub outcome: Option<TurnOutcomeView>,
}

impl DeepView for HistoryBatch {
    type V = BatchView;

    open spec fn deep_view(&self) -> BatchView {
        BatchView { steps: self.steps.deep_view(), outcome: self.outcome.deep_view() }
    }
}

/// Why the journal cannot replace a session's history.
#[derive(Debug, PartialEq, Eq)]
pub enum HistoryError {
    /// A prompt whose fate is not journaled.
    UnknownAcceptance,
    /// An input that cannot be replayed.
    Replay(ReplayError),
    /// A run whose original prompt is lost.
    PromptUnavailable(CursorRunId),
}

/// The mathematical model of [`HistoryError`].
pub enum HistoryErrorView {
    UnknownAcceptance,
    Replay(ReplayErrorView),
    PromptUnavailable(Text),
}

impl DeepView for HistoryError {
    type V = HistoryErrorView;

    open spec fn deep_view(&self) -> HistoryErrorView {
        match self {
            HistoryError::UnknownAcceptance => HistoryErrorView::UnknownAcceptance,
            HistoryError::Replay(error) => HistoryErrorView::Replay(error.deep_view()),
            HistoryError::PromptUnavailable(run) => HistoryErrorView::PromptUnavailable(
                run.deep_view(),
            ),
        }
    }
}

/// What a history error says.
pub open spec fn history_error_message(error: HistoryErrorView) -> Text {
    match error {
        HistoryErrorView::UnknownAcceptance => {
            "Cursor prompt acceptance is unknown; refusing incomplete replacement history"@
        },
        HistoryErrorView::Replay(error) => replay_error_message(error),
        HistoryErrorView::PromptUnavailable(run) => "Cursor original prompt unavailable for "@ + run
            + "; preserving existing history"@,
    }
}

impl HistoryError {
    /// The error in words.
    pub fn message(&self) -> (message: String)
        ensures
            message@ == history_error_message(self.deep_view()),
    {
        match self {
            HistoryError::UnknownAcceptance => {
                "Cursor prompt acceptance is unknown; refusing incomplete replacement history"
                    .to_owned()
            },
            HistoryError::Replay(error) => error.message(),
            HistoryError::PromptUnavailable(run) => {
                let mut message: String = "Cursor original prompt unavailable for ".to_owned();
                message.append(run.as_str());
                message.append("; preserving existing history");
                message
            },
        }
    }
}

/// A reconstructed conversation and what replay knows of its runs.
pub struct HistoryView {
    pub runs: Runs,
    pub batches: Seq<BatchView>,
}

/// Whether an entry settles the fate of the prompt journaled at a sequence.
pub open spec fn settles_prompt(entry: EntryView, sequence: i64) -> bool {
    entry.input == InputView::PromptAccepted(sequence) || entry.input == InputView::PromptAborted(
        sequence,
    )
}

/// Whether an entry is a prompt whose fate is not journaled.
pub open spec fn is_unsettled(entry: EntryView, entries: Seq<EntryView>) -> bool {
    entry.run is None && entry.input is Prompt && !exists|k: int|
        0 <= k < entries.len() && settles_prompt(#[trigger] entries[k], entry.sequence)
}

/// Whether every journaled prompt's fate is known.
pub open spec fn prompts_settled(entries: Seq<EntryView>) -> bool {
    forall|i: int| 0 <= i < entries.len() ==> !is_unsettled(#[trigger] entries[i], entries)
}

/// The turn an entry ended: an abort ends the turn it gave up, and the first
/// terminal fact of a run ends that run's turn.
pub open spec fn entry_outcome(before: Runs, after: Runs, entry: EntryView) -> Option<
    TurnOutcomeView,
> {
    if entry.input is PromptAborted {
        Some(TurnOutcomeView::Cancelled)
    } else {
        match entry.run {
            Some(run) => if before[run].terminal is None {
                match after[run].terminal {
                    Some(status) => Some(outcome_of(status)),
                    None => None,
                }
            } else {
                None
            },
            None => None,
        }
    }
}

/// The conversation of the journal's first `count` entries.
pub open spec fn history_upto(entries: Seq<EntryView>, count: nat) -> Result<
    HistoryView,
    HistoryErrorView,
>
    decreases count,
{
    if count == 0 {
        Ok(HistoryView { runs: no_runs(), batches: Seq::empty() })
    } else {
        match history_upto(entries, (count - 1) as nat) {
            Err(error) => Err(error),
            Ok(history) => {
                let entry = entries[count - 1];
                let projected = entry_projected(history.runs, entry, entries);
                match projected.1 {
                    Err(error) => Err(HistoryErrorView::Replay(error)),
                    Ok(steps) => Ok(
                        HistoryView {
                            runs: projected.0,
                            batches: history.batches.push(
                                BatchView {
                                    steps,
                                    outcome: entry_outcome(history.runs, projected.0, entry),
                                },
                            ),
                        },
                    ),
                }
            },
        }
    }
}

/// Whether some other run has its prompt but not its end.
pub open spec fn other_run_open(entries: Seq<EntryView>, runs: Runs, run: Text) -> bool {
    exists|i: int|
        0 <= i < entries.len() && (#[trigger] entries[i]).run is Some && entries[i].run->0 != run
            && runs[entries[i].run->0].prompt && !runs[entries[i].run->0].complete()
}

/// Whether an entry's accepted prompt is shown at the unfinished tail.
pub open spec fn is_tail_prompt(entries: Seq<EntryView>, runs: Runs, entry: EntryView) -> bool {
    entry.input is PromptAccepted && entry.run is Some && !runs[entry.run->0].prompt
        && !other_run_open(entries, runs, entry.run->0)
}

/// The conversation with the accepted prompts of the first `count` entries at
/// its tail.
pub open spec fn tail_upto(entries: Seq<EntryView>, history: HistoryView, count: nat) -> Result<
    HistoryView,
    HistoryErrorView,
>
    decreases count,
{
    if count == 0 {
        Ok(history)
    } else {
        match tail_upto(entries, history, (count - 1) as nat) {
            Err(error) => Err(error),
            Ok(shown) => {
                let entry = entries[count - 1];
                if is_tail_prompt(entries, shown.runs, entry) {
                    match replay_input_of(entry, entries) {
                        Err(error) => Err(HistoryErrorView::Replay(error)),
                        Ok(input) => {
                            let replayed = input_replayed(shown.runs, entry.run, input);
                            match replayed.1 {
                                Err(error) => Err(HistoryErrorView::Replay(error)),
                                Ok(steps) => Ok(
                                    HistoryView {
                                        runs: replayed.0,
                                        batches: shown.batches.push(
                                            BatchView { steps, outcome: None },
                                        ),
                                    },
                                ),
                            }
                        },
                    }
                } else {
                    Ok(shown)
                }
            },
        }
    }
}

/// Whether nothing of a run is journaled but that it accepted a prompt.
pub open spec fn accepted_only(entries: Seq<EntryView>, run: Text) -> bool {
    forall|i: int|
        0 <= i < entries.len() && (#[trigger] entries[i]).run == Some(run)
            ==> entries[i].input is PromptAccepted
}

/// Whether an entry belongs to a run that worked on a prompt nobody knows.
pub open spec fn is_promptless(entries: Seq<EntryView>, runs: Runs, entry: EntryView) -> bool {
    entry.run is Some && !runs[entry.run->0].prompt && !accepted_only(entries, entry.run->0)
}

/// The first run, from `start` on, that worked on a prompt nobody knows.
pub open spec fn promptless_run(entries: Seq<EntryView>, runs: Runs, start: nat) -> Option<Text>
    decreases entries.len() - start,
{
    if start >= entries.len() {
        None
    } else if is_promptless(entries, runs, entries[start as int]) {
        entries[start as int].run
    } else {
        promptless_run(entries, runs, start + 1)
    }
}

/// The whole conversation a journal records, when it can be told in full.
pub open spec fn history_of(entries: Seq<EntryView>) -> Result<HistoryView, HistoryErrorView> {
    if !prompts_settled(entries) {
        Err(HistoryErrorView::UnknownAcceptance)
    } else {
        match history_upto(entries, entries.len()) {
            Err(error) => Err(error),
            Ok(history) => match tail_upto(entries, history, entries.len()) {
                Err(error) => Err(error),
                Ok(shown) => match promptless_run(entries, shown.runs, 0) {
                    Some(run) => Err(HistoryErrorView::PromptUnavailable(run)),
                    None => Ok(shown),
                },
            },
        }
    }
}

proof fn lemma_history_error_stays(entries: Seq<EntryView>, count: nat, more: nat)
    requires
        history_upto(entries, count) is Err,
        count <= more,
    ensures
        history_upto(entries, more) == history_upto(entries, count),
    decreases more,
{
    if count < more {
        lemma_history_error_stays(entries, count, (more - 1) as nat);
    }
}

proof fn lemma_tail_error_stays(
    entries: Seq<EntryView>,
    history: HistoryView,
    count: nat,
    more: nat,
)
    requires
        tail_upto(entries, history, count) is Err,
        count <= more,
    ensures
        tail_upto(entries, history, more) == tail_upto(entries, history, count),
    decreases more,
{
    if count < more {
        lemma_tail_error_stays(entries, history, count, (more - 1) as nat);
    }
}

fn prompt_is_settled(entries: &Vec<JournalEntry>, sequence: i64) -> (settled: bool)
    ensures
        settled == exists|k: int|
            0 <= k < entries@.len() && settles_prompt(
                #[trigger] entries.deep_view()[k],
                sequence,
            ),
{
    let mut k: usize = 0;
    while k < entries.len()
        invariant
            k <= entries@.len(),
            forall|j: int|
                0 <= j < k ==> !settles_prompt(#[trigger] entries.deep_view()[j], sequence),
        decreases entries@.len() - k,
    {
        assert(entries.deep_view()[k as int] == entries@[k as int].deep_view());
        let settled: bool = match entries[k].input {
            JournalInput::PromptAccepted(settled) => settled == sequence,
            JournalInput::PromptAborted(settled) => settled == sequence,
            _ => false,
        };
        if settled {
            return true;
        }
        k = k + 1;
    }
    false
}

fn another_run_is_open(
    entries: &Vec<JournalEntry>,
    machine: &ReplayMachine,
    run: &CursorRunId,
) -> (open: bool)
    ensures
        open == other_run_open(entries.deep_view(), machine.deep_view(), run.deep_view()),
{
    let ghost all = entries.deep_view();
    let mut i: usize = 0;
    while i < entries.len()
        invariant
            i <= entries@.len(),
            all == entries.deep_view(),
            forall|k: int|
                0 <= k < i && (#[trigger] all[k]).run is Some && all[k].run->0 != run.deep_view()
                    ==> !machine.deep_view()[all[k].run->0].prompt
                    || machine.deep_view()[all[k].run->0].complete(),
        decreases entries@.len() - i,
    {
        assert(all[i as int] == entries@[i as int].deep_view());
        if let Some(other) = &entries[i].run {
            if !other.same(run) && machine.has_prompt(other) && !machine.complete(other) {
                return true;
            }
        }
        i = i + 1;
    }
    false
}

fn only_accepted(entries: &Vec<JournalEntry>, run: &CursorRunId) -> (only: bool)
    ensures
        only == accepted_only(entries.deep_view(), run.deep_view()),
{
    let ghost all = entries.deep_view();
    let mut i: usize = 0;
    while i < entries.len()
        invariant
            i <= entries@.len(),
            all == entries.deep_view(),
            forall|k: int|
                0 <= k < i && (#[trigger] all[k]).run == Some(run.deep_view())
                    ==> all[k].input is PromptAccepted,
        decreases entries@.len() - i,
    {
        assert(all[i as int] == entries@[i as int].deep_view());
        if same_run(entries[i].run.as_ref(), Some(run)) && !matches!(
            entries[i].input,
            JournalInput::PromptAccepted(_)
        ) {
            return false;
        }
        i = i + 1;
    }
    true
}

/// The status a run's entry finds replay at.
fn entry_terminal(machine: &ReplayMachine, entry: &JournalEntry) -> (status: Option<RunStatus>)
    ensures
        status.deep_view() == (match entry.deep_view().run {
            Some(run) => machine.deep_view()[run].terminal,
            None => None,
        }),
{
    match &entry.run {
        Some(run) => machine.terminal_status(run),
        None => None,
    }
}

/// Reconstruct the conversation entry by entry.
fn project_history(entries: &Vec<JournalEntry>) -> (history: Result<
    (ReplayMachine, Vec<HistoryBatch>),
    HistoryError,
>)
    ensures
        match history {
            Ok((machine, batches)) => history_upto(entries.deep_view(), entries@.len()) == Ok::<
                HistoryView,
                HistoryErrorView,
            >(HistoryView { runs: machine.deep_view(), batches: batches.deep_view() }),
            Err(error) => history_upto(entries.deep_view(), entries@.len()) == Err::<
                HistoryView,
                HistoryErrorView,
            >(error.deep_view()),
        },
{
    let ghost all = entries.deep_view();
    let mut machine: ReplayMachine = ReplayMachine::default();
    let mut batches: Vec<HistoryBatch> = Vec::new();
    assert(batches.deep_view() =~= Seq::<BatchView>::empty());
    let mut i: usize = 0;
    while i < entries.len()
        invariant
            i <= entries@.len(),
            all == entries.deep_view(),
            history_upto(all, i as nat) == Ok::<HistoryView, HistoryErrorView>(
                HistoryView { runs: machine.deep_view(), batches: batches.deep_view() },
            ),
        decreases entries@.len() - i,
    {
        assert(all[i as int] == entries@[i as int].deep_view());
        let ghost shown = batches.deep_view();
        let before: Option<RunStatus> = entry_terminal(&machine, &entries[i]);
        let steps: Vec<ReplayStep> = match project_entry(&mut machine, &entries[i], entries) {
            Ok(steps) => steps,
            Err(error) => {
                proof {
                    lemma_history_error_stays(all, (i + 1) as nat, all.len());
                }
                return Err(HistoryError::Replay(error));
            },
        };
        let terminal: Option<RunStatus> = entry_terminal(&machine, &entries[i]);
        let outcome: Option<TurnOutcome> = if matches!(
            entries[i].input,
            JournalInput::PromptAborted(_)
        ) {
            Some(TurnOutcome::Cancelled)
        } else if before.is_none() {
            match terminal {
                Some(status) => Some(turn_outcome(&status)),
                None => None,
            }
        } else {
            None
        };
        let batch = HistoryBatch { steps, outcome };
        batches.push(batch);
        assert(batches.deep_view() =~= shown.push(batch.deep_view()));
        i = i + 1;
    }
    Ok((machine, batches))
}

/// Show the accepted prompts that no native input has shown yet.
fn project_tail(
    entries: &Vec<JournalEntry>,
    machine: &mut ReplayMachine,
    batches: &mut Vec<HistoryBatch>,
) -> (outcome: Result<(), HistoryError>)
    ensures
        ({
            let history = HistoryView {
                runs: old(machine).deep_view(),
                batches: old(batches).deep_view(),
            };
            match outcome {
                Ok(_) => tail_upto(entries.deep_view(), history, entries@.len()) == Ok::<
                    HistoryView,
                    HistoryErrorView,
                >(
                    HistoryView {
                        runs: final(machine).deep_view(),
                        batches: final(batches).deep_view(),
                    },
                ),
                Err(error) => tail_upto(entries.deep_view(), history, entries@.len()) == Err::<
                    HistoryView,
                    HistoryErrorView,
                >(error.deep_view()),
            }
        }),
{
    let ghost all = entries.deep_view();
    let ghost history = HistoryView { runs: machine.deep_view(), batches: batches.deep_view() };
    let mut i: usize = 0;
    while i < entries.len()
        invariant
            i <= entries@.len(),
            all == entries.deep_view(),
            history.runs == old(machine).deep_view(),
            history.batches == old(batches).deep_view(),
            tail_upto(all, history, i as nat) == Ok::<HistoryView, HistoryErrorView>(
                HistoryView { runs: machine.deep_view(), batches: batches.deep_view() },
            ),
        decreases entries@.len() - i,
    {
        assert(all[i as int] == entries@[i as int].deep_view());
        let entry: &JournalEntry = &entries[i];
        if let Some(run) = &entry.run {
            if matches!(entry.input, JournalInput::PromptAccepted(_)) && !machine.has_prompt(run)
                && !another_run_is_open(entries, machine, run) {
                let ghost shown = batches.deep_view();
                let input: JournalInput = match replay_input(entry, entries) {
                    Ok(input) => input,
                    Err(error) => {
                        proof {
                            lemma_tail_error_stays(all, history, (i + 1) as nat, all.len());
                        }
                        return Err(HistoryError::Replay(error));
                    },
                };
                let steps: Vec<ReplayStep> = match machine.push(Some(run), &input) {
                    Ok(steps) => steps,
                    Err(error) => {
                        proof {
                            lemma_tail_error_stays(all, history, (i + 1) as nat, all.len());
                        }
                        return Err(HistoryError::Replay(error));
                    },
                };
                let batch = HistoryBatch { steps, outcome: None };
                batches.push(batch);
                assert(batches.deep_view() =~= shown.push(batch.deep_view()));
            }
        }
        i = i + 1;
    }
    Ok(())
}

/// Reconstruct the whole conversation, or say why it cannot be told in full.
///
/// Nothing is published before everything is validated. Intent position is
/// audit order, not conversation order: accepted prompts project immediately
/// before their first native run input. Acceptance can be durable before the
/// first stream observation; such a prompt belongs at the unfinished tail,
/// unless an older turn is itself unfinished, whose boundary it must not steal.
pub fn history_projection(entries: &Vec<JournalEntry>) -> (history: Result<
    (ReplayMachine, Vec<HistoryBatch>),
    HistoryError,
>)
    ensures
        match history {
            Ok((machine, batches)) => history_of(entries.deep_view()) == Ok::<
                HistoryView,
                HistoryErrorView,
            >(HistoryView { runs: machine.deep_view(), batches: batches.deep_view() }),
            Err(error) => history_of(entries.deep_view()) == Err::<HistoryView, HistoryErrorView>(
                error.deep_view(),
            ),
        },
{
    let ghost all = entries.deep_view();
    let mut i: usize = 0;
    while i < entries.len()
        invariant
            i <= entries@.len(),
            all == entries.deep_view(),
            forall|k: int| 0 <= k < i ==> !is_unsettled(#[trigger] all[k], all),
        decreases entries@.len() - i,
    {
        assert(all[i as int] == entries@[i as int].deep_view());
        if entries[i].run.is_none() && matches!(entries[i].input, JournalInput::Prompt(_))
            && !prompt_is_settled(entries, entries[i].sequence) {
            assert(is_unsettled(all[i as int], all));
            return Err(HistoryError::UnknownAcceptance);
        }
        i = i + 1;
    }
    assert(prompts_settled(all));
    let (mut machine, mut batches) = match project_history(entries) {
        Ok(history) => history,
        Err(error) => return Err(error),
    };
    match project_tail(entries, &mut machine, &mut batches) {
        Ok(_) => {},
        Err(error) => return Err(error),
    }
    let mut i: usize = 0;
    while i < entries.len()
        invariant
            i <= entries@.len(),
            all == entries.deep_view(),
            promptless_run(all, machine.deep_view(), 0) == promptless_run(
                all,
                machine.deep_view(),
                i as nat,
            ),
            prompts_settled(all),
            history_upto(all, all.len()) is Ok,
            tail_upto(all, history_upto(all, all.len())->Ok_0, all.len()) == Ok::<
                HistoryView,
                HistoryErrorView,
            >(HistoryView { runs: machine.deep_view(), batches: batches.deep_view() }),
        decreases entries@.len() - i,
    {
        assert(all[i as int] == entries@[i as int].deep_view());
        if let Some(run) = &entries[i].run {
            if !machine.has_prompt(run) && !only_accepted(entries, run) {
                return Err(HistoryError::PromptUnavailable(run.clone()));
            }
        }
        i = i + 1;
    }
    Ok((machine, batches))
}

} // verus!

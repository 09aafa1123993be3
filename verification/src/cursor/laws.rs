//! What holds of Cursor sessions as a whole.

use crate::cursor::backfill::{
    is_unlisted, is_wanted, newer_runs, pending_runs, pending_upto, runs_to_mirror,
};
use crate::cursor::event::{EventView, InteractionView};
use crate::cursor::ingest::{
    ingest_expects, ingest_stepped, ingest_wf, IngestActionView, IngestEventView, IngestPhaseView,
    IngestView, POLL_ATTEMPTS, STREAM_RETRIES,
};
use crate::cursor::journal::{
    decoded, input_replayed, is_content_event, no_runs, poll_of, result_replayed,
    BlockView, EntryView, InputView, RecordView, ReplayErrorView, Runs, StepView,
};
use crate::cursor::loading::{load_begun, replayed_upto};
use crate::cursor::model::{StatusView, StopReason};
use crate::cursor::projection::{
    entry_projected, find_entry, has_sequence, history_of, history_upto, is_acceptance_of,
    is_intent, is_promptless, is_silent, promptless_run, BatchView,
};
use crate::cursor::session::{
    accepts_for, after_capture_failure, capture_start, captured, high_water, ErrorView, StateView,
};
use crate::cursor::turn::{
    is_reconciled, turn_expects, turn_started, turn_stepped, verdict_of, RequestView, TurnActionView,
    TurnEventView, TurnView,
};
use crate::text::{has_prefix, Text};
use vstd::prelude::*;

verus! {

/// Every recorded end of a run is a terminal status.
pub open spec fn ends_are_terminal(runs: Runs) -> bool {
    forall|run: Text|
        (#[trigger] runs[run]).terminal matches Some(status) ==> status.is_terminal()
}

/// Replay never forgets: a known prompt stays known, a known end stays known,
/// an end is always a terminal status, and an input only touches its own run.
pub proof fn law_replay_only_learns(runs: Runs, run: Option<Text>, input: InputView)
    ensures
        ({
            let after = input_replayed(runs, run, input).0;
            &&& forall|other: Text|
                #![trigger after[other]]
                {
                    &&& runs[other].prompt ==> after[other].prompt
                    &&& runs[other].terminal is Some ==> after[other].terminal is Some
                    &&& run != Some(other) ==> after[other] == runs[other]
                }
            &&& ends_are_terminal(runs) ==> ends_are_terminal(after)
        }),
{
    let after = input_replayed(runs, run, input).0;
    if ends_are_terminal(runs) {
        assert forall|other: Text| (#[trigger] after[other]).terminal matches Some(
            status,
        ) implies after[other].terminal->0.is_terminal() by {
            assert(runs[other].terminal matches Some(status) ==> status.is_terminal());
        }
    }
}

/// An input that cannot be replayed leaves what replay knows as it was.
pub proof fn law_a_failed_input_changes_nothing(runs: Runs, run: Option<Text>, input: InputView)
    requires
        input_replayed(runs, run, input).1 is Err,
    ensures
        input_replayed(runs, run, input).0 == runs,
{
}

/// Once a run's prompt is known, nothing shows it again: neither the original
/// blocks nor the provider's own echo of them.
pub proof fn law_a_known_prompt_is_never_shown_again(runs: Runs, run: Text, input: InputView)
    requires
        runs[run].prompt,
        input_replayed(runs, Some(run), input).1 is Ok,
    ensures
        forall|i: int|
            0 <= i < input_replayed(runs, Some(run), input).1->Ok_0.len() ==> !(
            #[trigger] input_replayed(runs, Some(run), input).1->Ok_0[i] is UserMessage),
{
}

/// Original blocks suppress the provider's echo of the prompt, once per run.
pub proof fn law_original_blocks_suppress_the_echo(
    runs: Runs,
    run: Text,
    blocks: Seq<BlockView>,
    record: RecordView,
)
    requires
        decoded(record) matches EventView::Interaction(InteractionView::UserMessage { .. }),
    ensures
        ({
            let prompted = input_replayed(runs, Some(run), InputView::Prompt(blocks)).0;
            input_replayed(prompted, Some(run), InputView::Sse(record)) == (prompted, Ok::<Seq<StepView>, ReplayErrorView>(Seq::empty()))
        }),
{
}

/// The text a list of steps has the client shown as the agent's answer.
pub open spec fn answer_text(steps: Seq<StepView>) -> Text
    decreases steps.len(),
{
    if steps.len() == 0 {
        Seq::empty()
    } else {
        let before = answer_text(steps.drop_last());
        match steps.last() {
            StepView::Translate { event: EventView::Assistant { text }, .. } => before + text,
            _ => before,
        }
    }
}

/// A final answer completes what was streamed: what was shown of the answer's
/// last step, with what the result adds to it, is exactly the final answer.
pub proof fn law_a_result_completes_the_answer(
    runs: Runs,
    run: Text,
    status: StatusView,
    text: Text,
)
    requires
        result_replayed(runs, run, status, Some(text)).1 is Ok,
    ensures
        runs[run].text + answer_text(result_replayed(runs, run, status, Some(text)).1->Ok_0)
            == text,
        result_replayed(runs, run, status, Some(text)).0[run].text == text,
{
    let steps = result_replayed(runs, run, status, Some(text)).1->Ok_0;
    let known = runs[run].text;
    assert(has_prefix(text, known));
    assert(known + text.skip(known.len() as int) =~= text) by {
        assert(text.take(known.len() as int) == known);
        assert(text.take(known.len() as int) + text.skip(known.len() as int) =~= text);
    }
    reveal_with_fuel(answer_text, 3);
    if known.len() == text.len() {
        assert(text.take(known.len() as int) =~= text);
        assert(steps.drop_last() =~= Seq::<StepView>::empty());
        assert(known + Seq::<char>::empty() =~= text);
    } else {
        assert(steps.drop_last().drop_last() =~= Seq::<StepView>::empty());
        assert(answer_text(steps) =~= text.skip(known.len() as int));
    }
}

/// Hearing a run's end twice repeats nothing: the second time only closes what
/// is open, and teaches replay nothing new.
pub proof fn law_a_final_answer_is_never_repeated(
    runs: Runs,
    run: Text,
    status: StatusView,
    text: Option<Text>,
)
    requires
        result_replayed(runs, run, status, text).1 is Ok,
    ensures
        ({
            let once = result_replayed(runs, run, status, text).0;
            &&& result_replayed(once, run, status, text).0 == once
            &&& result_replayed(once, run, status, text).1 == Ok::<Seq<StepView>, ReplayErrorView>(
                seq![StepView::CloseOpenCalls],
            )
        }),
{
    let once = result_replayed(runs, run, status, text).0;
    let twice = result_replayed(once, run, status, text);
    if let Some(answer) = text {
        assert(answer.take(answer.len() as int) =~= answer);
        assert(Seq::<StepView>::empty().push(StepView::CloseOpenCalls)
            =~= seq![StepView::CloseOpenCalls]);
    }
    assert(twice.0 =~= once);
}

/// Polling never repeats a final answer: the same body again only closes what
/// is open.
pub proof fn law_a_repeated_poll_shows_nothing(runs: Runs, run: Text, raw: Text)
    requires
        input_replayed(runs, Some(run), InputView::Poll(raw)).1 is Ok,
    ensures
        ({
            let once = input_replayed(runs, Some(run), InputView::Poll(raw)).0;
            let twice = input_replayed(once, Some(run), InputView::Poll(raw));
            &&& twice.0 == once
            &&& twice.1 is Ok
            &&& forall|i: int|
                0 <= i < twice.1->Ok_0.len() ==> #[trigger] twice.1->Ok_0[i]
                    == StepView::CloseOpenCalls
        }),
{
    let outcome = poll_of(raw)->Ok_0;
    if outcome.status.is_terminal() {
        law_a_final_answer_is_never_repeated(runs, run, outcome.status, outcome.text);
    }
}

/// A result whose status is not a terminal one is refused before the run
/// counts as ended and before anything is closed.
pub proof fn law_a_result_needs_a_terminal_status(runs: Runs, run: Text, record: RecordView)
    requires
        decoded(record) is Result,
        !decoded(record)->Result_status.is_terminal(),
    ensures
        input_replayed(runs, Some(run), InputView::Sse(record)) == (
            runs,
            Err::<Seq<StepView>, ReplayErrorView>(ReplayErrorView::NonterminalResult(run)),
        ),
{
}

/// The sequence numbers of a journal grow, an answer to a prompt comes after
/// it, and a run's acceptance comes before the run's other inputs.
pub open spec fn is_orderly(entries: Seq<EntryView>) -> bool {
    &&& forall|i: int, k: int|
        0 <= i < k < entries.len() ==> (#[trigger] entries[i]).sequence < (
        #[trigger] entries[k]).sequence
    &&& forall|k: int|
        0 <= k < entries.len() ==> match (#[trigger] entries[k]).input {
            InputView::PromptAccepted(sequence) => sequence < entries[k].sequence,
            InputView::PromptAborted(sequence) => sequence < entries[k].sequence,
            _ => true,
        }
    &&& forall|i: int, k: int|
        0 <= i < entries.len() && 0 <= k < entries.len() && (#[trigger] entries[i]).run is Some
            && entries[i].input is PromptAccepted && (#[trigger] entries[k]).run == entries[i].run
            && !(entries[k].input is PromptAccepted) ==> i < k
}

/// What capturing the journal's first `count` entries one after the other
/// leaves, each replayed against the journal as it was then.
pub open spec fn live_upto(entries: Seq<EntryView>, count: nat) -> Result<
    (Runs, Seq<StepView>),
    ReplayErrorView,
>
    decreases count,
{
    if count == 0 {
        Ok((no_runs(), Seq::empty()))
    } else {
        match live_upto(entries, (count - 1) as nat) {
            Err(error) => Err(error),
            Ok((runs, steps)) => {
                let projected = entry_projected(
                    runs,
                    entries[count - 1],
                    entries.take(count as int),
                );
                match projected.1 {
                    Err(error) => Err(error),
                    Ok(more) => Ok((projected.0, steps + more)),
                }
            },
        }
    }
}

/// Capturing an entry replays it as the journal as it is then says: after
/// capturing `count` entries of a journal, capturing the next one leaves what
/// [`live_upto`] says of `count + 1`.
pub proof fn law_capture_follows_the_journal(
    state: StateView,
    entries: Seq<EntryView>,
    count: nat,
    run: Option<Text>,
    emit: bool,
)
    requires
        count < entries.len(),
        state.entries == entries.take(count as int),
        live_upto(entries, count) is Ok,
        live_upto(entries, count)->Ok_0.0 == state.runs,
    ensures
        ({
            let after = captured(state, run, entries[count as int], emit);
            &&& after.0.entries == entries.take((count + 1) as int)
            &&& after.1 is Ok <==> live_upto(entries, count + 1) is Ok
            &&& after.1 is Ok ==> after.0.runs == live_upto(entries, count + 1)->Ok_0.0
        }),
{
    assert(entries.take(count as int).push(entries[count as int]) =~= entries.take((count + 1) as int));
}

proof fn lemma_find_in_prefix(
    entries: Seq<EntryView>,
    count: int,
    picks: spec_fn(EntryView) -> bool,
)
    requires
        0 <= count <= entries.len(),
        forall|i: int| count <= i < entries.len() ==> !picks(#[trigger] entries[i]),
    ensures
        find_entry(entries.take(count), picks) == find_entry(entries, picks),
    decreases entries.len(),
{
    if entries.len() == 0 {
        assert(entries.take(count) =~= entries);
    } else if count == 0 {
        assert(!picks(entries[0]));
        assert(entries.take(0).len() == 0);
        lemma_find_in_prefix(entries.skip(1), 0, picks);
        assert(entries.skip(1).take(0).len() == 0);
    } else {
        assert(entries.take(count)[0] == entries[0]);
        assert(entries.take(count).skip(1) =~= entries.skip(1).take(count - 1));
        assert forall|i: int| count - 1 <= i < entries.skip(1).len() implies !picks(
            #[trigger] entries.skip(1)[i],
        ) by {
            assert(entries.skip(1)[i] == entries[i + 1]);
        }
        lemma_find_in_prefix(entries.skip(1), count - 1, picks);
    }
}

proof fn lemma_found_is_there(entries: Seq<EntryView>, picks: spec_fn(EntryView) -> bool)
    requires
        find_entry(entries, picks) is Some,
    ensures
        exists|i: int|
            0 <= i < entries.len() && #[trigger] entries[i] == find_entry(entries, picks)->0
                && picks(entries[i]),
    decreases entries.len(),
{
    if !picks(entries[0]) {
        lemma_found_is_there(entries.skip(1), picks);
        let i = choose|i: int|
            0 <= i < entries.skip(1).len() && #[trigger] entries.skip(1)[i] == find_entry(
                entries.skip(1),
                picks,
            )->0 && picks(entries.skip(1)[i]);
        assert(entries[i + 1] == find_entry(entries, picks)->0);
    } else {
        assert(entries[0] == find_entry(entries, picks)->0);
    }
}

proof fn lemma_projection_needs_only_the_past(runs: Runs, entries: Seq<EntryView>, at: int)
    requires
        is_orderly(entries),
        0 <= at < entries.len(),
    ensures
        entry_projected(runs, entries[at], entries.take(at + 1)) == entry_projected(
            runs,
            entries[at],
            entries,
        ),
{
    let entry = entries[at];
    let past = entries.take(at + 1);
    if !is_silent(entry) {
        if let Some(run) = entry.run {
            let accepts = is_acceptance_of(run);
            assert forall|i: int| at + 1 <= i < entries.len() implies !accepts(
                #[trigger] entries[i],
            ) by {
                if accepts(entries[i]) {
                    assert(entries[i].run == entries[at].run);
                }
            }
            lemma_find_in_prefix(entries, at + 1, accepts);
            if let Some(accepted) = find_entry(entries, accepts) {
                lemma_found_is_there(past, accepts);
                let i = choose|i: int|
                    0 <= i < past.len() && #[trigger] past[i] == find_entry(past, accepts)->0
                        && accepts(past[i]);
                assert(entries[i] == accepted);
                let sequence = accepted.input->PromptAccepted_0;
                let intent = is_intent(sequence);
                assert forall|k: int| at + 1 <= k < entries.len() implies !intent(
                    #[trigger] entries[k],
                ) by {
                    assert(entries[i].sequence < entries[k].sequence);
                }
                lemma_find_in_prefix(entries, at + 1, intent);
            }
        }
        if let InputView::PromptAborted(sequence) = entry.input {
            let numbered = has_sequence(sequence);
            assert forall|k: int| at + 1 <= k < entries.len() implies !numbered(
                #[trigger] entries[k],
            ) by {
                assert(entries[at].sequence < entries[k].sequence);
            }
            lemma_find_in_prefix(entries, at + 1, numbered);
        }
    }
}

/// Reading the journal back rebuilds what capturing it built, step for step: a
/// reloaded session shows what the live one did.
pub proof fn law_reloading_rebuilds_the_live_state(entries: Seq<EntryView>, count: nat)
    requires
        is_orderly(entries),
        count <= entries.len(),
    ensures
        replayed_upto(entries, count) == live_upto(entries, count),
    decreases count,
{
    if count > 0 {
        law_reloading_rebuilds_the_live_state(entries, (count - 1) as nat);
        if let Ok((runs, _)) = live_upto(entries, (count - 1) as nat) {
            lemma_projection_needs_only_the_past(runs, entries, count - 1);
        }
    }
}

/// The steps of a history, batch after batch.
pub open spec fn all_steps(batches: Seq<BatchView>) -> Seq<StepView>
    decreases batches.len(),
{
    if batches.len() == 0 {
        Seq::empty()
    } else {
        all_steps(batches.drop_last()) + batches.last().steps
    }
}

/// A load tells exactly what replay rendered, in the same order.
pub proof fn law_history_is_what_replay_rendered(entries: Seq<EntryView>, count: nat)
    requires
        count <= entries.len(),
    ensures
        history_upto(entries, count) is Ok <==> replayed_upto(entries, count) is Ok,
        history_upto(entries, count) matches Ok(history) ==> {
            &&& history.runs == replayed_upto(entries, count)->Ok_0.0
            &&& all_steps(history.batches) == replayed_upto(entries, count)->Ok_0.1
        },
    decreases count,
{
    if count > 0 {
        law_history_is_what_replay_rendered(entries, (count - 1) as nat);
        if let Ok(history) = history_upto(entries, count) {
            assert(history.batches.drop_last() =~= history_upto(
                entries,
                (count - 1) as nat,
            )->Ok_0.batches);
        }
    }
}

proof fn lemma_no_promptless_run(entries: Seq<EntryView>, runs: Runs, start: nat)
    requires
        promptless_run(entries, runs, start) is None,
    ensures
        forall|i: int|
            start <= i < entries.len() ==> !is_promptless(entries, runs, #[trigger] entries[i]),
    decreases entries.len() - start,
{
    if start < entries.len() {
        lemma_no_promptless_run(entries, runs, start + 1);
    }
}

/// A history that is told at all is told in full: no run of it worked on a
/// prompt nobody knows, and no prompt of it has an unknown fate.
pub proof fn law_history_is_told_in_full(entries: Seq<EntryView>)
    requires
        history_of(entries) is Ok,
    ensures
        forall|i: int|
            0 <= i < entries.len() ==> !is_promptless(
                entries,
                history_of(entries)->Ok_0.runs,
                #[trigger] entries[i],
            ),
        forall|i: int|
            0 <= i < entries.len() && (#[trigger] entries[i]).run is None
                && entries[i].input is Prompt ==> exists|k: int|
                0 <= k < entries.len() && ((#[trigger] entries[k]).input
                    == InputView::PromptAccepted(entries[i].sequence) || entries[k].input
                    == InputView::PromptAborted(entries[i].sequence)),
{
    lemma_no_promptless_run(entries, history_of(entries)->Ok_0.runs, 0);
    assert forall|i: int|
        0 <= i < entries.len() && (#[trigger] entries[i]).run is None
            && entries[i].input is Prompt implies exists|k: int|
        0 <= k < entries.len() && ((#[trigger] entries[k]).input == InputView::PromptAccepted(
            entries[i].sequence,
        ) || entries[k].input == InputView::PromptAborted(entries[i].sequence)) by {
        assert(!crate::cursor::projection::is_unsettled(entries[i], entries));
        let k = choose|k: int|
            0 <= k < entries.len() && crate::cursor::projection::settles_prompt(
                #[trigger] entries[k],
                entries[i].sequence,
            );
        assert(0 <= k < entries.len());
    }
}

/// A failed capture leaves the journal and what replay knows as they were,
/// refuses every capture after it, and only a load lifts that.
pub proof fn law_capture_stops_at_its_first_failure(
    state: StateView,
    run: Option<Text>,
    input: InputView,
)
    ensures
        after_capture_failure(state).entries == state.entries,
        after_capture_failure(state).runs == state.runs,
        capture_start(after_capture_failure(state), run, input) is Refused,
        turn_started(after_capture_failure(state)).action matches TurnActionView::Finish(Err(_)),
        !(capture_start(load_begun(after_capture_failure(state)), run, input) is Refused),
{
}

/// What is captured silently reaches no client.
pub proof fn law_silent_capture_delivers_nothing(
    state: StateView,
    run: Option<Text>,
    entry: EntryView,
)
    requires
        captured(state, run, entry, false).1 is Ok,
    ensures
        captured(state, run, entry, false).1->Ok_0.completion is None,
        forall|i: int|
            0 <= i < captured(state, run, entry, false).1->Ok_0.steps.len() ==> !(
            #[trigger] captured(state, run, entry, false).1->Ok_0.steps[i]).deliver,
{
}

/// The client is never sent back the prompt it is waiting on.
pub proof fn law_a_local_prompt_is_not_echoed(
    state: StateView,
    run: Text,
    entry: EntryView,
    emit: bool,
    accepted: int,
)
    requires
        state.active_run == Some(run),
        0 <= accepted < state.entries.len(),
        accepts_for(state.entries[accepted], run),
        captured(state, Some(run), entry, emit).1 is Ok,
    ensures
        forall|i: int|
            #![trigger captured(state, Some(run), entry, emit).1->Ok_0.steps[i]]
            0 <= i < captured(state, Some(run), entry, emit).1->Ok_0.steps.len() && captured(
                state,
                Some(run),
                entry,
                emit,
            ).1->Ok_0.steps[i].step is UserMessage ==> !captured(
                state,
                Some(run),
                entry,
                emit,
            ).1->Ok_0.steps[i].deliver,
        captured(state, Some(run), entry, emit).1->Ok_0.completion is None,
{
    assert(accepts_for(state.entries.push(entry)[accepted], run));
}

/// A polling body that repeats the journal's last entry is not captured again.
pub proof fn law_a_repeated_poll_is_captured_once(
    state: StateView,
    run: Option<Text>,
    sequence: i64,
    raw: Text,
    emit: bool,
)
    requires
        !state.capture_failed,
        captured(
            state,
            run,
            EntryView { sequence, run, input: InputView::Poll(raw) },
            emit,
        ).1 is Ok,
    ensures
        capture_start(
            captured(
                state,
                run,
                EntryView { sequence, run, input: InputView::Poll(raw) },
                emit,
            ).0,
            run,
            InputView::Poll(raw),
        ) is Duplicate,
{
}

/// Sequence numbers grow as long as storage appends past the mark it was told.
pub proof fn law_captured_sequences_grow(
    state: StateView,
    run: Option<Text>,
    entry: EntryView,
    emit: bool,
)
    requires
        forall|i: int, k: int|
            0 <= i < k < state.entries.len() ==> (#[trigger] state.entries[i]).sequence < (
            #[trigger] state.entries[k]).sequence,
        entry.sequence > high_water(state.entries),
    ensures
        ({
            let entries = captured(state, run, entry, emit).0.entries;
            forall|i: int, k: int|
                0 <= i < k < entries.len() ==> (#[trigger] entries[i]).sequence < (
                #[trigger] entries[k]).sequence
        }),
{
    let entries = captured(state, run, entry, emit).0.entries;
    let count = state.entries.len() as int;
    assert(entries == state.entries.push(entry));
    assert forall|i: int, k: int| 0 <= i < k < entries.len() implies (
    #[trigger] entries[i]).sequence < (#[trigger] entries[k]).sequence by {
        assert(entries[i] == state.entries[i]);
        if k < count {
            assert(entries[k] == state.entries[k]);
        } else {
            assert(state.entries[i].sequence <= state.entries[count - 1].sequence);
        }
    }
}

/// A stop never cuts a live stream short: what a record leads to, and what its
/// capture leads to, is the same whether or not the client has stopped.
pub proof fn law_a_stop_never_cuts_a_live_stream(
    ingest: IngestView,
    state: StateView,
    event: IngestEventView,
)
    requires
        ingest.phase is Opening || ingest.phase is Reading || ingest.phase is Recording
            || ingest.phase is NotingFailure || ingest.phase is Reconciling,
        ingest_expects(ingest.phase, event),
    ensures
        ingest_stepped(ingest, state, true, event) == ingest_stepped(ingest, state, false, event),
{
}

/// Whether an event tells how the run ended.
pub open spec fn tells_the_end(ingest: IngestView, event: IngestEventView) -> bool {
    match (ingest.phase, event) {
        (IngestPhaseView::Reading, IngestEventView::Record(record)) => decoded(record) is Result,
        (IngestPhaseView::Recording { record }, _) => decoded(record) is Result,
        (_, IngestEventView::Polled(Ok(outcome))) => outcome.status.is_terminal(),
        _ => false,
    }
}

/// A run is only marked reconciled on a real terminal fact of the provider:
/// ingestion learns an end from nothing else, and asks for the marker only once
/// it has one. Hydration moreover needs the run's whole history.
pub proof fn law_reconciliation_needs_a_provider_end(
    ingest: IngestView,
    state: StateView,
    cancelled: bool,
    event: IngestEventView,
)
    requires
        ingest_expects(ingest.phase, event),
    ensures
        ({
            let next = ingest_stepped(ingest, state, cancelled, event);
            &&& next.0.terminal is Some && next.0.terminal != ingest.terminal ==> tells_the_end(
                ingest,
                event,
            )
            &&& next.1 matches IngestActionView::Capture { input: InputView::Reconciled, .. } ==> {
                &&& next.0.terminal is Some || state.runs[ingest.run].terminal is Some
                &&& ingest.mode.strict ==> state.runs[ingest.run].complete()
            }
        }),
{
}

/// Content the journal already holds is matched, never captured twice.
pub proof fn law_captured_content_is_not_captured_again(
    ingest: IngestView,
    state: StateView,
    cancelled: bool,
    record: RecordView,
)
    requires
        ingest.phase is Reading,
        is_content_event(record.event),
        ingest.matched < ingest.captured.len(),
    ensures
        ({
            let next = ingest_stepped(ingest, state, cancelled, IngestEventView::Record(record));
            if ingest.captured[ingest.matched as int] == record {
                next.1 is Read && next.0.matched == ingest.matched + 1
            } else {
                next.1 matches IngestActionView::Finish(Err(_))
            }
        }),
{
}

/// How far ingestion is from giving up: reopened streams, then polls.
pub open spec fn ingest_budget(ingest: IngestView) -> (nat, nat) {
    (
        if ingest.mode.attempt <= STREAM_RETRIES {
            (STREAM_RETRIES - ingest.mode.attempt) as nat
        } else {
            0
        },
        match ingest.phase {
            IngestPhaseView::Polling { attempt } => if attempt < POLL_ATTEMPTS {
                (2 * (POLL_ATTEMPTS - attempt)) as nat
            } else {
                0
            },
            IngestPhaseView::Pausing { attempt } => if attempt < POLL_ATTEMPTS {
                (2 * (POLL_ATTEMPTS - attempt) - 1) as nat
            } else {
                0
            },
            _ => (2 * POLL_ATTEMPTS + 1) as nat,
        },
    )
}

/// A run without a readable stream is polled a bounded number of times: every
/// poll and every pause uses up some of the budget, and a stream is opened
/// again only while retries are left.
pub proof fn law_ingestion_gives_up(
    ingest: IngestView,
    state: StateView,
    cancelled: bool,
    event: IngestEventView,
)
    requires
        ingest_wf(ingest),
        ingest_expects(ingest.phase, event),
        ingest.phase matches IngestPhaseView::Polling { attempt } ==> attempt < POLL_ATTEMPTS,
        ingest.phase matches IngestPhaseView::Pausing { attempt } ==> attempt < POLL_ATTEMPTS,
    ensures
        ({
            let next = ingest_stepped(ingest, state, cancelled, event).0;
            &&& next.phase matches IngestPhaseView::Polling { attempt } ==> attempt < POLL_ATTEMPTS
            &&& next.phase matches IngestPhaseView::Pausing { attempt } ==> attempt < POLL_ATTEMPTS
            &&& (ingest.phase is Polling || ingest.phase is Pausing) && (next.phase is Polling
                || next.phase is Pausing) ==> ingest_budget(next).1 < ingest_budget(ingest).1
            &&& ingest.phase is Retrying ==> next.mode.attempt == ingest.mode.attempt || (
            next.mode.attempt == ingest.mode.attempt + 1 && next.mode.attempt <= STREAM_RETRIES)
        }),
{
}

/// Cursor is asked to start work only right after the prompt was journaled,
/// and only while the client has not stopped.
pub proof fn law_a_prompt_is_journaled_before_it_is_sent(
    turn: TurnView,
    state: StateView,
    request: RequestView,
    event: TurnEventView,
)
    requires
        turn_expects(turn, state, event),
        turn_stepped(turn, state, request, event).action is CreateAgent || turn_stepped(
            turn,
            state,
            request,
            event,
        ).action is CreateRun,
    ensures
        turn is Recording,
        event is Done && event->Done_0 is Ok,
        !state.cancelled,
{
}

/// A turn whose client has sent a cancel answers `Cancelled`, whatever the
/// stream's own ending was, unless capture itself failed.
pub proof fn law_a_cancelled_turn_answers_cancelled(outcome: Result<StopReason, ErrorView>)
    requires
        outcome matches Err(error) ==> error is Cursor,
    ensures
        verdict_of(outcome, true) == Ok::<StopReason, ErrorView>(StopReason::Cancelled),
        outcome is Ok ==> verdict_of(outcome, false) == outcome,
{
}

/// The active run is exactly the one a turn is stopping or streaming.
pub open spec fn active_run_is_the_turns(turn: TurnView, state: StateView) -> bool {
    match turn {
        TurnView::Stopping { run, .. } => state.active_run == Some(run),
        TurnView::Streaming { run } => state.active_run == Some(run),
        _ => state.active_run is None,
    }
}

/// A session has an active run exactly while a turn is streaming it, so
/// nothing is left active once the turn is over.
pub proof fn law_a_finished_turn_leaves_no_active_run(
    turn: TurnView,
    state: StateView,
    request: RequestView,
    event: TurnEventView,
)
    requires
        turn_expects(turn, state, event),
        active_run_is_the_turns(turn, state),
    ensures
        active_run_is_the_turns(
            turn_stepped(turn, state, request, event).turn,
            turn_stepped(turn, state, request, event).state,
        ),
        turn_stepped(turn, state, request, event).action is Finish <==> turn_stepped(
            turn,
            state,
            request,
            event,
        ).turn is Finished,
{
}

/// The watermark moves only to a run that was reconciled, and only once the
/// host has checkpointed it.
pub proof fn law_the_watermark_moves_only_to_delivered_runs(
    turn: TurnView,
    state: StateView,
    request: RequestView,
    event: TurnEventView,
)
    requires
        turn_expects(turn, state, event),
    ensures
        ({
            let next = turn_stepped(turn, state, request, event);
            &&& next.state.last_run != state.last_run ==> turn is Checkpointing && event is Done
                && event->Done_0 is Ok && next.state.last_run == Some(turn->Checkpointing_run)
            &&& next.turn matches TurnView::Checkpointing { run, .. } ==> is_reconciled(
                state.entries,
                run,
            )
        }),
{
}

/// A stop that beat the run into existence is sent the moment the run has an
/// id, before its stream is read.
pub proof fn law_an_early_stop_is_sent_once_the_run_exists(
    agent: Text,
    run: Text,
    state: StateView,
    request: RequestView,
)
    requires
        state.cancelled,
    ensures
        turn_stepped(
            TurnView::CatchingUp { agent, run },
            state,
            request,
            TurnEventView::Done(Ok(())),
        ).action == (TurnActionView::CancelRun { agent, run }),
{
}

proof fn lemma_filtered(runs: Seq<Text>, picks: spec_fn(Text) -> bool, run: Text)
    ensures
        runs.filter(picks).contains(run) <==> runs.contains(run) && picks(run),
{
    if runs.filter(picks).contains(run) {
        runs.lemma_filter_contains_rev(picks, run);
        let i = runs.filter(picks).index_of(run);
        runs.lemma_filter_pred(picks, i);
    }
    if runs.contains(run) && picks(run) {
        runs.lemma_filter_contains(picks, runs.index_of(run));
    }
}

proof fn lemma_reversed(runs: Seq<Text>, run: Text)
    ensures
        runs.reverse().contains(run) <==> runs.contains(run),
{
    if runs.contains(run) {
        let i = runs.index_of(run);
        assert(runs.reverse()[runs.len() - 1 - i] == run);
    }
    if runs.reverse().contains(run) {
        let i = runs.reverse().index_of(run);
        assert(runs[runs.len() - 1 - i] == run);
    }
}

proof fn lemma_mirror_membership(
    entries: Seq<EntryView>,
    listed: Seq<Text>,
    watermark: Option<Text>,
    current: Option<Text>,
    run: Text,
)
    ensures
        runs_to_mirror(entries, listed, watermark, current).contains(run) <==> {
            &&& current != Some(run)
            &&& pending_runs(entries).contains(run) || (listed.contains(run) && newer_runs(
                listed,
                watermark,
            ).contains(run))
        },
{
    let pending = pending_runs(entries);
    let newer = newer_runs(listed, watermark);
    let unlisted = pending.filter(is_unlisted(listed, current));
    let wanted = listed.reverse().filter(is_wanted(pending, newer, current));
    lemma_filtered(pending, is_unlisted(listed, current), run);
    lemma_filtered(listed.reverse(), is_wanted(pending, newer, current), run);
    lemma_reversed(listed, run);
    let all = unlisted + wanted;
    if unlisted.contains(run) {
        assert(all[unlisted.index_of(run)] == run);
    }
    if wanted.contains(run) {
        assert(all[unlisted.len() + wanted.index_of(run)] == run);
    }
    if all.contains(run) {
        let i = all.index_of(run);
        if i < unlisted.len() {
            assert(unlisted[i] == run);
        } else {
            assert(wanted[i - unlisted.len()] == run);
        }
    }
}

/// The run a turn is about is never caught up from under it.
pub proof fn law_the_current_run_is_not_mirrored(
    entries: Seq<EntryView>,
    listed: Seq<Text>,
    watermark: Option<Text>,
    current: Text,
)
    ensures
        !runs_to_mirror(entries, listed, watermark, Some(current)).contains(current),
{
    lemma_mirror_membership(entries, listed, watermark, Some(current), current);
}

/// Every journaled run that is not reconciled recovers, whether or not the
/// provider still lists it and wherever the watermark is.
pub proof fn law_pending_runs_recover(
    entries: Seq<EntryView>,
    listed: Seq<Text>,
    watermark: Option<Text>,
    current: Option<Text>,
    at: int,
)
    requires
        0 <= at < entries.len(),
        entries[at].run is Some,
        entries[at].run != current,
        !is_reconciled(entries, entries[at].run->0),
    ensures
        runs_to_mirror(entries, listed, watermark, current).contains(entries[at].run->0),
{
    lemma_pending_contains(entries, entries.len(), at);
    lemma_mirror_membership(entries, listed, watermark, current, entries[at].run->0);
}

proof fn lemma_pending_contains(entries: Seq<EntryView>, count: nat, at: int)
    requires
        0 <= at < count <= entries.len(),
        entries[at].run is Some,
        !is_reconciled(entries, entries[at].run->0),
    ensures
        pending_upto(entries, count).contains(entries[at].run->0),
    decreases count,
{
    let run = entries[at].run->0;
    let before = pending_upto(entries, (count - 1) as nat);
    if at < count - 1 {
        lemma_pending_contains(entries, (count - 1) as nat, at);
        let i = before.index_of(run);
        assert(pending_upto(entries, count)[i] == run);
    } else if !before.contains(run) {
        assert(pending_upto(entries, count)[before.len() as int] == run);
    }
}

/// Without a watermark only what the journal left unreconciled is caught up,
/// rather than everything replayed.
pub proof fn law_without_a_watermark_only_pending_runs_are_mirrored(
    entries: Seq<EntryView>,
    listed: Seq<Text>,
    current: Option<Text>,
    run: Text,
)
    requires
        runs_to_mirror(entries, listed, None, current).contains(run),
    ensures
        pending_runs(entries).contains(run),
{
    lemma_mirror_membership(entries, listed, None, current, run);
}

/// A turn may lose its liveness, never its answer: however a live stream ends
/// without saying how the run did, the run's record is polled.
pub proof fn law_a_broken_stream_is_polled(
    ingest: IngestView,
    state: StateView,
    cancelled: bool,
    event: IngestEventView,
)
    requires
        !ingest.mode.strict,
        ingest.terminal is None,
        (ingest.phase is NotingFailure && event == IngestEventView::Captured(Ok(())))
            || (ingest.phase is Reading && event is StreamEnded),
    ensures
        ingest_stepped(ingest, state, cancelled, event) == (
            IngestView { phase: IngestPhaseView::Polling { attempt: 0 }, ..ingest },
            IngestActionView::Poll,
        ),
{
}

} // verus!

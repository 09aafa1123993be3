//! What replay makes of native input, entry by entry and over whole streams.

use crate::cursor::event::{EventView, InteractionView};
use crate::cursor::journal::{
    decoded, input_replayed, no_runs, poll_of, replay_error_message, replayed_as, BlockView,
    ContentBlock, EntryView, InputView, JournalInput, RecordView, ReplayErrorView, ReplayStep,
    RunView, Runs, StepView,
};
use crate::cursor::laws::law_replay_only_learns;
use crate::cursor::model::{outcome_of, StatusView, TurnOutcomeView};
use crate::cursor::projection::{
    accepted_only, entry_projected, find_entry, has_sequence, history_of, history_upto,
    is_acceptance_of, is_intent, is_promptless, is_silent, is_unsettled, prompt_projected, promptless_run,
    prompts_settled, replay_input_of, settles_prompt, tail_upto, HistoryErrorView, HistoryView,
};
use crate::cursor::session::{
    accepts_for, capture_start, captured, CaptureStartView, ErrorView, StateView,
};
use crate::text::Text;
use vstd::prelude::*;

verus! {

/// Whether a message opens a new step of the agent's work.
pub open spec fn starts_step(record: RecordView) -> bool {
    decoded(record) == EventView::Interaction(
        InteractionView::Other { kind: "step-started"@ },
    )
}

/// The answer a stretch of messages spells out, piece after piece.
pub open spec fn spoken(records: Seq<RecordView>) -> Text
    decreases records.len(),
{
    if records.len() == 0 {
        Seq::empty()
    } else {
        match decoded(records.last()) {
            EventView::Assistant { text } => spoken(records.drop_last()) + text,
            _ => spoken(records.drop_last()),
        }
    }
}

/// What replay knows after a stretch of a run's messages.
pub open spec fn heard(runs: Runs, run: Text, records: Seq<RecordView>) -> Runs
    decreases records.len(),
{
    if records.len() == 0 {
        runs
    } else {
        input_replayed(
            heard(runs, run, records.drop_last()),
            Some(run),
            InputView::Sse(records.last()),
        ).0
    }
}

/// A new step forgets what was said before it: the run's answer starts over,
/// nothing is shown, and the run's prompt and end stay as they were.
pub proof fn law_a_new_step_starts_the_answer_over(runs: Runs, run: Text, record: RecordView)
    requires
        starts_step(record),
    ensures
        ({
            let after = input_replayed(runs, Some(run), InputView::Sse(record));
            &&& after.0[run].text == Seq::<char>::empty()
            &&& after.0[run].prompt == runs[run].prompt
            &&& after.0[run].terminal == runs[run].terminal
            &&& after.1 == Ok::<Seq<StepView>, ReplayErrorView>(Seq::empty())
        }),
{
}

/// Within a step the answer only grows, by exactly what the agent says: after
/// any messages that neither open another step nor end the run, what is known
/// of the answer is what was known before and then every piece in order.
pub proof fn law_an_answer_is_what_was_said(runs: Runs, run: Text, records: Seq<RecordView>)
    requires
        forall|i: int|
            0 <= i < records.len() ==> !starts_step(#[trigger] records[i]) && !(decoded(
                records[i],
            ) is Result),
    ensures
        heard(runs, run, records)[run].text == runs[run].text + spoken(records),
        heard(runs, run, records)[run].terminal == runs[run].terminal,
    decreases records.len(),
{
    if records.len() == 0 {
        assert(runs[run].text + Seq::<char>::empty() =~= runs[run].text);
    } else {
        let said = records.drop_last();
        assert forall|i: int| 0 <= i < said.len() implies !starts_step(#[trigger] said[i]) && !(
        decoded(said[i]) is Result) by {
            assert(said[i] == records[i]);
        }
        law_an_answer_is_what_was_said(runs, run, said);
        let last = records[records.len() - 1];
        assert(!starts_step(last));
        if let EventView::Assistant { text } = decoded(last) {
            assert(runs[run].text + spoken(said) + text =~= runs[run].text + (spoken(said)
                + text));
        }
    }
}

/// The final answer is the last step's: whatever was said before a new step, a
/// result whose text is exactly what was said since is accepted, adds nothing
/// to what was shown, and ends the run.
pub proof fn law_a_final_answer_is_the_last_steps(
    runs: Runs,
    run: Text,
    started: RecordView,
    records: Seq<RecordView>,
    result: RecordView,
)
    requires
        starts_step(started),
        forall|i: int|
            0 <= i < records.len() ==> !starts_step(#[trigger] records[i]) && !(decoded(
                records[i],
            ) is Result),
        decoded(result) is Result,
        decoded(result)->Result_status.is_terminal(),
        decoded(result)->Result_text == Some(spoken(records)),
    ensures
        ({
            let opened = input_replayed(runs, Some(run), InputView::Sse(started)).0;
            let ended = input_replayed(
                heard(opened, run, records),
                Some(run),
                InputView::Sse(result),
            );
            &&& ended.1 == Ok::<Seq<StepView>, ReplayErrorView>(seq![StepView::CloseOpenCalls])
            &&& ended.0[run].terminal == Some(decoded(result)->Result_status)
            &&& ended.0[run].text == spoken(records)
        }),
{
    let opened = input_replayed(runs, Some(run), InputView::Sse(started)).0;
    law_an_answer_is_what_was_said(opened, run, records);
    assert(Seq::<char>::empty() + spoken(records) =~= spoken(records));
    assert(spoken(records).take(spoken(records).len() as int) =~= spoken(records));
    let ended = input_replayed(heard(opened, run, records), Some(run), InputView::Sse(result));
    assert(ended.1->Ok_0 =~= seq![StepView::CloseOpenCalls]);
}

/// A final answer that continues what was said is completed by what is
/// missing, and only that; one that does not continue it is refused and changes
/// nothing. What is open is closed at the end, and only there.
pub proof fn law_a_final_answer_continues_what_was_said(
    runs: Runs,
    run: Text,
    result: RecordView,
    text: Text,
)
    requires
        decoded(result) is Result,
        decoded(result)->Result_status.is_terminal(),
        decoded(result)->Result_text == Some(text),
    ensures
        ({
            let known = runs[run].text;
            let ended = input_replayed(runs, Some(run), InputView::Sse(result));
            &&& ended.1 is Ok <==> (exists|more: Text| text == #[trigger] (known + more))
            &&& forall|more: Text|
                text == #[trigger] (known + more) && more.len() > 0 ==> ended.1 == Ok::<
                    Seq<StepView>,
                    ReplayErrorView,
                >(
                    seq![
                        StepView::Translate {
                            event: EventView::Assistant { text: more },
                            record: None,
                        },
                        StepView::CloseOpenCalls,
                    ],
                )
            &&& text == known ==> ended.1 == Ok::<Seq<StepView>, ReplayErrorView>(
                seq![StepView::CloseOpenCalls],
            )
            &&& ended.1 is Ok ==> {
                &&& ended.0[run].text == text
                &&& ended.0[run].terminal == Some(decoded(result)->Result_status)
                &&& ended.0[run].prompt == runs[run].prompt
            }
            &&& ended.1 is Err ==> ended.0 == runs && ended.1->Err_0
                == ReplayErrorView::DivergedText(run)
        }),
{
    let known = runs[run].text;
    let ended = input_replayed(runs, Some(run), InputView::Sse(result));
    if known.len() <= text.len() && text.take(known.len() as int) == known {
        assert(text =~= known + text.skip(known.len() as int));
    }
    assert forall|more: Text| text == #[trigger] (known + more) implies ended.1 is Ok && (
    more.len() > 0 ==> ended.1->Ok_0 == seq![
        StepView::Translate { event: EventView::Assistant { text: more }, record: None },
        StepView::CloseOpenCalls,
    ]) by {
        assert(text.take(known.len() as int) =~= known);
        assert(text.skip(known.len() as int) =~= more);
        if more.len() > 0 {
            assert(ended.1->Ok_0 =~= seq![
                StepView::Translate { event: EventView::Assistant { text: more }, record: None },
                StepView::CloseOpenCalls,
            ]);
        }
    }
    if text == known {
        assert(text =~= known + Seq::<char>::empty());
        assert(ended.1->Ok_0 =~= seq![StepView::CloseOpenCalls]);
    }
}

/// A result without a text ends the run and closes what is open, and leaves
/// the answer as it was streamed.
pub proof fn law_a_result_without_a_text_keeps_the_answer(
    runs: Runs,
    run: Text,
    result: RecordView,
)
    requires
        decoded(result) is Result,
        decoded(result)->Result_status.is_terminal(),
        decoded(result)->Result_text is None,
    ensures
        ({
            let ended = input_replayed(runs, Some(run), InputView::Sse(result));
            &&& ended.1 == Ok::<Seq<StepView>, ReplayErrorView>(seq![StepView::CloseOpenCalls])
            &&& ended.0[run] == RunView {
                terminal: Some(decoded(result)->Result_status),
                ..runs[run]
            }
        }),
{
}

/// Polling a run's end is as good as streaming it: a polling body with a
/// terminal status does exactly what a streamed result of that status and text
/// does. One that says the run goes on does nothing, and one that cannot be
/// read fails and changes nothing.
pub proof fn law_a_polled_end_is_a_streamed_end(
    runs: Runs,
    run: Text,
    raw: Text,
    result: RecordView,
)
    ensures
        ({
            let polled = input_replayed(runs, Some(run), InputView::Poll(raw));
            let streamed = input_replayed(runs, Some(run), InputView::Sse(result));
            match poll_of(raw) {
                Ok(outcome) => {
                    &&& decoded(result) is Result && outcome.status.is_terminal()
                        && decoded(result)->Result_status == outcome.status
                        && decoded(result)->Result_text == outcome.text ==> polled == streamed
                    &&& !outcome.status.is_terminal() ==> polled == (
                        runs,
                        Ok::<Seq<StepView>, ReplayErrorView>(Seq::empty()),
                    )
                },
                Err(error) => polled == (runs, Err::<Seq<StepView>, ReplayErrorView>(error)),
            }
        }),
{
}

/// A message that is neither an answer's piece, a prompt's echo, a new step nor
/// a result is handed on as it came, once, and teaches replay nothing; an
/// answer's piece is handed on the same way and joins the answer.
pub proof fn law_messages_are_handed_on(runs: Runs, run: Text, record: RecordView)
    requires
        !starts_step(record),
        !(decoded(record) is Result),
        !(decoded(record) matches EventView::Interaction(InteractionView::UserMessage { .. })),
    ensures
        ({
            let after = input_replayed(runs, Some(run), InputView::Sse(record));
            &&& after.1 is Ok
            &&& after.1->Ok_0.len() == 1
            &&& after.1->Ok_0[0] == (StepView::Translate {
                event: decoded(record),
                record: Some(record),
            })
            &&& match decoded(record) {
                EventView::Assistant { text } => after.0[run] == RunView {
                    text: runs[run].text + text,
                    ..runs[run]
                },
                _ => after.0 == runs,
            }
        }),
{
}

/// A prompt nobody has shown yet is shown block by block, in the client's
/// order, and is known from then on; the provider's echo of it is shown
/// instead where the blocks are not known.
pub proof fn law_a_prompt_is_shown_as_written(
    runs: Runs,
    run: Text,
    blocks: Seq<BlockView>,
    record: RecordView,
    text: Text,
)
    requires
        !runs[run].prompt,
        decoded(record) == EventView::Interaction(InteractionView::UserMessage { text }),
    ensures
        ({
            let original = input_replayed(runs, Some(run), InputView::Prompt(blocks));
            let unsent = input_replayed(runs, None, InputView::Prompt(blocks));
            let echoed = input_replayed(runs, Some(run), InputView::Sse(record));
            &&& original.1 is Ok
            &&& original.1->Ok_0.len() == blocks.len()
            &&& forall|i: int|
                0 <= i < blocks.len() ==> #[trigger] original.1->Ok_0[i] == StepView::UserMessage(
                    blocks[i],
                )
            &&& original.0[run] == RunView { prompt: true, ..runs[run] }
            &&& unsent.1 == original.1
            &&& unsent.0 == runs
            &&& echoed.1 == Ok::<Seq<StepView>, ReplayErrorView>(
                seq![StepView::UserMessage(BlockView::Text(text))],
            )
            &&& echoed.0 == original.0
        }),
{
}

/// What only keeps the books shows nothing and teaches replay nothing: how a
/// prompt fared, a broken connection, that a run or a history is complete. An
/// interruption closes what is open and does no more.
pub proof fn law_bookkeeping_is_not_shown(runs: Runs, run: Option<Text>, input: InputView)
    ensures
        input is PromptAccepted || input is PromptAborted || input is TransportError
            || input is Reconciled || input is HistoryComplete ==> input_replayed(runs, run, input)
            == (runs, Ok::<Seq<StepView>, ReplayErrorView>(Seq::empty())),
        input is Interrupted && run is Some ==> input_replayed(runs, run, input) == (
            runs,
            Ok::<Seq<StepView>, ReplayErrorView>(seq![StepView::CloseOpenCalls]),
        ),
        run is None && !(input is Prompt) ==> input_replayed(runs, run, input) == (
            runs,
            Ok::<Seq<StepView>, ReplayErrorView>(Seq::empty()),
        ),
{
}

/// Nothing is known of a run before anything was heard of it.
pub proof fn law_nothing_is_known_at_first(run: Text)
    ensures
        !no_runs()[run].prompt,
        no_runs()[run].text.len() == 0,
        no_runs()[run].terminal is None,
        !no_runs()[run].complete(),
{
}

/// What replay complains of names the run it complains of, and tells its
/// complaints apart.
pub proof fn law_a_replay_error_names_its_run(run: Text, message: Text)
    ensures
        replay_error_message(ReplayErrorView::NonterminalResult(run))
            == "nonterminal Cursor result for "@ + run,
        replay_error_message(ReplayErrorView::DivergedText(run))
            == "Cursor final text diverged from the captured stream for "@ + run,
        replay_error_message(ReplayErrorView::PollNotJson(message)) == message,
{
}

proof fn lemma_first_found(entries: Seq<EntryView>, picks: spec_fn(EntryView) -> bool, at: int)
    requires
        0 <= at < entries.len(),
        picks(entries[at]),
        forall|i: int| 0 <= i < at ==> !picks(#[trigger] entries[i]),
    ensures
        find_entry(entries, picks) == Some(entries[at]),
    decreases at,
{
    if at > 0 {
        assert(!picks(entries[0]));
        assert(entries.skip(1)[at - 1] == entries[at]);
        assert forall|i: int| 0 <= i < at - 1 implies !picks(#[trigger] entries.skip(1)[i]) by {
            assert(entries.skip(1)[i] == entries[i + 1]);
        }
        lemma_first_found(entries.skip(1), picks, at - 1);
    }
}

/// An accepted prompt opens its run's conversation: before the first thing a
/// run whose prompt is not known yet shows, the blocks of the prompt the run
/// accepted are shown, all of them and in order, wherever the journal holds
/// them. What the run shows itself follows.
pub proof fn law_an_accepted_prompt_opens_its_run(
    runs: Runs,
    entries: Seq<EntryView>,
    entry: EntryView,
    run: Text,
    accepted: int,
    intent: int,
    blocks: Seq<BlockView>,
)
    requires
        entry.run == Some(run),
        !(entry.input is PromptAccepted),
        !(entry.input is PromptAborted),
        !runs[run].prompt,
        0 <= accepted < entries.len(),
        entries[accepted].run == Some(run),
        0 <= intent < entries.len(),
        entries[accepted].input == InputView::PromptAccepted(entries[intent].sequence),
        entries[intent].run is None,
        entries[intent].input == InputView::Prompt(blocks),
        forall|i: int|
            0 <= i < accepted ==> !((#[trigger] entries[i]).run == Some(run)
                && entries[i].input is PromptAccepted),
        forall|i: int|
            0 <= i < intent ==> !((#[trigger] entries[i]).sequence == entries[intent].sequence
                && entries[i].run is None),
        entry_projected(runs, entry, entries).1 is Ok,
    ensures
        ({
            let projected = entry_projected(runs, entry, entries);
            let known = runs.insert(run, RunView { prompt: true, ..runs[run] });
            let steps = projected.1->Ok_0;
            &&& projected.0[run].prompt
            &&& steps.len() >= blocks.len()
            &&& forall|i: int|
                0 <= i < blocks.len() ==> #[trigger] steps[i] == StepView::UserMessage(blocks[i])
            &&& input_replayed(known, Some(run), entry.input).1 == Ok::<
                Seq<StepView>,
                ReplayErrorView,
            >(steps.skip(blocks.len() as int))
            &&& input_replayed(known, Some(run), entry.input).0 == projected.0
        }),
{
    lemma_first_found(entries, is_acceptance_of(run), accepted);
    lemma_first_found(entries, is_intent(entries[intent].sequence), intent);
    let known = runs.insert(run, RunView { prompt: true, ..runs[run] });
    let own = input_replayed(known, Some(run), entry.input).1->Ok_0;
    let steps = entry_projected(runs, entry, entries).1->Ok_0;
    assert(steps.skip(blocks.len() as int) =~= own);
}

/// A run whose prompt is known, or that accepted none, shows what its entry
/// replays to and nothing before it.
pub proof fn law_a_known_run_shows_its_own_entries(
    runs: Runs,
    entries: Seq<EntryView>,
    entry: EntryView,
    run: Text,
)
    requires
        entry.run == Some(run),
        !(entry.input is PromptAccepted),
        !(entry.input is PromptAborted),
        runs[run].prompt || forall|i: int|
            0 <= i < entries.len() ==> !((#[trigger] entries[i]).run == Some(run)
                && entries[i].input is PromptAccepted),
    ensures
        entry_projected(runs, entry, entries).0 == input_replayed(
            runs,
            Some(run),
            entry.input,
        ).0,
        entry_projected(runs, entry, entries).1 == input_replayed(
            runs,
            Some(run),
            entry.input,
        ).1,
{
    if !runs[run].prompt {
        lemma_none_found(entries, is_acceptance_of(run));
    }
    let replayed = input_replayed(runs, Some(run), entry.input);
    if let Ok(steps) = replayed.1 {
        assert(Seq::<StepView>::empty() + Seq::<StepView>::empty() + steps =~= steps);
    }
}

proof fn lemma_none_found(entries: Seq<EntryView>, picks: spec_fn(EntryView) -> bool)
    requires
        forall|i: int| 0 <= i < entries.len() ==> !picks(#[trigger] entries[i]),
    ensures
        find_entry(entries, picks) is None,
    decreases entries.len(),
{
    if entries.len() > 0 {
        assert(!picks(entries[0]));
        assert forall|i: int| 0 <= i < entries.skip(1).len() implies !picks(
            #[trigger] entries.skip(1)[i],
        ) by {
            assert(entries.skip(1)[i] == entries[i + 1]);
        }
        lemma_none_found(entries.skip(1), picks);
    }
}

/// A prompt shows nothing where it was only intended or accepted; where it was
/// given up it is shown, all blocks in order, and nothing else.
pub proof fn law_a_prompt_given_up_is_shown_there(
    runs: Runs,
    entries: Seq<EntryView>,
    entry: EntryView,
    intent: int,
    blocks: Seq<BlockView>,
)
    requires
        0 <= intent < entries.len(),
        entries[intent].input == InputView::Prompt(blocks),
        entry.run is None,
        entry.input == InputView::PromptAborted(entries[intent].sequence),
        forall|i: int|
            0 <= i < intent ==> (#[trigger] entries[i]).sequence != entries[intent].sequence,
    ensures
        ({
            let projected = entry_projected(runs, entry, entries);
            &&& projected.0 == runs
            &&& projected.1 is Ok
            &&& projected.1->Ok_0.len() == blocks.len()
            &&& forall|i: int|
                0 <= i < blocks.len() ==> #[trigger] projected.1->Ok_0[i]
                    == StepView::UserMessage(blocks[i])
        }),
{
    lemma_first_found(entries, has_sequence(entries[intent].sequence), intent);
    let steps = entry_projected(runs, entry, entries).1->Ok_0;
    assert(steps =~= blocks.map_values(|block: BlockView| StepView::UserMessage(block)));
}

/// Intent by itself is not conversation.
pub proof fn law_intent_is_not_shown(runs: Runs, entries: Seq<EntryView>, entry: EntryView)
    requires
        entry.input is PromptAccepted || (entry.run is None && !(entry.input is PromptAborted)),
    ensures
        entry_projected(runs, entry, entries).0 == runs,
        entry_projected(runs, entry, entries).1 == Ok::<Seq<StepView>, ReplayErrorView>(
            Seq::empty(),
        ),
{
    assert(Seq::<StepView>::empty() + Seq::<StepView>::empty() + Seq::<StepView>::empty()
        =~= Seq::<StepView>::empty());
}

/// What is known of a run's end after the journal's first `count` entries.
pub open spec fn end_known(entries: Seq<EntryView>, count: nat, run: Text) -> Option<StatusView> {
    history_upto(entries, count)->Ok_0.runs[run].terminal
}

proof fn lemma_projection_keeps_ends(
    runs: Runs,
    entry: EntryView,
    entries: Seq<EntryView>,
    run: Text,
)
    ensures
        runs[run].terminal is Some ==> entry_projected(runs, entry, entries).0[run].terminal
            is Some,
        entry.run != Some(run) ==> entry_projected(runs, entry, entries).0[run] == runs[run],
{
    if !is_silent(entry) {
        let prompted = prompt_projected(runs, entry, entries);
        lemma_prompting_keeps_ends(runs, entry, entries, run);
        if prompted.1 is Ok {
            law_replay_only_learns(prompted.0, entry.run, entry.input);
            let after = input_replayed(prompted.0, entry.run, entry.input).0;
            assert(prompted.0[run].terminal is Some ==> after[run].terminal is Some);
        }
    }
}

proof fn lemma_prompting_keeps_ends(
    runs: Runs,
    entry: EntryView,
    entries: Seq<EntryView>,
    run: Text,
)
    ensures
        runs[run].terminal is Some ==> prompt_projected(runs, entry, entries).0[run].terminal
            is Some,
        entry.run != Some(run) ==> prompt_projected(runs, entry, entries).0[run] == runs[run],
{
    if let Some(own) = entry.run {
        if let Some(accepted) = find_entry(entries, is_acceptance_of(own)) {
            if let Ok(input) = replay_input_of(accepted, entries) {
                law_replay_only_learns(runs, Some(own), input);
                let after = input_replayed(runs, Some(own), input).0;
                assert(runs[run].terminal is Some ==> after[run].terminal is Some);
            }
        }
    }
}

proof fn lemma_history_grows(entries: Seq<EntryView>, count: nat, at: nat)
    requires
        at <= count <= entries.len(),
        history_upto(entries, count) is Ok,
    ensures
        history_upto(entries, at) is Ok,
        history_upto(entries, count)->Ok_0.batches.len() == count,
        history_upto(entries, count)->Ok_0.batches.take(at as int) == history_upto(
            entries,
            at,
        )->Ok_0.batches,
        forall|run: Text|
            #![trigger end_known(entries, at, run)]
            #![trigger end_known(entries, count, run)]
            end_known(entries, at, run) is Some ==> end_known(entries, count, run) is Some,
    decreases count,
{
    let batches = history_upto(entries, count)->Ok_0.batches;
    if count > 0 {
        let before = history_upto(entries, (count - 1) as nat)->Ok_0;
        lemma_history_grows(entries, (count - 1) as nat, if at < count {
            at
        } else {
            (count - 1) as nat
        });
        assert(batches.drop_last() =~= before.batches);
        if at < count {
            assert(batches.take(at as int) =~= before.batches.take(at as int));
        } else {
            assert(batches.take(at as int) =~= batches);
        }
        assert forall|run: Text|
            #![trigger end_known(entries, at, run)]
            #![trigger end_known(entries, count, run)]
            end_known(entries, at, run) is Some implies end_known(entries, count, run) is Some by {
            if at < count {
                assert(end_known(entries, (count - 1) as nat, run) is Some);
                lemma_projection_keeps_ends(before.runs, entries[count - 1], entries, run);
            }
        }
    } else {
        assert(batches.take(0) =~= batches);
    }
}

proof fn lemma_tail_only_adds(entries: Seq<EntryView>, history: HistoryView, count: nat)
    requires
        count <= entries.len(),
        tail_upto(entries, history, count) is Ok,
    ensures
        ({
            let shown = tail_upto(entries, history, count)->Ok_0.batches;
            &&& shown.len() >= history.batches.len()
            &&& shown.take(history.batches.len() as int) == history.batches
            &&& forall|i: int|
                history.batches.len() <= i < shown.len() ==> (#[trigger] shown[i]).outcome is None
        }),
    decreases count,
{
    let shown = tail_upto(entries, history, count)->Ok_0.batches;
    if count > 0 {
        lemma_tail_only_adds(entries, history, (count - 1) as nat);
        let before = tail_upto(entries, history, (count - 1) as nat)->Ok_0.batches;
        if shown != before {
            assert(shown.drop_last() =~= before);
            assert(shown.take(history.batches.len() as int) =~= before.take(
                history.batches.len() as int,
            ));
            assert forall|i: int| history.batches.len() <= i < shown.len() implies (
            #[trigger] shown[i]).outcome is None by {
                if i < before.len() {
                    assert(shown[i] == before[i]);
                }
            }
        }
    } else {
        assert(shown.take(history.batches.len() as int) =~= history.batches);
    }
}

proof fn lemma_told_batch(entries: Seq<EntryView>, at: int)
    requires
        history_of(entries) is Ok,
        0 <= at < entries.len(),
    ensures
        history_of(entries)->Ok_0.batches.len() >= entries.len(),
        history_upto(entries, entries.len()) is Ok,
        history_upto(entries, at as nat) is Ok,
        history_upto(entries, (at + 1) as nat) is Ok,
        history_of(entries)->Ok_0.batches[at] == history_upto(
            entries,
            (at + 1) as nat,
        )->Ok_0.batches.last(),
        history_upto(entries, (at + 1) as nat)->Ok_0.batches.len() == at + 1,
{
    let history = history_upto(entries, entries.len())->Ok_0;
    lemma_history_grows(entries, entries.len(), (at + 1) as nat);
    lemma_history_grows(entries, entries.len(), at as nat);
    lemma_history_grows(entries, (at + 1) as nat, (at + 1) as nat);
    lemma_tail_only_adds(entries, history, entries.len());
    let told = history_of(entries)->Ok_0.batches;
    assert(told.take(history.batches.len() as int)[at] == told[at]);
    assert(history.batches.take(at + 1)[at] == history.batches[at]);
}

/// A history holds one batch for every entry of its journal, in the journal's
/// order, and then prompts that no run has begun to work on; those end no turn.
pub proof fn law_a_history_has_a_batch_per_entry(entries: Seq<EntryView>, at: int)
    requires
        history_of(entries) is Ok,
    ensures
        ({
            let told = history_of(entries)->Ok_0.batches;
            &&& told.len() >= entries.len()
            &&& 0 <= at < entries.len() ==> entry_projected(
                history_upto(entries, at as nat)->Ok_0.runs,
                entries[at],
                entries,
            ).1 == Ok::<Seq<StepView>, ReplayErrorView>(told[at].steps)
            &&& entries.len() <= at < told.len() ==> told[at].outcome is None
        }),
{
    let history = history_upto(entries, entries.len())->Ok_0;
    lemma_history_grows(entries, entries.len(), entries.len());
    lemma_tail_only_adds(entries, history, entries.len());
    if 0 <= at < entries.len() {
        lemma_told_batch(entries, at);
    }
}

/// A run's turn ends once: of two entries of one run, at most one is told with
/// an outcome. (An entry by which a prompt was given up ends that prompt's turn
/// instead.)
pub proof fn law_a_turn_ends_once_in_a_history(entries: Seq<EntryView>, first: int, second: int)
    requires
        history_of(entries) is Ok,
        0 <= first < second < entries.len(),
        entries[first].run is Some,
        entries[first].run == entries[second].run,
        !(entries[first].input is PromptAborted),
        !(entries[second].input is PromptAborted),
    ensures
        ({
            let told = history_of(entries)->Ok_0.batches;
            !(told[first].outcome is Some && told[second].outcome is Some)
        }),
{
    let run = entries[first].run->0;
    lemma_told_batch(entries, first);
    lemma_told_batch(entries, second);
    lemma_history_grows(entries, second as nat, (first + 1) as nat);
    if history_of(entries)->Ok_0.batches[first].outcome is Some {
        assert(end_known(entries, (first + 1) as nat, run) is Some);
        assert(end_known(entries, second as nat, run) is Some);
    }
}

/// A run's turn ends with the first entry after which the run's end is known,
/// and in the outcome that end stands for; no other entry of the run is told
/// with an outcome. An entry by which a prompt was given up ends a cancelled
/// turn, and nothing else outside a run ends one.
pub proof fn law_a_turn_ends_where_its_end_is_first_known(entries: Seq<EntryView>, at: int)
    requires
        history_of(entries) is Ok,
        0 <= at < entries.len(),
    ensures
        ({
            let outcome = history_of(entries)->Ok_0.batches[at].outcome;
            if entries[at].input is PromptAborted {
                outcome == Some(TurnOutcomeView::Cancelled)
            } else {
                match entries[at].run {
                    None => outcome is None,
                    Some(run) => {
                        let before = end_known(entries, at as nat, run);
                        let after = end_known(entries, (at + 1) as nat, run);
                        &&& outcome is Some <==> before is None && after is Some
                        &&& outcome is Some ==> outcome == Some(outcome_of(after->0))
                    },
                }
            }
        }),
{
    lemma_told_batch(entries, at);
}

proof fn lemma_an_end_was_told(entries: Seq<EntryView>, count: nat, run: Text)
    requires
        history_of(entries) is Ok,
        count <= entries.len(),
        end_known(entries, count, run) is Some,
    ensures
        exists|k: int|
            0 <= k < count && (#[trigger] entries[k]).run == Some(run)
                && !(end_known(entries, k as nat, run) is Some) && end_known(
                entries,
                (k + 1) as nat,
                run,
            ) is Some,
    decreases count,
{
    lemma_history_grows(entries, entries.len(), count);
    if count > 0 {
        lemma_history_grows(entries, entries.len(), (count - 1) as nat);
        let before = history_upto(entries, (count - 1) as nat)->Ok_0;
        if end_known(entries, (count - 1) as nat, run) is Some {
            lemma_an_end_was_told(entries, (count - 1) as nat, run);
        } else {
            lemma_projection_keeps_ends(before.runs, entries[count - 1], entries, run);
            assert(entries[count - 1].run == Some(run));
        }
    } else {
        lemma_history_grows(entries, entries.len(), 0);
    }
}

/// The first result a run streams ends its turn, in the outcome its status
/// stands for: where no earlier entry of the run is told with an outcome, the
/// entry of a result is.
pub proof fn law_the_first_result_ends_the_turn(
    entries: Seq<EntryView>,
    at: int,
    run: Text,
    record: RecordView,
)
    requires
        history_of(entries) is Ok,
        0 <= at < entries.len(),
        entries[at].run == Some(run),
        entries[at].input == InputView::Sse(record),
        decoded(record) is Result,
        forall|k: int|
            0 <= k < at && (#[trigger] entries[k]).run == Some(run) ==> history_of(
                entries,
            )->Ok_0.batches[k].outcome is None,
    ensures
        history_of(entries)->Ok_0.batches[at].outcome == Some(
            outcome_of(decoded(record)->Result_status),
        ),
{
    lemma_told_batch(entries, at);
    if end_known(entries, at as nat, run) is Some {
        lemma_an_end_was_told(entries, at as nat, run);
        let k = choose|k: int|
            0 <= k < at && (#[trigger] entries[k]).run == Some(run) && !(end_known(
                entries,
                k as nat,
                run,
            ) is Some) && end_known(entries, (k + 1) as nat, run) is Some;
        law_a_turn_ends_where_its_end_is_first_known(entries, k);
        assert(history_of(entries)->Ok_0.batches[k].outcome is Some);
    }
}

/// A turn is finished when its run is, cancelled when its run was, and failed
/// otherwise.
pub proof fn law_an_outcome_is_the_runs_end(status: StatusView)
    ensures
        outcome_of(status) is Finished <==> status is Finished,
        outcome_of(status) is Cancelled <==> status is Cancelled,
        status is Error ==> outcome_of(status) == TurnOutcomeView::Failed(
            "Agent run ended in "@ + "Error"@,
        ),
{
}

/// A captured entry joins the journal at its end, whatever replay makes of it.
/// Where replay fails, the session stops capturing and falls out of sync; where
/// it succeeds, the session changes in nothing but its journal and what replay
/// knows.
pub proof fn law_a_captured_entry_is_journaled(
    state: StateView,
    run: Option<Text>,
    entry: EntryView,
    emit: bool,
)
    ensures
        ({
            let after = captured(state, run, entry, emit);
            let projected = entry_projected(state.runs, entry, state.entries.push(entry));
            &&& after.0.entries == state.entries.push(entry)
            &&& after.0.runs == projected.0
            &&& after.1 is Ok <==> projected.1 is Ok
            &&& after.1 is Ok ==> after.0 == (StateView {
                entries: after.0.entries,
                runs: after.0.runs,
                ..state
            })
            &&& after.1 is Err ==> {
                &&& after.0.capture_failed
                &&& !after.0.ready_for_sync
                &&& after.1->Err_0 == ErrorView::Journal(replay_error_message(projected.1->Err_0))
            }
        }),
{
}

/// What a captured entry shows is what replay made of it, step for step. With
/// the client listening every step is delivered, except the client's own prompt
/// while its run is the active one.
pub proof fn law_a_captured_entry_is_delivered(
    state: StateView,
    run: Option<Text>,
    entry: EntryView,
)
    requires
        captured(state, run, entry, true).1 is Ok,
    ensures
        ({
            let steps = captured(state, run, entry, true).1->Ok_0.steps;
            let replayed = entry_projected(
                state.runs,
                entry,
                state.entries.push(entry),
            ).1->Ok_0;
            &&& steps.len() == replayed.len()
            &&& forall|i: int|
                0 <= i < steps.len() ==> (#[trigger] steps[i]).step == replayed[i]
            &&& forall|i: int|
                0 <= i < steps.len() ==> (!((#[trigger] steps[i]).step is UserMessage)
                    || run is None || run != state.active_run ==> steps[i].deliver)
        }),
{
}

/// A run that ends while no turn is waiting for it has its end published, once:
/// when the entry is captured by which its end becomes known, to a client that
/// listens, and unless it is the run of the active turn, which answers itself.
pub proof fn law_an_end_is_published_once(
    state: StateView,
    run: Text,
    entry: EntryView,
    emit: bool,
)
    requires
        captured(state, Some(run), entry, emit).1 is Ok,
    ensures
        ({
            let after = captured(state, Some(run), entry, emit);
            let completion = after.1->Ok_0.completion;
            &&& completion is Some <==> {
                &&& emit
                &&& state.active_run != Some(run)
                &&& state.runs[run].terminal is None
                &&& after.0.runs[run].terminal is Some
            }
            &&& completion is Some ==> completion == Some(
                outcome_of(after.0.runs[run].terminal->0),
            )
        }),
{
}

/// A capture is appended right behind the journal's last entry, and refused
/// only after a failure.
pub proof fn law_a_capture_follows_the_last_entry(
    state: StateView,
    run: Option<Text>,
    input: InputView,
)
    ensures
        ({
            let start = capture_start(state, run, input);
            &&& start is Refused <==> state.capture_failed
            &&& start matches CaptureStartView::Append { expected } ==> (if state.entries.len()
                == 0 {
                expected == 0
            } else {
                expected == state.entries[state.entries.len() - 1].sequence
            })
            &&& start is Duplicate ==> {
                &&& input is Poll
                &&& state.entries.len() > 0
                &&& state.entries[state.entries.len() - 1].run == run
                &&& state.entries[state.entries.len() - 1].input == input
            }
        }),
{
}

/// A prompt that another process's run accepted is shown even while that run is
/// the active one: only a run whose acceptance is journaled is the client's own.
pub proof fn law_a_prompt_from_elsewhere_is_delivered(
    state: StateView,
    run: Text,
    entry: EntryView,
)
    requires
        captured(state, Some(run), entry, true).1 is Ok,
        !(entry.run == Some(run) && entry.input is PromptAccepted),
        forall|i: int|
            0 <= i < state.entries.len() ==> !((#[trigger] state.entries[i]).run == Some(run)
                && state.entries[i].input is PromptAccepted),
    ensures
        forall|i: int|
            0 <= i < captured(state, Some(run), entry, true).1->Ok_0.steps.len() ==> (
            #[trigger] captured(state, Some(run), entry, true).1->Ok_0.steps[i]).deliver,
{
    let entries = state.entries.push(entry);
    assert forall|i: int| 0 <= i < entries.len() implies !accepts_for(#[trigger] entries[i], run) by {
        if i < state.entries.len() {
            assert(entries[i] == state.entries[i]);
        }
    }
}

/// A history is refused exactly when some prompt's fate is not known, when an
/// entry cannot be replayed, or when a run worked on a prompt nobody knows; a
/// prompt of unknown fate is told first.
pub proof fn law_when_a_history_is_refused(entries: Seq<EntryView>, at: int)
    ensures
        0 <= at < entries.len() && entries[at].run is None && entries[at].input is Prompt && (
        forall|k: int|
            0 <= k < entries.len() ==> (#[trigger] entries[k]).input != InputView::PromptAccepted(
                entries[at].sequence,
            ) && entries[k].input != InputView::PromptAborted(entries[at].sequence)) ==> history_of(
            entries,
        ) == Err::<HistoryView, HistoryErrorView>(HistoryErrorView::UnknownAcceptance),
        history_of(entries) == Err::<HistoryView, HistoryErrorView>(
            HistoryErrorView::UnknownAcceptance,
        ) ==> exists|i: int|
            0 <= i < entries.len() && (#[trigger] entries[i]).run is None && entries[i].input
                is Prompt && forall|k: int|
                0 <= k < entries.len() ==> (#[trigger] entries[k]).input
                    != InputView::PromptAccepted(entries[i].sequence) && entries[k].input
                    != InputView::PromptAborted(entries[i].sequence),
        history_of(entries) matches Err(HistoryErrorView::PromptUnavailable(run)) ==> exists|i: int|
            0 <= i < entries.len() && (#[trigger] entries[i]).run == Some(run)
                && !(entries[i].input is PromptAccepted),
{
    if 0 <= at < entries.len() && entries[at].run is None && entries[at].input is Prompt && (
    forall|k: int|
        0 <= k < entries.len() ==> (#[trigger] entries[k]).input != InputView::PromptAccepted(
            entries[at].sequence,
        ) && entries[k].input != InputView::PromptAborted(entries[at].sequence)) {
        assert(is_unsettled(entries[at], entries));
    }
    if !prompts_settled(entries) {
        let i = choose|i: int|
            0 <= i < entries.len() && is_unsettled(#[trigger] entries[i], entries);
        assert forall|k: int| 0 <= k < entries.len() implies (#[trigger] entries[k]).input
            != InputView::PromptAccepted(entries[i].sequence) && entries[k].input
            != InputView::PromptAborted(entries[i].sequence) by {
            assert(!settles_prompt(entries[k], entries[i].sequence));
        }
    } else {
        lemma_replay_errors_only(entries, entries.len());
        if let Ok(history) = history_upto(entries, entries.len()) {
            lemma_tail_replay_errors_only(entries, history, entries.len());
            if let Ok(shown) = tail_upto(entries, history, entries.len()) {
                lemma_promptless_works(entries, shown.runs, 0);
            }
        }
    }
}

proof fn lemma_replay_errors_only(entries: Seq<EntryView>, count: nat)
    ensures
        history_upto(entries, count) matches Err(error) ==> error is Replay,
    decreases count,
{
    if count > 0 {
        lemma_replay_errors_only(entries, (count - 1) as nat);
    }
}

proof fn lemma_tail_replay_errors_only(entries: Seq<EntryView>, history: HistoryView, count: nat)
    ensures
        tail_upto(entries, history, count) matches Err(error) ==> error is Replay,
    decreases count,
{
    if count > 0 {
        lemma_tail_replay_errors_only(entries, history, (count - 1) as nat);
    }
}

proof fn lemma_promptless_works(entries: Seq<EntryView>, runs: Runs, start: nat)
    ensures
        promptless_run(entries, runs, start) matches Some(run) ==> exists|i: int|
            0 <= i < entries.len() && (#[trigger] entries[i]).run == Some(run)
                && !(entries[i].input is PromptAccepted),
    decreases entries.len() - start,
{
    if start < entries.len() {
        lemma_promptless_works(entries, runs, start + 1);
        let entry = entries[start as int];
        if is_promptless(entries, runs, entry) {
            let run = entry.run->0;
            assert(!accepted_only(entries, run));
            let i = choose|i: int|
                0 <= i < entries.len() && (#[trigger] entries[i]).run == Some(run)
                    && !(entries[i].input is PromptAccepted);
            assert(entries[i].run == Some(run));
        }
    }
}

/// An acceptance replays as the prompt it accepts, and as nothing where the
/// journal lost that prompt; any other entry replays as itself.
pub proof fn law_an_acceptance_replays_as_its_prompt(
    entries: Seq<EntryView>,
    entry: EntryView,
    sequence: i64,
    at: int,
)
    ensures
        entry.input == InputView::PromptAccepted(sequence) && 0 <= at < entries.len()
            && entries[at].sequence == sequence && entries[at].run is None && (forall|i: int|
            0 <= i < at ==> !((#[trigger] entries[i]).sequence == sequence && entries[i].run
                is None)) ==> replay_input_of(entry, entries) == Ok::<InputView, ReplayErrorView>(
            entries[at].input,
        ),
        entry.input == InputView::PromptAccepted(sequence) && (forall|i: int|
            0 <= i < entries.len() ==> !((#[trigger] entries[i]).sequence == sequence
                && entries[i].run is None)) ==> replay_input_of(entry, entries) == Err::<
            InputView,
            ReplayErrorView,
        >(ReplayErrorView::MissingPrompt),
        !(entry.input is PromptAccepted) ==> replay_input_of(entry, entries) == Ok::<
            InputView,
            ReplayErrorView,
        >(entry.input),
{
    if 0 <= at < entries.len() && entries[at].sequence == sequence && entries[at].run is None && (
    forall|i: int|
        0 <= i < at ==> !((#[trigger] entries[i]).sequence == sequence && entries[i].run is None)) {
        lemma_first_found(entries, is_intent(sequence), at);
    }
    if forall|i: int|
        0 <= i < entries.len() ==> !((#[trigger] entries[i]).sequence == sequence && entries[i].run
            is None) {
        lemma_none_found(entries, is_intent(sequence));
    }
}

/// What is shown of a prompt is the client's own blocks: as many steps as
/// blocks, each with its block.
pub proof fn law_a_prompts_own_blocks_are_shown(
    runs: Runs,
    run: Text,
    blocks: Vec<ContentBlock>,
    steps: Vec<ReplayStep>,
    at: int,
)
    requires
        !runs[run].prompt,
        replayed_as(
            Ok(steps),
            input_replayed(
                runs,
                Some(run),
                JournalInput::Prompt(blocks).deep_view(),
            ).1,
        ),
    ensures
        steps@.len() == blocks@.len(),
        0 <= at < blocks@.len() ==> (steps@[at] matches ReplayStep::UserMessage(block) && (match (
            block,
            blocks@[at],
        ) {
            (ContentBlock::Text(shown), ContentBlock::Text(written)) => shown@ == written@,
            (ContentBlock::Other(shown), ContentBlock::Other(written)) => shown@ == written@,
            _ => false,
        })),
{
    assert(steps.deep_view().len() == steps@.len());
    assert(blocks.deep_view().len() == blocks@.len());
    if 0 <= at < blocks@.len() {
        assert(steps.deep_view()[at] == steps@[at].deep_view());
        assert(blocks.deep_view()[at] == blocks@[at].deep_view());
    }
}

} // verus!

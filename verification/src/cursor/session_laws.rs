//! What holds of a session around its turns: catching up, loading, choosing a
//! model, and stopping.

use crate::cursor::api::{
    is_client_error, is_cursor_key, malformed_words, printed_config, refuses_repository,
    shown_prefix,
};
use crate::cursor::backfill::{
    backfill_expects, backfill_stepped, is_unlisted, is_wanted, listed_ids, marked, mirror_from,
    newer_runs, pending_runs, pending_upto, runs_to_mirror, BackfillActionView, BackfillEventView,
    BackfillView, MirrorView,
};
use crate::cursor::journal::{BlockView, EntryView, InputView, JournalEntry, Runs, StepView};
use crate::cursor::loading::{
    hydrate_from, is_captured, last_reconciled, load_answered, load_begun, load_expects,
    load_stepped, oldest_first, read_expects, read_started, read_stepped, replayed_upto,
    JournalRead, LoadActionView, LoadEventView, LoadView, ReadActionView, ReadEvent,
};
use crate::cursor::model::{ListingView, RunListing};
use crate::cursor::models::{
    effective_model_of, first_default, lookup_of, model_named, model_refusal, resolved_model,
    ChoiceView, ModelView, ServerView, VariantView,
};
use crate::cursor::projection::{
    find_entry, history_error_message, history_of, history_upto, is_intent, other_run_open,
    tail_upto, HistoryErrorView, HistoryView,
};
use crate::cursor::registry::{minted_name, opened_state, restored_state};
use crate::cursor::session::{CursorFailure, ErrorView, StateView};
use crate::cursor::stopping::{
    first_failure, stop_expects, stop_started, stop_stepped, StopActionView, StopEvent, StopView,
};
use crate::cursor::turn::is_reconciled;
use crate::decimal::decimal_text;
use crate::json::JsonView;
use crate::text::{joined, Text};
use vstd::prelude::*;

verus! {

proof fn lemma_newer(listed: Seq<Text>, watermark: Text, run: Text)
    ensures
        newer_runs(listed, Some(watermark)).contains(run) <==> exists|k: int|
            0 <= k < listed.len() && #[trigger] listed[k] == run && forall|j: int|
                0 <= j <= k ==> #[trigger] listed[j] != watermark,
        newer_runs(listed, None).len() == 0,
    decreases listed.len(),
{
    if listed.len() > 0 && listed[0] != watermark {
        let rest = listed.skip(1);
        lemma_newer(rest, watermark, run);
        let newer = newer_runs(listed, Some(watermark));
        let later = newer_runs(rest, Some(watermark));
        assert(newer == seq![listed[0]] + later);
        if newer.contains(run) {
            let i = newer.index_of(run);
            if i == 0 {
                assert(listed[0] == run);
            } else {
                assert(later[i - 1] == run);
                let k = choose|k: int|
                    0 <= k < rest.len() && #[trigger] rest[k] == run && forall|j: int|
                        0 <= j <= k ==> #[trigger] rest[j] != watermark;
                assert(listed[k + 1] == run);
                assert forall|j: int| 0 <= j <= k + 1 implies #[trigger] listed[j]
                    != watermark by {
                    if j > 0 {
                        assert(rest[j - 1] == listed[j]);
                    }
                }
            }
        }
        if exists|k: int|
            0 <= k < listed.len() && #[trigger] listed[k] == run && forall|j: int|
                0 <= j <= k ==> #[trigger] listed[j] != watermark {
            let k = choose|k: int|
                0 <= k < listed.len() && #[trigger] listed[k] == run && forall|j: int|
                    0 <= j <= k ==> #[trigger] listed[j] != watermark;
            if k == 0 {
                assert(newer[0] == run);
            } else {
                assert(rest[k - 1] == run);
                assert forall|j: int| 0 <= j <= k - 1 implies #[trigger] rest[j] != watermark by {
                    assert(rest[j] == listed[j + 1]);
                }
                let i = later.index_of(run);
                assert(newer[i + 1] == run);
            }
        }
    }
}

proof fn lemma_pending(entries: Seq<EntryView>, count: nat, run: Text)
    requires
        count <= entries.len(),
    ensures
        pending_upto(entries, count).contains(run) <==> !is_reconciled(entries, run)
            && exists|i: int| 0 <= i < count && (#[trigger] entries[i]).run == Some(run),
    decreases count,
{
    if count > 0 {
        lemma_pending(entries, (count - 1) as nat, run);
        let before = pending_upto(entries, (count - 1) as nat);
        let now = pending_upto(entries, count);
        if before.contains(run) {
            assert(now[before.index_of(run)] == run);
        }
        if now.contains(run) && !before.contains(run) {
            let i = now.index_of(run);
            if i < before.len() {
                assert(before[i] == run);
            }
            assert(entries[count - 1].run == Some(run));
        }
        if !is_reconciled(entries, run) && entries[count - 1].run == Some(run) && !before.contains(
            run,
        ) {
            assert(now[before.len() as int] == run);
        }
    }
}

proof fn lemma_filter_keeps_order(runs: Seq<Text>, picks: spec_fn(Text) -> bool, i: int, j: int)
    requires
        0 <= i < j < runs.len(),
        picks(runs[i]),
        picks(runs[j]),
    ensures
        exists|a: int, b: int|
            0 <= a < b < runs.filter(picks).len() && #[trigger] runs.filter(picks)[a] == runs[i]
                && #[trigger] runs.filter(picks)[b] == runs[j],
    decreases runs.len(),
{
    reveal(Seq::filter);
    let shorter = runs.drop_last();
    let kept = shorter.filter(picks);
    let all = runs.filter(picks);
    if j < runs.len() - 1 {
        lemma_filter_keeps_order(shorter, picks, i, j);
        let (a, b) = choose|a: int, b: int|
            0 <= a < b < kept.len() && #[trigger] kept[a] == shorter[i] && #[trigger] kept[b]
                == shorter[j];
        assert(all[a] == runs[i] && all[b] == runs[j]);
    } else {
        shorter.lemma_filter_contains(picks, i);
        let a = kept.index_of(shorter[i]);
        assert(all == kept.push(runs[j]));
        assert(all[a] == runs[i] && all[kept.len() as int] == runs[j]);
    }
}

/// Whether a run is known to the provider's list and stands there before the
/// session's watermark: newer runs come first.
pub open spec fn is_newer(listed: Seq<Text>, watermark: Option<Text>, run: Text) -> bool {
    watermark is Some && exists|k: int|
        0 <= k < listed.len() && #[trigger] listed[k] == run && forall|j: int|
            0 <= j <= k ==> #[trigger] listed[j] != watermark->0
}

/// Exactly these runs are caught up: those of the journal that are not
/// reconciled, and those the provider lists before the session's watermark, but
/// never the run the turn itself is about.
pub proof fn law_which_runs_are_caught_up(
    entries: Seq<EntryView>,
    listed: Seq<Text>,
    watermark: Option<Text>,
    current: Option<Text>,
    run: Text,
)
    ensures
        runs_to_mirror(entries, listed, watermark, current).contains(run) <==> {
            &&& current != Some(run)
            &&& is_newer(listed, watermark, run) || ((exists|i: int|
                0 <= i < entries.len() && (#[trigger] entries[i]).run == Some(run)) && !(exists|
                i: int,
            |
                0 <= i < entries.len() && (#[trigger] entries[i]).run == Some(run)
                    && entries[i].input is Reconciled))
        },
{
    let pending = pending_runs(entries);
    let newer = newer_runs(listed, watermark);
    lemma_pending(entries, entries.len(), run);
    if watermark is Some {
        lemma_newer(listed, watermark->0, run);
    } else {
        lemma_newer(listed, run, run);
    }
    if is_newer(listed, watermark, run) {
        let k = choose|k: int|
            0 <= k < listed.len() && #[trigger] listed[k] == run && forall|j: int|
                0 <= j <= k ==> #[trigger] listed[j] != watermark->0;
        assert(listed.contains(run));
    }
    let first = pending.filter(is_unlisted(listed, current));
    let second = listed.reverse().filter(is_wanted(pending, newer, current));
    let all = first + second;
    if pending.contains(run) && !listed.contains(run) && current != Some(run) {
        pending.lemma_filter_contains(is_unlisted(listed, current), pending.index_of(run));
        assert(all[first.index_of(run)] == run);
    }
    if listed.contains(run) && current != Some(run) && (pending.contains(run) || newer.contains(
        run,
    )) {
        let i = listed.index_of(run);
        assert(listed.reverse()[listed.len() - 1 - i] == run);
        listed.reverse().lemma_filter_contains(
            is_wanted(pending, newer, current),
            listed.len() - 1 - i,
        );
        assert(all[first.len() + second.index_of(run)] == run);
    }
    if all.contains(run) {
        let i = all.index_of(run);
        if i < first.len() {
            pending.lemma_filter_pred(is_unlisted(listed, current), i);
            pending.lemma_filter_contains_rev(is_unlisted(listed, current), run);
        } else {
            listed.reverse().lemma_filter_pred(
                is_wanted(pending, newer, current),
                i - first.len(),
            );
        }
    }
}

/// Runs are caught up oldest first: of two listed runs that are both caught up,
/// the one listed later, which is the older, comes first.
pub proof fn law_older_runs_are_caught_up_first(
    entries: Seq<EntryView>,
    listed: Seq<Text>,
    watermark: Option<Text>,
    current: Option<Text>,
    newer: int,
    older: int,
)
    requires
        0 <= newer < older < listed.len(),
        runs_to_mirror(entries, listed, watermark, current).contains(listed[newer]),
        runs_to_mirror(entries, listed, watermark, current).contains(listed[older]),
    ensures
        ({
            let runs = runs_to_mirror(entries, listed, watermark, current);
            exists|a: int, b: int|
                0 <= a < b < runs.len() && #[trigger] runs[a] == listed[older]
                    && #[trigger] runs[b] == listed[newer]
        }),
{
    let pending = pending_runs(entries);
    let latest = newer_runs(listed, watermark);
    let first = pending.filter(is_unlisted(listed, current));
    let wanted = is_wanted(pending, latest, current);
    let second = listed.reverse().filter(wanted);
    let runs = first + second;
    assert forall|at: int| 0 <= at < listed.len() && runs.contains(#[trigger] listed[at])
        implies wanted(listed[at]) by {
        let i = runs.index_of(listed[at]);
        if i < first.len() {
            pending.lemma_filter_pred(is_unlisted(listed, current), i);
            assert(listed.contains(listed[at]));
        } else {
            listed.reverse().lemma_filter_pred(wanted, i - first.len());
        }
    }
    let last = listed.len() - 1;
    assert(listed.reverse()[last - older] == listed[older]);
    assert(listed.reverse()[last - newer] == listed[newer]);
    lemma_filter_keeps_order(listed.reverse(), wanted, last - older, last - newer);
    let (a, b) = choose|a: int, b: int|
        0 <= a < b < second.len() && #[trigger] second[a] == listed[older] && #[trigger] second[b]
            == listed[newer];
    assert(runs[first.len() + a] == listed[older]);
    assert(runs[first.len() + b] == listed[newer]);
}

/// A run that is caught up and not reconciled after it fails the catching up by
/// its name. A failure on the way ends it. It changes nothing of the session
/// but whether a reload is due.
pub proof fn law_catching_up_must_reconcile(
    runs: Seq<MirrorView>,
    at: nat,
    state: StateView,
    current: Option<Text>,
    error: ErrorView,
    backfill: BackfillView,
)
    requires
        at < runs.len(),
        !(backfill is Notifying),
    ensures
        ({
            let done = backfill_stepped(
                BackfillView::Ingesting { runs, at },
                state,
                current,
                BackfillEventView::Done(Ok(())),
            );
            let run = runs[at as int].run;
            &&& !is_reconciled(state.entries, run) ==> done.action == BackfillActionView::Finish(
                Err(
                    ErrorView::Cursor {
                        message: "Cursor run "@ + run + " remains unreconciled"@,
                        rejected: false,
                    },
                ),
            ) && done.state == state
            &&& backfill_stepped(
                backfill,
                state,
                current,
                BackfillEventView::Done(Err(error)),
            ).action == BackfillActionView::Finish(Err(error))
            &&& backfill_stepped(
                backfill,
                state,
                current,
                BackfillEventView::Listed(Err(error)),
            ).action == BackfillActionView::Finish(Err(error))
        }),
{
}

proof fn lemma_mirror_next(state: StateView, runs: Seq<MirrorView>, at: nat, next: nat)
    requires
        at <= next < runs.len(),
        !runs[next as int].reconciled,
        forall|i: int|
            at <= i < next ==> (#[trigger] runs[i]).reconciled && is_reconciled(
                state.entries,
                runs[i].run,
            ),
    ensures
        mirror_from(state, runs, at).backfill == (BackfillView::Ingesting { runs, at: next }),
        mirror_from(state, runs, at).action == (BackfillActionView::Ingest {
            run: runs[next as int].run,
        }),
        mirror_from(state, runs, at).state == state,
    decreases next - at,
{
    if at < next {
        assert(runs[at as int].reconciled);
        lemma_mirror_next(state, runs, at + 1, next);
    }
}

/// Runs are caught up one after the other: once one is reconciled, the next
/// that was not reconciled before is ingested.
pub proof fn law_the_next_run_is_caught_up(
    runs: Seq<MirrorView>,
    at: nat,
    next: nat,
    state: StateView,
    current: Option<Text>,
)
    requires
        at < next < runs.len(),
        is_reconciled(state.entries, runs[at as int].run),
        !runs[next as int].reconciled,
        forall|i: int|
            at < i < next ==> (#[trigger] runs[i]).reconciled && is_reconciled(
                state.entries,
                runs[i].run,
            ),
    ensures
        ({
            let done = backfill_stepped(
                BackfillView::Ingesting { runs, at },
                state,
                current,
                BackfillEventView::Done(Ok(())),
            );
            &&& done.action == (BackfillActionView::Ingest { run: runs[next as int].run })
            &&& done.backfill == (BackfillView::Ingesting { runs, at: next })
            &&& done.state == state
        }),
{
    lemma_mirror_next(state, runs, at + 1, next);
}

/// Once everything is caught up the client is asked to reload, unless the
/// history cannot be told or a reload is due already, and the answer is that
/// there was something to catch up. A request that fails is taken back.
pub proof fn law_what_was_caught_up_is_reloaded(
    runs: Seq<MirrorView>,
    at: nat,
    state: StateView,
    current: Option<Text>,
    error: ErrorView,
)
    requires
        at + 1 == runs.len(),
        is_reconciled(state.entries, runs[at as int].run),
    ensures
        ({
            let done = backfill_stepped(
                BackfillView::Ingesting { runs, at },
                state,
                current,
                BackfillEventView::Done(Ok(())),
            );
            let told = backfill_stepped(
                done.backfill,
                done.state,
                current,
                BackfillEventView::Done(Ok(())),
            );
            let untold = backfill_stepped(
                done.backfill,
                done.state,
                current,
                BackfillEventView::Done(Err(error)),
            );
            if history_of(state.entries) is Ok && !state.reload_pending {
                &&& done.action is RequireReload
                &&& done.state == (StateView { reload_pending: true, ..state })
                &&& told.action == BackfillActionView::Finish(Ok(true))
                &&& told.state.reload_pending
                &&& untold.action == BackfillActionView::Finish(Err(error))
                &&& untold.state == state
            } else {
                &&& done.action == BackfillActionView::Finish(Ok(true))
                &&& done.state == state
            }
        }),
{
}

/// Catching up reads the journal, then the provider's list; where there is
/// nothing to catch up it says so, and touches nothing.
pub proof fn law_nothing_to_catch_up(
    state: StateView,
    current: Option<Text>,
    listings: Seq<ListingView>,
)
    requires
        runs_to_mirror(
            state.entries,
            listings.map_values(|listing: ListingView| listing.id),
            state.last_run,
            current,
        ).len() == 0,
    ensures
        ({
            let loaded = backfill_stepped(
                BackfillView::Loading,
                state,
                current,
                BackfillEventView::Done(Ok(())),
            );
            let listed = backfill_stepped(
                loaded.backfill,
                state,
                current,
                BackfillEventView::Listed(Ok(listings)),
            );
            &&& loaded.action is ListRuns
            &&& loaded.state == state
            &&& listed.action == BackfillActionView::Finish(Ok(false))
            &&& listed.state == state
        }),
{
}

/// A load begins out of sync, with the journal to be read again and capture
/// allowed again, and touches nothing else; answering it puts the session in
/// sync and settles a reload that was due.
pub proof fn law_a_load_starts_over(state: StateView)
    ensures
        ({
            let begun = load_begun(state);
            let answered = load_answered(state);
            &&& !begun.ready_for_sync
            &&& !begun.journal_loaded
            &&& !begun.capture_failed
            &&& begun == (StateView {
                ready_for_sync: false,
                journal_loaded: false,
                capture_failed: false,
                ..state
            })
            &&& answered.ready_for_sync
            &&& !answered.reload_pending
            &&& answered == (StateView { ready_for_sync: true, reload_pending: false, ..state })
        }),
{
}

/// A history known from its beginning is told from the journal; otherwise the
/// agent's runs are listed, and a session without an agent has none.
pub proof fn law_where_a_history_comes_from(state: StateView)
    ensures
        ({
            let known = exists|i: int|
                0 <= i < state.entries.len() && (#[trigger] state.entries[i]).input
                    is HistoryComplete;
            let loaded = load_stepped(LoadView::Loading, state, LoadEventView::Done(Ok(())));
            &&& loaded.state == state
            &&& known ==> loaded.action is Deliver || loaded.action is Finish
            &&& !known && state.agent is Some ==> loaded.action is ListRuns
            &&& !known && state.agent is None ==> loaded.action is CaptureComplete
        }),
{
}

/// What a load delivers is the history the journal records, batch for batch; a
/// history that cannot be told fails the load in the words of why.
pub proof fn law_a_load_delivers_the_history(state: StateView)
    ensures
        ({
            let completed = load_stepped(LoadView::Completing, state, LoadEventView::Done(Ok(())));
            match history_of(state.entries) {
                Ok(history) => {
                    &&& completed.action == (LoadActionView::Deliver { batches: history.batches })
                    &&& completed.load == (LoadView::Delivering { runs: history.runs })
                },
                Err(error) => completed.action == LoadActionView::Finish(
                    Err(
                        ErrorView::Cursor {
                            message: history_error_message(error),
                            rejected: false,
                        },
                    ),
                ),
            }
        }),
{
}

/// A delivered history leaves the session knowing what replay knows of it, and
/// its watermark at the last run that was reconciled, once the host has
/// checkpointed that run.
pub proof fn law_a_delivered_history_moves_the_watermark(
    runs: Runs,
    state: StateView,
    at: int,
    later: StateView,
)
    ensures
        ({
            let delivered = load_stepped(
                LoadView::Delivering { runs },
                state,
                LoadEventView::Done(Ok(())),
            );
            let last = 0 <= at < state.entries.len() && state.entries[at].input is Reconciled
                && state.entries[at].run is Some && forall|i: int|
                at < i < state.entries.len() ==> !((#[trigger] state.entries[i]).input is Reconciled
                    && state.entries[i].run is Some);
            let none = forall|i: int|
                0 <= i < state.entries.len() ==> !((#[trigger] state.entries[i]).input is Reconciled
                    && state.entries[i].run is Some);
            &&& last ==> {
                let run = state.entries[at].run->0;
                let marked = load_stepped(delivered.load, later, LoadEventView::Done(Ok(())));
                &&& delivered.action == (LoadActionView::Checkpoint { run })
                &&& marked.action == LoadActionView::Finish(Ok(()))
                &&& marked.state == (StateView { runs, last_run: Some(run), ..later })
            }
            &&& none ==> {
                &&& delivered.action == LoadActionView::Finish(Ok(()))
                &&& delivered.state == (StateView { runs, ..state })
            }
        }),
{
    lemma_last_reconciled(state.entries, at);
}

proof fn lemma_last_reconciled(entries: Seq<EntryView>, at: int)
    ensures
        0 <= at < entries.len() && entries[at].input is Reconciled && entries[at].run is Some && (
        forall|i: int|
            at < i < entries.len() ==> !((#[trigger] entries[i]).input is Reconciled
                && entries[i].run is Some)) ==> last_reconciled(entries) == entries[at].run,
        (forall|i: int|
            0 <= i < entries.len() ==> !((#[trigger] entries[i]).input is Reconciled
                && entries[i].run is Some)) ==> last_reconciled(entries) is None,
    decreases entries.len(),
{
    if entries.len() > 0 {
        let shorter = entries.drop_last();
        lemma_last_reconciled(shorter, at);
        assert(entries.last() == entries[entries.len() - 1]);
        assert forall|i: int| 0 <= i < shorter.len() implies shorter[i] == #[trigger] entries[i] by {}
        if forall|i: int|
            0 <= i < entries.len() ==> !((#[trigger] entries[i]).input is Reconciled
                && entries[i].run is Some) {
            assert forall|i: int| 0 <= i < shorter.len() implies !((
            #[trigger] shorter[i]).input is Reconciled && shorter[i].run is Some) by {
                assert(shorter[i] == entries[i]);
            }
        }
        if 0 <= at < shorter.len() && (forall|i: int|
            at < i < entries.len() ==> !((#[trigger] entries[i]).input is Reconciled
                && entries[i].run is Some)) {
            assert forall|i: int| at < i < shorter.len() implies !((
            #[trigger] shorter[i]).input is Reconciled && shorter[i].run is Some) by {
                assert(shorter[i] == entries[i]);
            }
        }
    }
}

proof fn lemma_hydrate_next(state: StateView, runs: Seq<Text>, at: nat, next: nat)
    requires
        at <= next <= runs.len(),
        next < runs.len() ==> !is_captured(state, runs[next as int]),
        forall|i: int| at <= i < next ==> is_captured(state, #[trigger] runs[i]),
    ensures
        next < runs.len() ==> hydrate_from(state, runs, at).action == (LoadActionView::Hydrate {
            run: runs[next as int],
        }) && hydrate_from(state, runs, at).load == (LoadView::Hydrating { runs, at: next }),
        next == runs.len() ==> hydrate_from(state, runs, at).action is CaptureComplete,
    decreases next - at,
{
    if at < next {
        assert(is_captured(state, runs[at as int]));
        lemma_hydrate_next(state, runs, at + 1, next);
    }
}

/// A restored session's runs are read back oldest first, each that the journal
/// does not hold in full: its prompt, its end and its reconciliation. Without
/// runs there is no history to restore, which fails the load.
pub proof fn law_runs_are_read_back_oldest_first(
    state: StateView,
    listings: Seq<ListingView>,
    at: int,
)
    requires
        0 <= at < listings.len(),
        !(state.runs[listings[at].id].prompt && state.runs[listings[at].id].terminal is Some
            && is_reconciled(state.entries, listings[at].id)),
        forall|i: int|
            at < i < listings.len() ==> state.runs[(#[trigger] listings[i]).id].prompt
                && state.runs[listings[i].id].terminal is Some && is_reconciled(
                state.entries,
                listings[i].id,
            ),
    ensures
        load_stepped(LoadView::Listing, state, LoadEventView::Listed(Ok(listings))).action
            == (LoadActionView::Hydrate { run: listings[at].id }),
        load_stepped(LoadView::Listing, state, LoadEventView::Listed(Ok(Seq::empty()))).action
            == LoadActionView::Finish(
            Err(
                ErrorView::Cursor {
                    message: "Cursor history unavailable for restored session"@,
                    rejected: false,
                },
            ),
        ),
{
    let runs = oldest_first(listings);
    let ids = listings.map_values(|listing: ListingView| listing.id);
    let last = listings.len() - 1;
    assert forall|i: int| 0 <= i < runs.len() implies #[trigger] runs[i] == listings[last - i].id by {
        assert(ids[last - i] == listings[last - i].id);
    }
    lemma_hydrate_next(state, runs, 0, (last - at) as nat);
}

/// Once every run is read back the history is complete from its beginning, and
/// a failure on the way fails the load.
pub proof fn law_a_history_read_back_is_complete(
    state: StateView,
    runs: Seq<Text>,
    load: LoadView,
    error: ErrorView,
)
    requires
        runs.len() > 0,
    ensures
        load_stepped(
            LoadView::Hydrating { runs, at: (runs.len() - 1) as nat },
            state,
            LoadEventView::Done(Ok(())),
        ).action is CaptureComplete,
        load_stepped(load, state, LoadEventView::Done(Err(error))).action == LoadActionView::Finish(
            Err(error),
        ),
        load_stepped(load, state, LoadEventView::Listed(Err(error))).action
            == LoadActionView::Finish(Err(error)),
        load_stepped(load, state, LoadEventView::Done(Err(error))).state == state,
{
}

/// A journal is read once. What was read is what the session then holds, with
/// what replay makes of it; a session that this process opened has its journal
/// say that its history begins there. What cannot be read is told as it is.
pub proof fn law_a_journal_is_adopted_as_read(
    state: StateView,
    entries: Vec<JournalEntry>,
    message: String,
)
    ensures
        state.journal_loaded ==> read_started(state).action == ReadActionView::Finish(None),
        !state.journal_loaded ==> read_started(state).action is Read,
        ({
            let read = read_stepped(JournalRead::Reading, state, ReadEvent::Read(Ok(entries)));
            match replayed_upto(entries.deep_view(), entries@.len()) {
                Ok((runs, steps)) => {
                    &&& read.action == (ReadActionView::Rebuild { steps })
                    &&& read.state == (StateView {
                        entries: entries.deep_view(),
                        runs,
                        journal_loaded: true,
                        ..state
                    })
                },
                Err(_) => read.action is Finish && read.action->Finish_0 is Some && read.state
                    == state,
            }
        }),
        read_stepped(JournalRead::Reading, state, ReadEvent::Read(Err(message))).action
            == ReadActionView::Finish(
            Some(ErrorView::Cursor { message: message@, rejected: false }),
        ),
        ({
            let rebuilt = read_stepped(JournalRead::Rebuilding, state, ReadEvent::Rebuilt(Ok(())));
            &&& rebuilt.state == state
            &&& state.fresh ==> rebuilt.action is CaptureComplete
            &&& !state.fresh ==> rebuilt.action == ReadActionView::Finish(None)
        }),
        read_stepped(JournalRead::Rebuilding, state, ReadEvent::Rebuilt(Err(message))).action
            == ReadActionView::Finish(
            Some(ErrorView::Cursor { message: message@, rejected: false }),
        ),
{
}

proof fn lemma_first_intent(entries: Seq<EntryView>, sequence: i64, at: int)
    requires
        0 <= at < entries.len(),
        entries[at].sequence == sequence && entries[at].run is None,
        forall|i: int|
            0 <= i < at ==> !((#[trigger] entries[i]).sequence == sequence
                && entries[i].run is None),
    ensures
        find_entry(entries, is_intent(sequence)) == Some(entries[at]),
    decreases at,
{
    if at > 0 {
        let rest = entries.skip(1);
        assert(rest[at - 1] == entries[at]);
        assert forall|i: int| 0 <= i < at - 1 implies !((#[trigger] rest[i]).sequence == sequence
            && rest[i].run is None) by {
            assert(rest[i] == entries[i + 1]);
        }
        lemma_first_intent(rest, sequence, at - 1);
    }
}

proof fn lemma_no_tail(entries: Seq<EntryView>, history: HistoryView, count: nat)
    requires
        count <= entries.len(),
        forall|i: int|
            0 <= i < count && (#[trigger] entries[i]).run is Some
                ==> history.runs[entries[i].run->0].prompt,
    ensures
        tail_upto(entries, history, count) == Ok::<HistoryView, HistoryErrorView>(history),
    decreases count,
{
    if count > 0 {
        lemma_no_tail(entries, history, (count - 1) as nat);
    }
}

/// A prompt that a run accepted but has not begun to work on is shown at the
/// end of the history, all of its blocks in order, once every other run is
/// over.
pub proof fn law_an_accepted_prompt_is_shown_last(
    entries: Seq<EntryView>,
    run: Text,
    intent: int,
    blocks: Seq<BlockView>,
)
    requires
        history_of(entries) is Ok,
        entries.len() > 0,
        entries.last().run == Some(run),
        0 <= intent < entries.len(),
        entries.last().input == InputView::PromptAccepted(entries[intent].sequence),
        entries[intent].run is None,
        entries[intent].input == InputView::Prompt(blocks),
        forall|i: int|
            0 <= i < intent ==> !((#[trigger] entries[i]).sequence == entries[intent].sequence
                && entries[i].run is None),
        !history_upto(entries, entries.len())->Ok_0.runs[run].prompt,
        forall|i: int|
            0 <= i < entries.len() - 1 && (#[trigger] entries[i]).run is Some ==> {
                &&& history_upto(entries, entries.len())->Ok_0.runs[entries[i].run->0].prompt
                &&& history_upto(entries, entries.len())->Ok_0.runs[entries[i].run->0].terminal
                    is Some
            },
    ensures
        ({
            let told = history_of(entries)->Ok_0;
            &&& told.runs[run].prompt
            &&& told.batches.len() > 0
            &&& told.batches.last().outcome is None
            &&& told.batches.last().steps.len() == blocks.len()
            &&& forall|i: int|
                0 <= i < blocks.len() ==> #[trigger] told.batches.last().steps[i]
                    == StepView::UserMessage(blocks[i])
        }),
{
    let history = history_upto(entries, entries.len())->Ok_0;
    lemma_first_intent(entries, entries[intent].sequence, intent);
    lemma_no_tail(entries, history, (entries.len() - 1) as nat);
    assert(entries[entries.len() - 1] == entries.last());
    assert forall|i: int|
        0 <= i < entries.len() && (#[trigger] entries[i]).run is Some && entries[i].run->0
            != run implies history.runs[entries[i].run->0].complete() by {}
}

proof fn lemma_open_run_keeps_the_tail(
    entries: Seq<EntryView>,
    history: HistoryView,
    count: nat,
    open: int,
)
    requires
        count <= entries.len(),
        0 <= open < entries.len(),
        entries[open].run is Some,
        history.runs[entries[open].run->0].prompt,
        history.runs[entries[open].run->0].terminal is None,
    ensures
        tail_upto(entries, history, count) == Ok::<HistoryView, HistoryErrorView>(history),
    decreases count,
{
    if count > 0 {
        lemma_open_run_keeps_the_tail(entries, history, (count - 1) as nat, open);
        let entry = entries[count - 1];
        if entry.run is Some && entry.run->0 != entries[open].run->0 {
            assert(other_run_open(entries, history.runs, entry.run->0));
        }
    }
}

/// While a run is still at work, no later prompt is shown: the history ends
/// with the journal's own entries.
pub proof fn law_a_prompt_waits_for_the_run_before(entries: Seq<EntryView>, open: int)
    requires
        history_of(entries) is Ok,
        0 <= open < entries.len(),
        entries[open].run is Some,
        history_upto(entries, entries.len())->Ok_0.runs[entries[open].run->0].prompt,
        history_upto(entries, entries.len())->Ok_0.runs[entries[open].run->0].terminal is None,
    ensures
        history_of(entries)->Ok_0.batches == history_upto(entries, entries.len())->Ok_0.batches,
{
    let history = history_upto(entries, entries.len())->Ok_0;
    lemma_open_run_keeps_the_tail(entries, history, entries.len(), open);
}

/// Why a history cannot be told is told by name.
pub proof fn law_an_untold_history_says_why(run: Text)
    ensures
        history_error_message(HistoryErrorView::PromptUnavailable(run))
            == "Cursor original prompt unavailable for "@ + run + "; preserving existing history"@,
        history_error_message(HistoryErrorView::UnknownAcceptance)
            == "Cursor prompt acceptance is unknown; refusing incomplete replacement history"@,
{
}

proof fn lemma_first_named(models: Seq<ModelView>, id: Text, at: int)
    requires
        0 <= at <= models.len(),
        at < models.len() ==> models[at].id == id,
        forall|i: int| 0 <= i < at ==> (#[trigger] models[i]).id != id,
    ensures
        model_named(models, id) == (if at < models.len() {
            Some(models[at])
        } else {
            None
        }),
    decreases at,
{
    if at > 0 {
        let rest = models.skip(1);
        assert(models[0].id != id);
        if at < models.len() {
            assert(rest[at - 1] == models[at]);
        }
        assert forall|i: int| 0 <= i < at - 1 implies (#[trigger] rest[i]).id != id by {
            assert(rest[i] == models[i + 1]);
        }
        lemma_first_named(rest, id, at - 1);
    }
}

proof fn lemma_first_default(variants: Seq<VariantView>, at: int)
    requires
        0 <= at < variants.len(),
        variants[at].is_default,
        forall|i: int| 0 <= i < at ==> !(#[trigger] variants[i]).is_default,
    ensures
        first_default(variants) == variants[at],
    decreases at,
{
    if at > 0 {
        let rest = variants.skip(1);
        assert(!variants[0].is_default);
        assert(rest[at - 1] == variants[at]);
        assert forall|i: int| 0 <= i < at - 1 implies !(#[trigger] rest[i]).is_default by {
            assert(rest[i] == variants[i + 1]);
        }
        lemma_first_default(rest, at - 1);
    }
}

/// A model is chosen by its id, with the parameters of its default variant: the
/// first that is marked as one, or else the first there is, or else none. An id
/// that no model has is no choice.
pub proof fn law_a_model_is_chosen_by_its_id(
    models: Seq<ModelView>,
    id: Text,
    at: int,
    variant: int,
)
    ensures
        (forall|i: int| 0 <= i < models.len() ==> (#[trigger] models[i]).id != id)
            ==> resolved_model(models, id) is None,
        0 <= at < models.len() && models[at].id == id && (forall|i: int|
            0 <= i < at ==> (#[trigger] models[i]).id != id) ==> {
            let variants = models[at].variants;
            let chosen = resolved_model(models, id);
            &&& chosen is Some
            &&& chosen->0.id == id
            &&& variants.len() == 0 ==> chosen->0.params.len() == 0
            &&& 0 <= variant < variants.len() && variants[variant].is_default && (forall|i: int|
                0 <= i < variant ==> !(#[trigger] variants[i]).is_default) ==> chosen->0.params
                == variants[variant].params
            &&& variants.len() > 0 && (forall|i: int|
                0 <= i < variants.len() ==> !(#[trigger] variants[i]).is_default)
                ==> chosen->0.params == variants[0].params
        },
{
    if forall|i: int| 0 <= i < models.len() ==> (#[trigger] models[i]).id != id {
        lemma_first_named(models, id, models.len() as int);
    }
    if 0 <= at < models.len() && models[at].id == id && (forall|i: int|
        0 <= i < at ==> (#[trigger] models[i]).id != id) {
        lemma_first_named(models, id, at);
        let variants = models[at].variants;
        if 0 <= variant < variants.len() && variants[variant].is_default && (forall|i: int|
            0 <= i < variant ==> !(#[trigger] variants[i]).is_default) {
            lemma_first_default(variants, variant);
        }
    }
}

/// An explicit choice wins over what the session used before, and that over
/// what the deployment pins; without any there is no opinion, and what the
/// models offered do not hold is none either.
pub proof fn law_which_model_a_run_uses(
    explicit: Option<ChoiceView>,
    restored: Option<Text>,
    default: Option<Text>,
    models: Option<Seq<ModelView>>,
)
    ensures
        ({
            let used = effective_model_of(lookup_of(explicit, restored, default), models);
            &&& explicit is Some ==> used == explicit
            &&& explicit is None && restored is Some && models is Some ==> used == resolved_model(
                models->0,
                restored->0,
            )
            &&& explicit is None && restored is None && default is Some && models is Some ==> used
                == resolved_model(models->0, default->0)
            &&& explicit is None && restored is None && default is None ==> used is None
            &&& explicit is None && models is None ==> used is None
        }),
{
}

/// A stop is sent to the run being streamed, and to it alone; without one to
/// whatever runs are current, and without an agent to nothing at all.
pub proof fn law_what_a_stop_is_sent_to(state: StateView, agent: Text, run: Text)
    ensures
        state.agent == Some(agent) && state.active_run == Some(run) ==> stop_started(state).1 == (
        StopActionView::CancelAll { agent, runs: seq![run] }),
        state.agent == Some(agent) && state.active_run is None ==> stop_started(state).1 == (
        StopActionView::ListRuns { agent }),
        state.agent is None ==> stop_started(state).1 == StopActionView::Finish(None),
{
}

/// The runs found current are cancelled on the agent that was asked for them,
/// and with none found the stop is done.
pub proof fn law_current_runs_are_stopped_on_their_agent(
    agent: Text,
    listings: Vec<RunListing>,
)
    ensures
        ({
            let next = stop_stepped(StopView::Listing { agent }, StopEvent::Listed(Ok(listings))).1;
            &&& next matches StopActionView::CancelAll { agent: asked, runs } ==> asked == agent
                && runs.len() > 0
            &&& next matches StopActionView::Finish(error) ==> error is None
            &&& !(next is ListRuns)
        }),
{
}

/// The client is told of the first attempt that failed, in its own words, and
/// of success exactly when none did.
pub proof fn law_a_stop_tells_its_first_failure(
    count: nat,
    outcomes: Vec<Result<(), CursorFailure>>,
    at: int,
)
    ensures
        ({
            let told = stop_stepped(
                StopView::Cancelling { count },
                StopEvent::Cancelled(outcomes),
            ).1;
            &&& 0 <= at < outcomes@.len() && outcomes@[at] is Err && (forall|i: int|
                0 <= i < at ==> (#[trigger] outcomes@[i]) is Ok) ==> told == StopActionView::Finish(
                Some(
                    ErrorView::Cursor {
                        message: outcomes@[at]->Err_0.message@,
                        rejected: outcomes@[at]->Err_0.rejected,
                    },
                ),
            )
            &&& (forall|i: int| 0 <= i < outcomes@.len() ==> (#[trigger] outcomes@[i]) is Ok)
                ==> told == StopActionView::Finish(None)
        }),
{
    lemma_first_failure_at(outcomes@, at);
}

proof fn lemma_first_failure_at(outcomes: Seq<Result<(), CursorFailure>>, at: int)
    ensures
        0 <= at < outcomes.len() && outcomes[at] is Err && (forall|i: int|
            0 <= i < at ==> (#[trigger] outcomes[i]) is Ok) ==> first_failure(outcomes) == Some(
            ErrorView::Cursor {
                message: outcomes[at]->Err_0.message@,
                rejected: outcomes[at]->Err_0.rejected,
            },
        ),
        (forall|i: int| 0 <= i < outcomes.len() ==> (#[trigger] outcomes[i]) is Ok)
            ==> first_failure(outcomes) is None,
    decreases outcomes.len(),
{
    if outcomes.len() > 0 {
        let rest = outcomes.skip(1);
        lemma_first_failure_at(rest, at - 1);
        if 0 <= at < outcomes.len() && outcomes[at] is Err && (forall|i: int|
            0 <= i < at ==> (#[trigger] outcomes[i]) is Ok) && at > 0 {
            assert(outcomes[0] is Ok);
            assert(rest[at - 1] == outcomes[at]);
            assert forall|i: int| 0 <= i < at - 1 implies (#[trigger] rest[i]) is Ok by {
                assert(rest[i] == outcomes[i + 1]);
            }
        }
        if forall|i: int| 0 <= i < outcomes.len() ==> (#[trigger] outcomes[i]) is Ok {
            assert(outcomes[0] is Ok);
            assert forall|i: int| 0 <= i < rest.len() implies (#[trigger] rest[i]) is Ok by {
                assert(rest[i] == outcomes[i + 1]);
            }
        }
    }
}

/// A session this process opens is in sync and fresh, with the client's tool
/// servers and nothing else; one an earlier process left has its agent and its
/// watermark, and is out of sync until it is loaded.
pub proof fn law_how_a_session_begins(
    mcp_servers: Seq<ServerView>,
    agent: Option<Text>,
    last_run: Option<Text>,
)
    ensures
        ({
            let opened = opened_state(mcp_servers);
            let restored = restored_state(agent, last_run);
            &&& opened.mcp_servers == mcp_servers
            &&& opened.ready_for_sync
            &&& opened.fresh
            &&& opened.agent is None && opened.active_run is None && opened.last_run is None
                && opened.model is None
            &&& restored.agent == agent
            &&& restored.last_run == last_run
            &&& restored.active_run is None && restored.model is None
            &&& !restored.ready_for_sync
            &&& !restored.fresh
            &&& restored.mcp_servers.len() == 0
            &&& opened.entries.len() == 0 && restored.entries.len() == 0
            &&& !opened.cancelled && !opened.reload_pending && !opened.journal_loaded
                && !opened.capture_failed
            &&& !restored.cancelled && !restored.reload_pending && !restored.journal_loaded
                && !restored.capture_failed
        }),
{
}

/// A key is Cursor's exactly when it begins as Cursor's keys do, and of another
/// no more than its first five characters are shown.
pub proof fn law_what_is_shown_of_a_bad_key(rest: Text, text: Text)
    ensures
        is_cursor_key("crsr_"@ + rest),
        is_cursor_key(text) ==> exists|tail: Text| text == #[trigger] ("crsr_"@ + tail),
        shown_prefix(text).len() <= 5,
        text.len() <= 5 ==> shown_prefix(text) == text,
        text.len() > 5 ==> shown_prefix(text) == text.take(5),
{
    reveal_strlit("crsr_");
    assert("crsr_"@.len() == 5);
    assert(("crsr_"@ + rest).take(5) =~= "crsr_"@);
    if is_cursor_key(text) {
        assert(text =~= "crsr_"@ + text.skip(5));
    }
    if text.len() <= 5 {
        assert(text.take(text.len() as int) =~= text);
    }
}

/// Only the one code that says so is a refused repository, and only the 400s
/// are the client's errors.
pub proof fn law_only_one_code_refuses_a_repository(
    body: JsonView,
    error: JsonView,
    code: Text,
    status: u16,
)
    ensures
        body.member("error"@) == Some(error) && error.member("code"@) == Some(JsonView::Text(code))
            ==> (refuses_repository(Some(body)) <==> code == "repository_access"@),
        body.member("error"@) is None ==> !refuses_repository(Some(body)),
        body.member("error"@) == Some(error) && error.text_member("code"@) is None
            ==> !refuses_repository(Some(body)),
        !refuses_repository(None),
        is_client_error(status) <==> status / 100 == 4,
{
}

/// What catching up, loading, reading a journal and stopping wait for; what is
/// over waits for nothing.
pub proof fn law_what_a_session_waits_for(
    backfill: BackfillView,
    caught: BackfillEventView,
    load: LoadView,
    loaded: LoadEventView,
    read: JournalRead,
    heard: ReadEvent,
    stop: StopView,
    answered: StopEvent,
)
    ensures
        backfill is Finished ==> !backfill_expects(backfill, caught),
        backfill is Listing ==> (backfill_expects(backfill, caught) <==> caught is Listed),
        backfill is Loading || backfill is Notifying ==> (backfill_expects(backfill, caught)
            <==> caught is Done),
        backfill matches BackfillView::Ingesting { runs, at } ==> (at < runs.len() ==> (
        backfill_expects(backfill, caught) <==> caught is Done)),
        load is Finished ==> !load_expects(load, loaded),
        load is Listing ==> (load_expects(load, loaded) <==> loaded is Listed),
        load is Loading || load is Completing || load is Delivering || load is Checkpointing ==> (
        load_expects(load, loaded) <==> loaded is Done),
        load matches LoadView::Hydrating { runs, at } ==> (at < runs.len() ==> (load_expects(
            load,
            loaded,
        ) <==> loaded is Done)),
        read is Finished ==> !read_expects(read, heard),
        read is Reading ==> (read_expects(read, heard) <==> heard is Read),
        read is Rebuilding ==> (read_expects(read, heard) <==> heard is Rebuilt),
        read is Beginning ==> (read_expects(read, heard) <==> heard is Captured),
        stop is Finished ==> !stop_expects(stop, answered),
        stop is Listing ==> (stop_expects(stop, answered) <==> answered is Listed),
        stop matches StopView::Cancelling { count } ==> (stop_expects(stop, answered) <==> (answered
            matches StopEvent::Cancelled(outcomes) && outcomes@.len() == count)),
{
}

/// A key that is not Cursor's is complained of by its length and its beginning,
/// and a client is printed with everything but its key.
pub proof fn law_what_is_said_of_a_client(
    length: nat,
    prefix: Text,
    base_url: Text,
    model: Option<Text>,
    starting_ref: Text,
    record_dir: Option<Text>,
)
    ensures
        malformed_words(length, prefix) == "CURSOR_API_KEY is not a Cursor key: "@ + decimal_text(
            length,
        ) + " characters beginning with "@ + prefix,
        printed_config(base_url, model, starting_ref, record_dir)
            == "CursorConfig { api_key: [redacted], base_url: "@ + base_url + ", model: "@ + (
        match model {
            Some(model) => model,
            None => "none"@,
        }) + ", starting_ref: "@ + starting_ref + ", record_dir: "@ + (match record_dir {
            Some(dir) => dir,
            None => "none"@,
        }) + " }"@,
{
}

/// A refused model is named, with those the account offers, in order.
pub proof fn law_a_refused_model_is_named(models: Seq<ModelView>, id: Text)
    ensures
        model_refusal(models, id) == "no cursor model with id "@ + id
            + "; this account offers "@ + joined(Seq::new(models.len(), |i: int| models[i].id), ", "@),
{
    assert(models.map_values(|model: ModelView| model.id) =~= Seq::new(
        models.len(),
        |i: int| models[i].id,
    ));
}

/// A minted id is the common prefix and the counter's numeral.
pub proof fn law_a_minted_id_is_numbered(number: nat)
    ensures
        minted_name(number) == "cursor-acp-"@ + decimal_text(number),
{
}

/// Catching up begins with the first run of its list that is not reconciled
/// yet.
pub proof fn law_catching_up_begins_with_the_first_pending_run(
    state: StateView,
    current: Option<Text>,
    listings: Seq<ListingView>,
    at: nat,
)
    requires
        ({
            let runs = runs_to_mirror(
                state.entries,
                listings.map_values(|listing: ListingView| listing.id),
                state.last_run,
                current,
            );
            &&& at < runs.len()
            &&& !is_reconciled(state.entries, runs[at as int])
            &&& forall|i: int| 0 <= i < at ==> is_reconciled(state.entries, #[trigger] runs[i])
        }),
    ensures
        ({
            let runs = runs_to_mirror(
                state.entries,
                listings.map_values(|listing: ListingView| listing.id),
                state.last_run,
                current,
            );
            let listed = backfill_stepped(
                BackfillView::Listing,
                state,
                current,
                BackfillEventView::Listed(Ok(listings)),
            );
            &&& listed.action == (BackfillActionView::Ingest { run: runs[at as int] })
            &&& listed.state == state
        }),
{
    let runs = runs_to_mirror(
        state.entries,
        listings.map_values(|listing: ListingView| listing.id),
        state.last_run,
        current,
    );
    let plan = marked(state.entries, runs);
    assert forall|i: int| 0 <= i < plan.len() implies (#[trigger] plan[i]).run == runs[i]
        && plan[i].reconciled == is_reconciled(state.entries, runs[i]) by {}
    assert(listed_ids(listings) =~= listings.map_values(|listing: ListingView| listing.id));
    lemma_mirror_next(state, plan, 0, at);
}

} // verus!

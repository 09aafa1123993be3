//! What holds of the cache's answers as a whole.

use crate::cache::answers::{
    bad_number, claim_json, claim_told, optional_json, texts_json, upsert_json, upsert_told,
    verbatims_json, write_members, write_told, ClaimToldView, ClaimedMutation, ClaimedView,
    EngineWrite, EngineWriteView, JsClaimedMutation, JsMutationUpsertKind, JsWriteResult,
    MutationUpsertKind, UpsertView,
};
use crate::cache::filtering::{
    filter_expects, filter_json, filter_stepped, FilterActionView, FilterEventView,
    FilterResultView, Filtering, QueryResultView, ReconciliationView,
};
use crate::cache::interner::{is_named, known_names, name_of};
use crate::cache::reports::{depth_told, oldest_told, QueueDiagnostics};
use crate::cache::settling::{
    after_enqueue, enqueue_json, enqueue_told, initial_claim_json, settled_json,
    superseded_json, superseded_told, EnqueueView, InitialClaimToldView, InitialClaimView,
    SupersededView,
};
use crate::cache::state::{
    after_failure, cache_error_message, callable, engine_error_message, lost, refusal, rejection,
    reusable, CacheErrorView, CacheState, EngineErrorView, ResetReason,
};
use crate::cache::storage::{
    outcome_label, phase_expects, task_stepped, CacheOpenOutcome, Goal, PhaseView, StorageActionView,
    StorageEventView, StorageOpenOutcome, TaskView,
};
use crate::cache::writing::{
    write_expects, write_stepped, WriteActionView, WriteEventView, WritePhase, WritingView,
};
use crate::decimal::{decimal_text, law_decimal_round_trip, parsed_u64, signed_text};
use crate::json::{law_a_member_is_found_by_its_name, read_json, JsonView};
use crate::text::Text;
use vstd::prelude::*;

verus! {

/// The page is told of the queue what the engine reports of it: an insertion as
/// one, a replacement exactly when a waiting mutation was replaced, and an
/// append exactly when one is running; the other transaction is named by the
/// numeral of its id, so the page reads back the very id.
pub proof fn law_the_queue_is_told_as_it_is(kind: MutationUpsertKind)
    ensures
        upsert_told(kind) is Inserted <==> kind is Inserted,
        upsert_told(kind) is ReplacedPending <==> kind is ReplacedPending,
        upsert_told(kind) is AppendedAfterActive <==> kind is AppendedAfterActive,
        upsert_told(kind) matches UpsertView::ReplacedPending { removed_transaction_id } ==> (
        removed_transaction_id == decimal_text(kind->removed_id as nat) && parsed_u64(
            removed_transaction_id,
        ) == Some(kind->removed_id)),
        upsert_told(kind) matches UpsertView::AppendedAfterActive { active_transaction_id } ==> (
        active_transaction_id == decimal_text(kind->active_id as nat) && parsed_u64(
            active_transaction_id,
        ) == Some(kind->active_id)),
{
    match kind {
        MutationUpsertKind::ReplacedPending { removed_id } => {
            law_decimal_round_trip(removed_id);
        },
        MutationUpsertKind::AppendedAfterActive { active_id } => {
            law_decimal_round_trip(active_id);
        },
        MutationUpsertKind::Inserted => {},
    }
}

/// Different reports of the queue are told differently.
pub proof fn law_reports_of_the_queue_are_told_apart(
    left: MutationUpsertKind,
    right: MutationUpsertKind,
)
    requires
        upsert_told(left) == upsert_told(right),
    ensures
        left == right,
{
    law_the_queue_is_told_as_it_is(left);
    law_the_queue_is_told_as_it_is(right);
}

/// The page reads the kind and the other transaction's id off the answer's
/// members: an id is there exactly where another transaction is concerned.
pub proof fn law_the_queues_json_names_the_transaction(kind: MutationUpsertKind)
    ensures
        ({
            let json = upsert_json(upsert_told(kind));
            match kind {
                MutationUpsertKind::Inserted => {
                    &&& json.member("kind"@) == Some(JsonView::Text("inserted"@))
                    &&& json.member("removedTransactionId"@) is None
                    &&& json.member("activeTransactionId"@) is None
                },
                MutationUpsertKind::ReplacedPending { removed_id } => {
                    &&& json.member("kind"@) == Some(JsonView::Text("replaced-pending"@))
                    &&& json.member("removedTransactionId"@) == Some(
                        JsonView::Text(decimal_text(removed_id as nat)),
                    )
                    &&& json.member("activeTransactionId"@) is None
                },
                MutationUpsertKind::AppendedAfterActive { active_id } => {
                    &&& json.member("kind"@) == Some(JsonView::Text("appended-after-active"@))
                    &&& json.member("removedTransactionId"@) is None
                    &&& json.member("activeTransactionId"@) == Some(
                        JsonView::Text(decimal_text(active_id as nat)),
                    )
                },
            }
        }),
{
    reveal_strlit("kind");
    assert("kind"@.len() == 4);
    reveal_strlit("removedTransactionId");
    assert("removedTransactionId"@.len() == 20);
    reveal_strlit("activeTransactionId");
    assert("activeTransactionId"@.len() == 19);
    let members = upsert_json(upsert_told(kind))->Object_0;
    law_a_member_is_found_by_its_name(members, 0, "kind"@);
    law_a_member_is_found_by_its_name(members, 1, "removedTransactionId"@);
    law_a_member_is_found_by_its_name(members, 1, "activeTransactionId"@);
}

/// Every text of a list is a string of the answer's array, in its place; a
/// carried value is there as it is written.
pub proof fn law_lists_are_told_in_order(texts: Seq<Text>, at: int)
    ensures
        texts_json(texts) is Array,
        texts_json(texts)->Array_0.len() == texts.len(),
        0 <= at < texts.len() ==> texts_json(texts)->Array_0[at] == JsonView::Text(texts[at]),
        verbatims_json(texts) is Array,
        verbatims_json(texts)->Array_0.len() == texts.len(),
        0 <= at < texts.len() ==> verbatims_json(texts)->Array_0[at] == JsonView::Verbatim(
            texts[at],
        ),
        optional_json(None) == JsonView::Null,
        0 <= at < texts.len() ==> optional_json(Some(texts[at])) == JsonView::Text(texts[at]),
{
}

proof fn lemma_write_names()
    ensures
        "revision"@.len() == 8,
        "revisionAdvanced"@.len() == 16,
        "changed"@.len() == 7,
        "affectedOps"@.len() == 11,
        "reset"@.len() == 5,
        "revalidations"@.len() == 13,
{
    reveal_strlit("revision");
    reveal_strlit("revisionAdvanced");
    reveal_strlit("changed");
    reveal_strlit("affectedOps");
    reveal_strlit("reset");
    reveal_strlit("revalidations");
}

/// A write's answer tells of the engine's report, each part under its own name:
/// the revision as a numeral the page reads back, whether it advanced, the
/// changed keys, whether the cache was reset, the queries to revalidate, and
/// the affected operations by the names the page registered them under.
pub proof fn law_a_write_is_told_as_reported(write: EngineWriteView, ids: Map<Text, u64>)
    ensures
        ({
            let told = write_told(write, ids);
            let json = JsonView::Object(write_members(told));
            &&& parsed_u64(told.revision) == Some(write.revision)
            &&& told.revision_advanced == write.revision_advanced
            &&& told.changed == write.changed
            &&& told.reset == write.reset
            &&& told.revalidations == write.revalidations
            &&& json.member("revision"@) == Some(JsonView::Text(told.revision))
            &&& json.member("revisionAdvanced"@) == Some(JsonView::Bool(write.revision_advanced))
            &&& json.member("changed"@) == Some(texts_json(write.changed))
            &&& json.member("affectedOps"@) == Some(
                texts_json(known_names(ids, write.affected_ops)),
            )
            &&& json.member("reset"@) == Some(JsonView::Bool(write.reset))
            &&& json.member("revalidations"@) == Some(verbatims_json(write.revalidations))
        }),
{
    law_decimal_round_trip(write.revision);
    lemma_write_names();
    let members = write_members(write_told(write, ids));
    law_a_member_is_found_by_its_name(members, 0, "revision"@);
    law_a_member_is_found_by_its_name(members, 1, "revisionAdvanced"@);
    law_a_member_is_found_by_its_name(members, 2, "changed"@);
    law_a_member_is_found_by_its_name(members, 3, "affectedOps"@);
    law_a_member_is_found_by_its_name(members, 4, "reset"@);
    law_a_member_is_found_by_its_name(members, 5, "revalidations"@);
}

/// Operations come back out by their registered names, in the order of their
/// ids; an id that nothing is registered under is passed over.
pub proof fn law_operations_are_named_in_order(
    ids: Map<Text, u64>,
    wanted: Seq<u64>,
    more: Seq<u64>,
    name: Text,
    id: u64,
)
    requires
        forall|left: Text, right: Text|
            #![trigger ids.dom().contains(left), ids.dom().contains(right)]
            ids.dom().contains(left) && ids.dom().contains(right) && ids[left] == ids[right]
                ==> left == right,
    ensures
        known_names(ids, wanted + more) == known_names(ids, wanted) + known_names(ids, more),
        ids.dom().contains(name) && ids[name] == id ==> known_names(ids, seq![id]) == seq![name],
        (forall|other: Text| #[trigger] ids.dom().contains(other) ==> ids[other] != id)
            ==> known_names(ids, seq![id]).len() == 0,
        known_names(ids, Seq::<u64>::empty()).len() == 0,
    decreases more.len(),
{
    let all = wanted + more;
    if more.len() == 0 {
        assert(all =~= wanted);
        assert(known_names(ids, wanted) + known_names(ids, more) =~= known_names(ids, wanted));
    } else {
        law_operations_are_named_in_order(ids, wanted, more.drop_last(), name, id);
        assert(all.drop_last() =~= wanted + more.drop_last());
        assert(all.last() == more.last());
        assert(known_names(ids, all) =~= known_names(ids, wanted) + known_names(ids, more));
    }
    let single = seq![id];
    assert(single.drop_last() =~= Seq::<u64>::empty());
    assert(known_names(ids, single.drop_last()) =~= Seq::<Text>::empty());
    if ids.dom().contains(name) && ids[name] == id {
        assert(is_named(ids, id));
        let found = name_of(ids, id);
        assert(ids.dom().contains(found) && ids[found] == id);
        assert(known_names(ids, single) =~= seq![name]);
    }
}

proof fn lemma_claim_names()
    ensures
        "transactionId"@.len() == 13,
        "transactionId"@[0] == 't',
        "uuid"@.len() == 4,
        "superseded"@.len() == 10,
        "leaseGeneration"@.len() == 15,
        "query"@.len() == 5,
        "operationName"@.len() == 13,
        "operationName"@[0] == 'o',
        "variables"@.len() == 9,
        "identity"@.len() == 8,
        "attemptCount"@.len() == 12,
{
    reveal_strlit("transactionId");
    reveal_strlit("uuid");
    reveal_strlit("superseded");
    reveal_strlit("leaseGeneration");
    reveal_strlit("query");
    reveal_strlit("operationName");
    reveal_strlit("variables");
    reveal_strlit("identity");
    reveal_strlit("attemptCount");
}

/// A leased mutation is handed over whole: the page reads back the transaction
/// and the lease it must settle it under, and finds the document, the
/// operation, the stored variables, the identity and the attempts as they were
/// stored. It is refused exactly when its variables are not JSON, in the
/// reader's own words.
pub proof fn law_a_lease_is_handed_over_whole(claimed: ClaimedView)
    ensures
        claim_told(claimed) is Ok <==> read_json(claimed.variables_json) is Ok,
        claim_told(claimed) matches Err(error) ==> error == CacheErrorView::Failed(
            read_json(claimed.variables_json)->Err_0,
        ),
        claim_told(claimed) matches Ok(told) ==> {
            let json = claim_json(told);
            &&& parsed_u64(told.transaction_id) == Some(claimed.id)
            &&& parsed_u64(told.lease_generation) == Some(claimed.lease_generation)
            &&& json.member("transactionId"@) == Some(
                JsonView::Text(decimal_text(claimed.id as nat)),
            )
            &&& json.member("uuid"@) == Some(JsonView::Text(claimed.uuid))
            &&& json.member("superseded"@) == Some(JsonView::Bool(claimed.superseded))
            &&& json.member("leaseGeneration"@) == Some(
                JsonView::Text(decimal_text(claimed.lease_generation as nat)),
            )
            &&& json.member("query"@) == Some(JsonView::Text(claimed.query))
            &&& json.member("operationName"@) == Some(
                match claimed.operation_name {
                    Some(name) => JsonView::Text(name),
                    None => JsonView::Null,
                },
            )
            &&& json.member("variables"@) == Some(JsonView::Verbatim(claimed.variables_json))
            &&& json.member("identity"@) == Some(
                match claimed.identity {
                    Some(identity) => JsonView::Text(identity),
                    None => JsonView::Null,
                },
            )
            &&& json.member("attemptCount"@) == Some(
                JsonView::Number(Some(claimed.attempt_count as u64)),
            )
        },
{
    law_decimal_round_trip(claimed.id);
    law_decimal_round_trip(claimed.lease_generation);
    lemma_claim_names();
    if let Ok(told) = claim_told(claimed) {
        let members = claim_json(told)->Object_0;
        law_a_member_is_found_by_its_name(members, 0, "transactionId"@);
        law_a_member_is_found_by_its_name(members, 1, "uuid"@);
        law_a_member_is_found_by_its_name(members, 2, "superseded"@);
        law_a_member_is_found_by_its_name(members, 3, "leaseGeneration"@);
        law_a_member_is_found_by_its_name(members, 4, "query"@);
        law_a_member_is_found_by_its_name(members, 5, "operationName"@);
        law_a_member_is_found_by_its_name(members, 6, "variables"@);
        law_a_member_is_found_by_its_name(members, 7, "identity"@);
        law_a_member_is_found_by_its_name(members, 8, "attemptCount"@);
    }
}

/// A refused number is quoted with what it was meant to be.
pub proof fn law_a_bad_number_is_quoted(value: Text, label: Text)
    ensures
        bad_number(value, label) == "invalid "@ + (label + (" `"@ + (value + "`"@))),
{
    assert(bad_number(value, label) =~= "invalid "@ + (label + (" `"@ + (value + "`"@))));
}

/// Queueing succeeded whatever came of the claim: it is told with the
/// transaction's id, what it did to the queue and to the cache, and what came
/// of the claim. It fails only where the storage needs a reset, which latches
/// the cache, or where the leased mutation cannot be handed over.
pub proof fn law_a_queued_mutation_is_told(enqueued: EnqueueView, ids: Map<Text, u64>)
    ensures
        ({
            let outcome = enqueue_told(enqueued, ids);
            &&& outcome matches Ok(told) ==> {
                &&& parsed_u64(told.transaction_id) == Some(enqueued.transaction_id)
                &&& told.upsert_kind == upsert_told(enqueued.upsert_kind)
                &&& told.write == write_told(enqueued.write, ids)
                &&& match enqueued.initial_claim {
                    InitialClaimView::Claimed(claimed) => told.initial_claim
                        matches InitialClaimToldView::Claimed { mutation } && claim_told(claimed)
                        == Ok::<_, CacheErrorView>(mutation),
                    InitialClaimView::NotRunnable => told.initial_claim is NotRunnable,
                    InitialClaimView::Failed(error) => told.initial_claim
                        == (InitialClaimToldView::Failed {
                        error: match error {
                            EngineErrorView::Storage { message, .. } => message,
                            EngineErrorView::Other(message) => message,
                        },
                    }),
                }
            }
            &&& outcome matches Err(error) ==> (match enqueued.initial_claim {
                InitialClaimView::Claimed(claimed) => claim_told(claimed) is Err && error
                    == claim_told(claimed)->Err_0,
                InitialClaimView::NotRunnable => false,
                InitialClaimView::Failed(EngineErrorView::Storage { reset: Some(_), .. }) => error
                    is ResetRequired,
                InitialClaimView::Failed(_) => false,
            })
            &&& enqueued.initial_claim matches InitialClaimView::Failed(
                EngineErrorView::Storage { reset: Some(_), .. },
            ) ==> outcome is Err
        }),
{
    law_decimal_round_trip(enqueued.transaction_id);
}

/// The members of a queued mutation's answer hold what was told.
pub proof fn law_a_queued_mutations_json(enqueued: EnqueueView, ids: Map<Text, u64>)
    requires
        enqueue_told(enqueued, ids) is Ok,
    ensures
        ({
            let told = enqueue_told(enqueued, ids)->Ok_0;
            let json = enqueue_json(told);
            let claim = initial_claim_json(told.initial_claim);
            &&& json.member("transactionId"@) == Some(
                JsonView::Text(decimal_text(enqueued.transaction_id as nat)),
            )
            &&& json.member("upsertKind"@) == Some(upsert_json(upsert_told(enqueued.upsert_kind)))
            &&& json.member("initialClaim"@) == Some(claim)
            &&& json.member("revision"@) == Some(
                JsonView::Text(decimal_text(enqueued.write.revision as nat)),
            )
            &&& json.member("reset"@) == Some(JsonView::Bool(enqueued.write.reset))
            &&& match enqueued.initial_claim {
                InitialClaimView::Claimed(claimed) => {
                    &&& claim.member("kind"@) == Some(JsonView::Text("claimed"@))
                    &&& claim.member("mutation"@) == Some(claim_json(claim_told(claimed)->Ok_0))
                },
                InitialClaimView::NotRunnable => claim.member("kind"@) == Some(
                    JsonView::Text("not-runnable"@),
                ),
                InitialClaimView::Failed(error) => {
                    &&& claim.member("kind"@) == Some(JsonView::Text("failed"@))
                    &&& claim.member("error"@) == Some(JsonView::Text(engine_error_message(error)))
                },
            }
        }),
{
    lemma_write_names();
    reveal_strlit("transactionId");
    assert("transactionId"@.len() == 13);
    assert("transactionId"@[0] == 't');
    reveal_strlit("upsertKind");
    assert("upsertKind"@.len() == 10);
    reveal_strlit("initialClaim");
    assert("initialClaim"@.len() == 12);
    reveal_strlit("kind");
    assert("kind"@.len() == 4);
    reveal_strlit("mutation");
    assert("mutation"@.len() == 8);
    reveal_strlit("error");
    assert("error"@.len() == 5);
    let told = enqueue_told(enqueued, ids)->Ok_0;
    let members = enqueue_json(told)->Object_0;
    let write = write_members(told.write);
    assert forall|i: int| 0 <= i < 6 implies members[i + 2] == #[trigger] write[i] by {}
    assert(members[2] == write[0] && members[3] == write[1] && members[4] == write[2] && members[5]
        == write[3] && members[6] == write[4] && members[7] == write[5]);
    reveal_strlit("revalidations");
    assert("revalidations"@.len() == 13);
    assert("revalidations"@[0] == 'r');
    law_a_member_is_found_by_its_name(members, 0, "transactionId"@);
    law_a_member_is_found_by_its_name(members, 1, "upsertKind"@);
    law_a_member_is_found_by_its_name(members, 2, "revision"@);
    law_a_member_is_found_by_its_name(members, 6, "reset"@);
    law_a_member_is_found_by_its_name(members, 8, "initialClaim"@);
    let claim = initial_claim_json(told.initial_claim)->Object_0;
    law_a_member_is_found_by_its_name(claim, 0, "kind"@);
    law_a_member_is_found_by_its_name(claim, 1, "mutation"@);
    law_a_member_is_found_by_its_name(claim, 1, "error"@);
}

/// A settled mutation that another replaced names the one that replaced it, by
/// an id the page reads back, beside its kind and the write's own members.
pub proof fn law_a_replacement_is_named(
    kind: Text,
    superseded: SupersededView,
    ids: Map<Text, u64>,
)
    ensures
        ({
            let told = superseded_told(superseded, ids);
            let json = superseded_json(kind, told);
            let plain = settled_json(kind, told.result);
            &&& parsed_u64(told.replacement_transaction_id) == Some(
                superseded.replacement_transaction_id,
            )
            &&& told.result == write_told(superseded.write, ids)
            &&& json.member("kind"@) == Some(JsonView::Text(kind))
            &&& json.member("replacementTransactionId"@) == Some(
                JsonView::Text(decimal_text(superseded.replacement_transaction_id as nat)),
            )
            &&& json->Object_0.skip(2) == write_members(told.result)
            &&& plain.member("kind"@) == Some(JsonView::Text(kind))
            &&& plain->Object_0.skip(1) == write_members(told.result)
        }),
{
    law_decimal_round_trip(superseded.replacement_transaction_id);
    reveal_strlit("kind");
    assert("kind"@.len() == 4);
    reveal_strlit("replacementTransactionId");
    assert("replacementTransactionId"@.len() == 24);
    let told = superseded_told(superseded, ids);
    let members = superseded_json(kind, told)->Object_0;
    law_a_member_is_found_by_its_name(members, 0, "kind"@);
    law_a_member_is_found_by_its_name(members, 1, "replacementTransactionId"@);
    law_a_member_is_found_by_its_name(settled_json(kind, told.result)->Object_0, 0, "kind"@);
    assert(members.skip(2) =~= write_members(told.result));
    assert(settled_json(kind, told.result)->Object_0.skip(1) =~= write_members(told.result));
}

/// The queue's depth is told exactly when the queue could be observed, and its
/// oldest entry's time exactly when there is one besides; both read back.
pub proof fn law_diagnostics_are_told_when_observed(diagnostics: QueueDiagnostics)
    ensures
        depth_told(diagnostics) is Some <==> diagnostics.available,
        depth_told(diagnostics) matches Some(depth) ==> parsed_u64(depth) == Some(
            diagnostics.depth,
        ),
        oldest_told(diagnostics) is Some <==> diagnostics.available
            && diagnostics.oldest_created_at_ms is Some,
        oldest_told(diagnostics) matches Some(oldest) ==> oldest == signed_text(
            diagnostics.oldest_created_at_ms->0 as int,
        ),
{
    law_decimal_round_trip(diagnostics.depth);
}

/// Only a storage that needs a physical reset latches the cache, and only that
/// is rejected as a required reset; any other failure is told in its own words
/// and leaves the cache as it was.
pub proof fn law_only_a_reset_latches<E>(state: CacheState<E>, error: EngineErrorView)
    ensures
        match error {
            EngineErrorView::Storage { reset: Some(_), .. } => {
                &&& rejection(error) is ResetRequired
                &&& after_failure(state, error) == (CacheState { reset_required: true, ..state })
                &&& !callable(after_failure(state, error))
            },
            EngineErrorView::Storage { message, reset: None } => {
                &&& rejection(error) == CacheErrorView::Failed(message)
                &&& after_failure(state, error) == state
            },
            EngineErrorView::Other(message) => {
                &&& rejection(error) == CacheErrorView::Failed(message)
                &&& after_failure(state, error) == state
            },
        },
        after_enqueue(state, InitialClaimView::Failed(error)) == after_failure(state, error),
        after_enqueue(state, InitialClaimView::NotRunnable) == state,
{
}

/// A cache is refused exactly when it is latched or has no engine: a latch is
/// told as the reset it needs, or as the loss of the engine to whoever would
/// reset it; without a latch it is closed.
pub proof fn law_how_a_cache_refuses<E>(state: CacheState<E>)
    ensures
        callable(state) <==> !state.reset_required && state.engine is Some,
        state.reset_required ==> refusal(state) is ResetRequired && lost(state) is Replacement,
        !state.reset_required ==> refusal(state) is Closed && lost(state) is Closed,
{
}

/// Rejections are told apart by their words; a failure's own words are told as
/// they are.
pub proof fn law_rejections_are_told_apart(message: Text)
    ensures
        cache_error_message(CacheErrorView::ResetRequired) == "cache storage reset required"@,
        cache_error_message(CacheErrorView::Closed) == "cache engine is closed"@,
        cache_error_message(CacheErrorView::Replacement)
            == "cache engine requires worker replacement"@,
        cache_error_message(CacheErrorView::Failed(message)) == message,
{
}

/// Two identities that are both known must agree before anything stored is
/// read; one that is not known never stands in the way.
pub proof fn law_identities_must_agree(observed: Text, bound: Text)
    ensures
        reusable(Some(observed), Some(bound)) <==> observed == bound,
        reusable(None, Some(bound)),
        reusable(Some(observed), None),
        reusable(None, None),
{
}

/// A write under a known identity asks which one is bound before it reads
/// anything stored; without one it does not ask. A write fails in the words of
/// what failed, and keeps the identity it began with.
pub proof fn law_a_write_asks_before_it_reads<P>(
    writing: WritingView<P>,
    event: WriteEventView<P>,
)
    requires
        write_expects(writing, event),
    ensures
        ({
            let next = write_stepped(writing, event);
            &&& next.0.identity == writing.identity
            &&& next.1 is AskIdentity <==> writing.phase == WritePhase::Projecting && event
                is Projected && writing.identity is Some
            &&& next.1 is ProjectNotifications ==> (writing.identity is None && writing.phase
                == WritePhase::Projecting) || (event matches WriteEventView::Bound(bound) && (bound
                is None || bound == writing.identity))
            &&& event matches WriteEventView::Unprojected(message) ==> next.1
                == WriteActionView::<P>::Fail(CacheErrorView::Failed(message))
            &&& event matches WriteEventView::EngineFailed(error) ==> next.1
                == WriteActionView::<P>::Fail(rejection(error))
            &&& next.1 is Fail ==> event is Unprojected || event is EngineFailed
        }),
{
}

/// A filter is answered with what the index or the reconciliation found: the
/// same records in the same order, at a revision the page reads back, marked as
/// expected only exactly when they are.
pub proof fn law_a_filter_answers_what_was_found(
    filtering: Filtering,
    revision: u64,
    keys: Seq<Text>,
    reconciliation: ReconciliationView,
)
    ensures
        ({
            let complete = filter_stepped(
                filtering,
                FilterEventView::Queried { revision, result: QueryResultView::Complete(keys) },
            ).1;
            let expected = filter_stepped(
                filtering,
                FilterEventView::Queried { revision, result: QueryResultView::Optimistic(keys) },
            ).1;
            let unknown = filter_stepped(
                filtering,
                FilterEventView::Queried { revision, result: QueryResultView::Incomplete },
            ).1;
            let reconciled = filter_stepped(
                filtering,
                FilterEventView::Reconciled { revision, reconciliation },
            ).1;
            let numeral = decimal_text(revision as nat);
            &&& parsed_u64(numeral) == Some(revision)
            &&& complete == FilterActionView::Answer(
                FilterResultView::Complete { revision: numeral, keys, optimistic: false },
            )
            &&& expected == FilterActionView::Answer(
                FilterResultView::Complete { revision: numeral, keys, optimistic: true },
            )
            &&& unknown == FilterActionView::Answer(
                FilterResultView::Incomplete { revision: numeral },
            )
            &&& reconciled == FilterActionView::Answer(
                FilterResultView::Reconciled {
                    revision: numeral,
                    keys: reconciliation.keys,
                    retained_keys: reconciliation.retained_keys,
                    optimistic: reconciliation.optimistic,
                },
            )
        }),
{
    law_decimal_round_trip(revision);
}

/// What a compiled filter leads to: one the cache does not evaluate is told so;
/// a list the page hands in is read and then reconciled, unless it is longer
/// than may be; without one the index is queried. A mail page is answered as
/// it was read, and what is malformed fails in its own words.
pub proof fn law_what_a_filter_leads_to(
    baseline: Option<usize>,
    most: usize,
    page: Text,
    message: Text,
    filtering: Filtering,
)
    ensures
        ({
            let compiling = Filtering::Compiling { baseline, most };
            let refused = filter_stepped(compiling, FilterEventView::Compiled { supported: false });
            let taken = filter_stepped(compiling, FilterEventView::Compiled { supported: true });
            &&& refused.1 == FilterActionView::Answer(FilterResultView::Unsupported)
            &&& match baseline {
                None => taken == (Filtering::Querying, FilterActionView::Query),
                Some(length) => if length <= most {
                    &&& taken.1 is ReadBaseline
                    &&& filter_stepped(taken.0, FilterEventView::BaselineRead).1 is Reconcile
                    &&& filter_stepped(taken.0, FilterEventView::BaselineRead).0
                        == Filtering::Reconciling
                } else {
                    taken == (
                        Filtering::Finished,
                        FilterActionView::Fail(
                            CacheErrorView::Failed("reconciliation baseline is too large"@),
                        ),
                    )
                },
            }
            &&& filter_stepped(filtering, FilterEventView::Paged(page)).1
                == (FilterActionView::AnswerPage { page })
            &&& filter_stepped(filtering, FilterEventView::Malformed(message)).1
                == FilterActionView::Fail(CacheErrorView::Failed(message))
        }),
{
}

/// A filter's answer holds its kind, its revision and its records under their
/// own names.
pub proof fn law_a_filters_json(result: FilterResultView)
    ensures
        ({
            let json = filter_json(result);
            match result {
                FilterResultView::Reconciled { revision, keys, retained_keys, optimistic } => {
                    &&& json.member("kind"@) == Some(JsonView::Text("reconciled"@))
                    &&& json.member("revision"@) == Some(JsonView::Text(revision))
                    &&& json.member("keys"@) == Some(texts_json(keys))
                    &&& json.member("retainedKeys"@) == Some(texts_json(retained_keys))
                    &&& json.member("optimistic"@) == Some(JsonView::Bool(optimistic))
                },
                FilterResultView::Complete { revision, keys, optimistic } => {
                    &&& json.member("kind"@) == Some(JsonView::Text("complete"@))
                    &&& json.member("revision"@) == Some(JsonView::Text(revision))
                    &&& json.member("keys"@) == Some(texts_json(keys))
                    &&& json.member("optimistic"@) == Some(JsonView::Bool(optimistic))
                },
                FilterResultView::Unsupported => json.member("kind"@) == Some(
                    JsonView::Text("unsupported"@),
                ) && json.member("revision"@) is None,
                FilterResultView::Incomplete { revision } => {
                    &&& json.member("kind"@) == Some(JsonView::Text("incomplete"@))
                    &&& json.member("revision"@) == Some(JsonView::Text(revision))
                    &&& json.member("keys"@) is None
                },
            }
        }),
{
    reveal_strlit("kind");
    assert("kind"@.len() == 4);
    reveal_strlit("revision");
    assert("revision"@.len() == 8);
    reveal_strlit("keys");
    assert("keys"@.len() == 4);
    assert("kind"@[1] == 'i' && "keys"@[1] == 'e');
    reveal_strlit("retainedKeys");
    assert("retainedKeys"@.len() == 12);
    reveal_strlit("optimistic");
    assert("optimistic"@.len() == 10);
    let members = filter_json(result)->Object_0;
    law_a_member_is_found_by_its_name(members, 0, "kind"@);
    law_a_member_is_found_by_its_name(members, 1, "revision"@);
    law_a_member_is_found_by_its_name(members, 2, "keys"@);
    law_a_member_is_found_by_its_name(members, 3, "retainedKeys"@);
    law_a_member_is_found_by_its_name(members, 3, "optimistic"@);
    law_a_member_is_found_by_its_name(members, 4, "optimistic"@);
}

/// A storage that fails in the middle of its work fails the work in its own
/// words, whatever was going on; the goal never changes on the way.
pub proof fn law_storage_work_fails_in_its_own_words(
    task: TaskView,
    event: StorageEventView,
    message: Text,
)
    ensures
        task_stepped(task, StorageEventView::Failed(message)).1 == StorageActionView::Fail(
            CacheErrorView::Failed(message),
        ),
        task_stepped(task, StorageEventView::Failed(message)).0.phase is Finished,
        task_stepped(task, event).0.goal == task.goal,
{
}

/// An open that meets nothing wrong locks, opens, connects and initializes, in
/// that order, and reports what the storage says it found. With a wipe asked
/// for, the wipe comes between the lock and the files, and the report is that
/// what was stored is gone.
pub proof fn law_an_open_without_trouble(wiped: bool, found: StorageOpenOutcome)
    ensures
        ({
            let goal = Goal::Open { wiped };
            let locked = task_stepped(
                TaskView { goal, phase: PhaseView::Acquiring },
                StorageEventView::Done,
            );
            let ready = if wiped {
                task_stepped(locked.0, StorageEventView::Done)
            } else {
                locked
            };
            let opened = task_stepped(ready.0, StorageEventView::Ready);
            let connected = task_stepped(opened.0, StorageEventView::Done);
            let finished = task_stepped(connected.0, StorageEventView::Initialized(found));
            &&& wiped ==> locked.1 is Wipe
            &&& ready.1 is Open
            &&& opened.1 is Connect
            &&& connected.1 is Initialize
            &&& finished.1 == StorageActionView::Opened(
                if wiped {
                    CacheOpenOutcome::ResetStorageUncertain
                } else {
                    match found {
                        StorageOpenOutcome::OpenedExisting => CacheOpenOutcome::OpenedExisting,
                        StorageOpenOutcome::OpenedNew => CacheOpenOutcome::OpenedNew,
                    }
                },
            )
            &&& finished.0.phase is Finished
        }),
{
}

/// A storage that asks for a reset while it is opened is reset once and opened
/// again, and the report names why: another format, a corrupt file, or a
/// storage whose state is not certain. Asked a second time the open gives up:
/// it resets, releases the lock and asks its caller for the reset.
pub proof fn law_a_storage_is_reset_once(
    goal: Goal,
    reason: ResetReason,
    again: Option<ResetReason>,
    message: Text,
    found: StorageOpenOutcome,
)
    requires
        goal == (Goal::Open { wiped: false }) || goal is Restart,
    ensures
        ({
            let rejected = task_stepped(
                TaskView { goal, phase: PhaseView::Initializing { recovered: None } },
                StorageEventView::Rejected { message, reset: Some(reason) },
            );
            let reset = task_stepped(rejected.0, StorageEventView::Done);
            let opened = task_stepped(reset.0, StorageEventView::Ready);
            let connected = task_stepped(opened.0, StorageEventView::Done);
            let finished = task_stepped(connected.0, StorageEventView::Initialized(found));
            let refused = task_stepped(
                connected.0,
                StorageEventView::Rejected { message, reset: again },
            );
            let released = task_stepped(refused.0, StorageEventView::Done);
            let failed = task_stepped(released.0, StorageEventView::Done);
            &&& rejected.1 is Reset
            &&& reset.1 is Open
            &&& connected.1 is Initialize
            &&& finished.1 == StorageActionView::Opened(
                match reason {
                    ResetReason::Compatibility => CacheOpenOutcome::ResetIncompatible,
                    ResetReason::Corruption => CacheOpenOutcome::ResetCorrupt,
                    ResetReason::Codec => CacheOpenOutcome::ResetCorrupt,
                    ResetReason::Invariant => CacheOpenOutcome::ResetCorrupt,
                    ResetReason::Integrity => CacheOpenOutcome::ResetCorrupt,
                    ResetReason::StorageFull => CacheOpenOutcome::ResetStorageUncertain,
                    ResetReason::TransactionOutcomeUncertain => {
                        CacheOpenOutcome::ResetStorageUncertain
                    },
                    ResetReason::Io => CacheOpenOutcome::ResetStorageUncertain,
                },
            )
            &&& refused.1 is Reset
            &&& released.1 is Release
            &&& failed.1 == StorageActionView::Fail(
                if again is Some {
                    CacheErrorView::ResetRequired
                } else {
                    CacheErrorView::Failed("cache storage initialization failed"@)
                },
            )
        }),
{
}

/// Files that cannot be used are reset once and opened again, as a storage
/// whose state is not certain; a second time the open gives up, having reset
/// them and released the lock.
pub proof fn law_unusable_files_are_reset_once(goal: Goal, found: StorageOpenOutcome)
    requires
        goal == (Goal::Open { wiped: false }) || goal is Restart,
    ensures
        ({
            let unusable = task_stepped(
                TaskView { goal, phase: PhaseView::Opening { recovered: None } },
                StorageEventView::NeedsReset,
            );
            let reset = task_stepped(unusable.0, StorageEventView::Done);
            let opened = task_stepped(reset.0, StorageEventView::Ready);
            let connected = task_stepped(opened.0, StorageEventView::Done);
            let finished = task_stepped(connected.0, StorageEventView::Initialized(found));
            let again = task_stepped(reset.0, StorageEventView::NeedsReset);
            let released = task_stepped(again.0, StorageEventView::Done);
            &&& unusable.1 is Reset
            &&& reset.1 is Open
            &&& finished.1 == StorageActionView::Opened(CacheOpenOutcome::ResetStorageUncertain)
            &&& again.1 is Reset
            &&& released.1 is Release
            &&& task_stepped(released.0, StorageEventView::Done).1 == StorageActionView::Fail(
                CacheErrorView::ResetRequired,
            )
        }),
{
}

/// A storage that refuses to open for a reason no reset repairs is kept as it
/// is: it is closed, its lock is released, and the open fails in the storage's
/// words. Where opening the files already failed, the lock is released as far
/// as it is still held.
pub proof fn law_a_plain_refusal_keeps_the_storage(
    goal: Goal,
    message: Text,
    owner_left: bool,
    recovered: Option<CacheOpenOutcome>,
)
    requires
        goal is Open || goal is Restart,
    ensures
        ({
            let refused = task_stepped(
                TaskView { goal, phase: PhaseView::Initializing { recovered: None } },
                StorageEventView::Rejected { message, reset: None },
            );
            let kept = task_stepped(refused.0, StorageEventView::Done);
            let unopened = task_stepped(
                TaskView { goal, phase: PhaseView::Opening { recovered } },
                StorageEventView::OpenFailed { message, owner_left },
            );
            let failed = StorageActionView::Fail(CacheErrorView::Failed(message));
            &&& refused.1 is Preserve
            &&& kept.1 is Release
            &&& task_stepped(kept.0, StorageEventView::Done).1 == failed
            &&& owner_left ==> unopened.1 is Release && task_stepped(
                unopened.0,
                StorageEventView::Done,
            ).1 == failed
            &&& !owner_left ==> unopened.1 == failed
        }),
{
}

/// A close keeps a healthy storage and resets any other, or a latched one;
/// either way the lock is released and the close succeeds. A restart resets
/// what it closed and opens it again.
pub proof fn law_a_close_resets_what_is_not_healthy(latched: bool, healthy: bool)
    ensures
        ({
            let event = if healthy {
                StorageEventView::Healthy
            } else {
                StorageEventView::NeedsReset
            };
            let closing = PhaseView::ClosingFiles { force_reset: latched };
            let closed = task_stepped(TaskView { goal: Goal::Close, phase: closing }, event);
            let kept = task_stepped(closed.0, StorageEventView::Done);
            let restarting = task_stepped(
                TaskView {
                    goal: Goal::Restart,
                    phase: PhaseView::ClosingFiles { force_reset: true },
                },
                event,
            );
            &&& healthy && !latched ==> closed.1 is Preserve
            &&& !healthy || latched ==> closed.1 is Reset
            &&& kept.1 is Release
            &&& task_stepped(kept.0, StorageEventView::Done).1 is Complete
            &&& restarting.1 is Reset
            &&& task_stepped(restarting.0, StorageEventView::Done).1 is Open
        }),
{
}

/// Destroying a storage locks it, wipes it and releases it, and touches nothing
/// else.
pub proof fn law_a_destroyed_storage_is_wiped()
    ensures
        ({
            let goal = Goal::Destroy;
            let locked = task_stepped(
                TaskView { goal, phase: PhaseView::Acquiring },
                StorageEventView::Done,
            );
            let wiped = task_stepped(locked.0, StorageEventView::Done);
            let released = task_stepped(wiped.0, StorageEventView::Done);
            &&& locked.1 is Wipe
            &&& wiped.1 is Release
            &&& released.1 is Complete
        }),
{
}

/// What the page is told of the queue names the engine's own transaction, in
/// digits the page reads back as the very id.
pub proof fn law_the_page_is_told_of_the_queue(
    kind: MutationUpsertKind,
    told: JsMutationUpsertKind,
)
    requires
        told.deep_view() == upsert_told(kind),
    ensures
        match kind {
            MutationUpsertKind::Inserted => told is Inserted,
            MutationUpsertKind::ReplacedPending { removed_id } => told
                matches JsMutationUpsertKind::ReplacedPending { removed_transaction_id }
                && parsed_u64(removed_transaction_id@) == Some(removed_id),
            MutationUpsertKind::AppendedAfterActive { active_id } => told
                matches JsMutationUpsertKind::AppendedAfterActive { active_transaction_id }
                && parsed_u64(active_transaction_id@) == Some(active_id),
        },
{
    law_the_queue_is_told_as_it_is(kind);
}

/// What the page is told of a write is the engine's own report: its revision in
/// digits, its flags, its keys and its revalidations as they are.
pub proof fn law_the_page_is_told_of_a_write(
    write: EngineWrite,
    told: JsWriteResult,
    ids: Map<Text, u64>,
)
    requires
        told.deep_view() == write_told(write.deep_view(), ids),
    ensures
        parsed_u64(told.revision@) == Some(write.revision),
        told.revision_advanced == write.revision_advanced,
        told.reset == write.reset,
        told.changed.deep_view() == write.changed.deep_view(),
        told.revalidations.deep_view() == write.revalidations.deep_view(),
        told.affected_ops.deep_view() == known_names(ids, write.affected_ops@),
{
    law_decimal_round_trip(write.revision);
}

/// A leased mutation as the page holds it is the engine's own, word for word.
pub proof fn law_the_page_is_handed_the_lease(claimed: ClaimedMutation, told: JsClaimedMutation)
    requires
        claim_told(claimed.deep_view()) == Ok::<ClaimToldView, CacheErrorView>(told.deep_view()),
    ensures
        parsed_u64(told.transaction_id@) == Some(claimed.id),
        parsed_u64(told.lease_generation@) == Some(claimed.lease_generation),
        told.uuid@ == claimed.uuid@,
        told.superseded == claimed.superseded,
        told.query@ == claimed.query@,
        told.operation_name.deep_view() == claimed.operation_name.deep_view(),
        told.variables@ == claimed.variables_json@,
        told.identity.deep_view() == claimed.identity.deep_view(),
        told.attempt_count == claimed.attempt_count,
{
    law_decimal_round_trip(claimed.id);
    law_decimal_round_trip(claimed.lease_generation);
}

/// What each step of the cache's work waits for; finished work waits for
/// nothing.
pub proof fn law_what_the_cache_waits_for<P>(
    filtering: Filtering,
    asked: FilterEventView,
    writing: WritingView<P>,
    written: WriteEventView<P>,
    phase: PhaseView,
    event: StorageEventView,
)
    ensures
        filtering is Finished ==> !filter_expects(filtering, asked),
        filtering is Paging ==> (filter_expects(filtering, asked) <==> asked is Paged || asked
            is EngineFailed),
        filtering is Compiling ==> (filter_expects(filtering, asked) <==> asked is Compiled || asked
            is Malformed),
        filtering is ReadingBaseline ==> (filter_expects(filtering, asked) <==> asked
            is BaselineRead || asked is Malformed),
        filtering is Reconciling ==> (filter_expects(filtering, asked) <==> asked is Reconciled
            || asked is EngineFailed),
        filtering is Querying ==> (filter_expects(filtering, asked) <==> asked is Queried || asked
            is EngineFailed),
        writing.phase is Gathered || writing.phase is Failed ==> !write_expects(writing, written),
        writing.phase is Projecting || writing.phase is Notifying || writing.phase
            is ProjectingMail ==> (write_expects(writing, written) <==> written is Projected
            || written is Unprojected),
        writing.phase is Identifying && writing.identity is Some ==> (write_expects(writing, written)
            <==> written is Bound || written is EngineFailed),
        phase is Finished ==> !phase_expects(phase, event),
        phase is Opening ==> (phase_expects(phase, event) <==> event is Ready || event is NeedsReset
            || event is OpenFailed),
        phase is Initializing ==> (phase_expects(phase, event) <==> event is Initialized || event
            is Rejected),
        phase is ClosingFiles ==> (phase_expects(phase, event) <==> event is Healthy || event
            is NeedsReset || event is Failed),
        !(phase is Finished || phase is Opening || phase is Initializing || phase is ClosingFiles)
            ==> (phase_expects(phase, event) <==> event is Done || event is Failed),
{
}

/// A disturbed storage must be sound before and after: one that is refused, one
/// whose files cannot be used, and one that needs a reset after the disturbance
/// are each reset, released and complained of.
pub proof fn law_a_disturbed_storage_must_be_sound(message: Text, reset: Option<ResetReason>)
    ensures
        ({
            let goal = Goal::Disturb;
            let done = StorageEventView::Done;
            let refused = task_stepped(
                TaskView { goal, phase: PhaseView::Initializing { recovered: None } },
                StorageEventView::Rejected { message, reset },
            );
            let unusable = task_stepped(
                TaskView { goal, phase: PhaseView::Opening { recovered: None } },
                StorageEventView::NeedsReset,
            );
            let mutated = task_stepped(TaskView { goal, phase: PhaseView::Mutating }, done);
            let spoiled = task_stepped(mutated.0, StorageEventView::NeedsReset);
            let sound = task_stepped(mutated.0, StorageEventView::Healthy);
            let end_of = |first: (TaskView, StorageActionView)|
                task_stepped(task_stepped(first.0, done).0, done).1;
            &&& task_stepped(
                TaskView { goal, phase: PhaseView::Initializing { recovered: None } },
                StorageEventView::Initialized(StorageOpenOutcome::OpenedExisting),
            ).1 is Mutate
            &&& refused.1 is Reset
            &&& end_of(refused) == StorageActionView::Fail(
                CacheErrorView::Failed("browser-test storage validation failed"@),
            )
            &&& unusable.1 is Reset
            &&& end_of(unusable) == StorageActionView::Fail(
                CacheErrorView::Failed("browser-test storage was already reset-required"@),
            )
            &&& mutated.1 is CloseFiles
            &&& spoiled.1 is Reset
            &&& end_of(spoiled) == StorageActionView::Fail(
                CacheErrorView::Failed("browser-test mutation unexpectedly required reset"@),
            )
            &&& sound.1 is Preserve
            &&& end_of(sound) is Complete
        }),
{
}

/// How an open went is told by its own label.
pub proof fn law_an_open_is_told_by_its_label(outcome: CacheOpenOutcome)
    ensures
        outcome is OpenedExisting <==> outcome_label(outcome) == "opened-existing"@,
        outcome is OpenedNew <==> outcome_label(outcome) == "opened-new"@,
        outcome is ResetIncompatible <==> outcome_label(outcome) == "reset-incompatible"@,
        outcome is ResetCorrupt <==> outcome_label(outcome) == "reset-corrupt"@,
        outcome is ResetStorageUncertain <==> outcome_label(outcome) == "reset-storage-uncertain"@,
{
    reveal_strlit("opened-existing");
    reveal_strlit("opened-new");
    reveal_strlit("reset-incompatible");
    reveal_strlit("reset-corrupt");
    reveal_strlit("reset-storage-uncertain");
    assert("opened-existing"@.len() == 15);
    assert("opened-new"@.len() == 10);
    assert("reset-incompatible"@.len() == 18);
    assert("reset-corrupt"@.len() == 13);
    assert("reset-storage-uncertain"@.len() == 23);
}

} // verus!

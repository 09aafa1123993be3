//! The browser's query cache.

use agent_sessions::cache::answers::{
    js_write_result, parse_claim, parse_transaction_id, parse_u64, ClaimedMutation, EngineWrite,
    JsClaimedMutation, JsHydrationWriteResult, JsMutationUpsertKind, JsReadResult, JsWriteResult,
    MutationUpsertKind,
};
use agent_sessions::cache::filtering::{
    FilterAction, FilterEvent, Filtering, JsEntityFilterResult, PredicateQueryResult,
    Reconciliation,
};
use agent_sessions::cache::interner::OpInterner;
use agent_sessions::cache::reports::{
    JsAffectedOperationsResult, JsQueueDiagnostics, JsRecordSelectionResult, JsRevisionResult,
    QueueDiagnostics,
};
use agent_sessions::cache::settling::{
    CommitOptimisticWriteResult, DeferOptimisticWriteResult, EngineEnqueue, InitialClaim,
    JsCommitOptimisticWriteResult, JsDeferOptimisticWriteResult, JsInitialMutationClaim,
    JsRollbackOptimisticWriteResult, JsSuperseded, RollbackOptimisticWriteResult, Superseded,
};
use agent_sessions::cache::state::{
    can_reuse_stored_identity, validate_hot_capacity, CacheError, CacheState, EngineError,
    ResetReason, StorageError, RESET_REQUIRED_MARKER,
};
use agent_sessions::cache::storage::{
    recovery_outcome, CacheOpenOutcome, StorageAction, StorageEvent, StorageOpenOutcome,
    StorageTask,
};
use agent_sessions::cache::writing::{WriteAction, WriteEvent, Writing};
use agent_sessions::json::Json;

fn value(json: &Json) -> serde_json::Value {
    match json {
        Json::Null | Json::Number(None) => serde_json::Value::Null,
        Json::Bool(value) => serde_json::Value::Bool(*value),
        Json::Number(Some(value)) => serde_json::Value::from(*value),
        Json::Text(text) => serde_json::Value::String(text.clone()),
        Json::Array(items) => serde_json::Value::Array(items.iter().map(value).collect()),
        Json::Object(members) => serde_json::Value::Object(
            members
                .iter()
                .map(|member| (member.name.clone(), value(&member.value)))
                .collect(),
        ),
        Json::Verbatim(text) => parsed(text),
    }
}

fn parsed(text: &str) -> serde_json::Value {
    serde_json::from_str(text).expect("valid JSON")
}

fn state() -> CacheState<&'static str> {
    CacheState::opened("engine", "g1".to_owned(), "scope".to_owned(), None)
}

fn needs_reset() -> EngineError {
    EngineError::Storage(StorageError {
        message: "codec".to_owned(),
        reset: Some(ResetReason::Codec),
    })
}

fn empty_js_write_result() -> JsWriteResult {
    JsWriteResult {
        revision: "0".to_string(),
        revision_advanced: false,
        changed: Vec::new(),
        affected_ops: Vec::new(),
        reset: false,
        revalidations: Vec::new(),
    }
}

fn write(affected_ops: Vec<u64>) -> EngineWrite {
    EngineWrite {
        revision: 3,
        revision_advanced: true,
        changed: vec!["GraphqlSoupDocument:doc-1".to_owned()],
        affected_ops,
        reset: false,
        revalidations: vec![r#"{"query":"q"}"#.to_owned()],
    }
}

fn superseded(id: &str) -> JsSuperseded {
    JsSuperseded { replacement_transaction_id: id.to_owned(), result: empty_js_write_result() }
}

#[test]
fn tagged_wire_enum_fields_are_camel_case() {
    assert_eq!(
        value(
            &JsMutationUpsertKind::ReplacedPending { removed_transaction_id: "1".to_string() }
                .to_json()
        ),
        parsed(r#"{"kind": "replaced-pending", "removedTransactionId": "1"}"#)
    );
    assert_eq!(
        value(
            &JsMutationUpsertKind::AppendedAfterActive { active_transaction_id: "2".to_string() }
                .to_json()
        ),
        parsed(r#"{"kind": "appended-after-active", "activeTransactionId": "2"}"#)
    );
    assert_eq!(
        value(&JsDeferOptimisticWriteResult::DiscardedSuperseded(superseded("3")).to_json())
            ["replacementTransactionId"],
        "3"
    );
    assert_eq!(
        value(&JsCommitOptimisticWriteResult::CommittedSuperseded(superseded("4")).to_json())
            ["replacementTransactionId"],
        "4"
    );
    assert_eq!(
        value(&JsRollbackOptimisticWriteResult::DiscardedSuperseded(superseded("5")).to_json())
            ["replacementTransactionId"],
        "5"
    );
}

#[test]
fn operations_keep_their_ids_and_the_engines_order() {
    let mut ops = OpInterner::default();
    let z = ops.intern("tab:z");
    let a = ops.intern("tab:a");
    assert_ne!(z, a);
    assert_eq!(ops.intern("tab:z"), z);
    assert!(ops.has_room_for("tab:z") && ops.has_room_for("tab:new"));
    assert_eq!(ops.names(&vec![z, a]), vec!["tab:z", "tab:a"]);
    assert_eq!(ops.names(&vec![a, 99, z, a]), vec!["tab:a", "tab:z", "tab:a"]);
    assert_eq!(ops.remove("tab:z"), Some(z));
    assert_eq!(ops.remove("tab:z"), None);
    assert_eq!(ops.names(&vec![z, a]), vec!["tab:a"]);
    let again = ops.intern("tab:z");
    assert!(again > z && again > a, "an id is not given out twice");
}

#[test]
fn a_write_is_told_with_operation_names() {
    let mut ops = OpInterner::new();
    let id = ops.intern("tab:1");
    let told = js_write_result(write(vec![id, 77]), &ops);
    assert_eq!(
        value(&told.to_json()),
        parsed(
            r#"{"revision": "3", "revisionAdvanced": true,
                "changed": ["GraphqlSoupDocument:doc-1"], "affectedOps": ["tab:1"],
                "reset": false, "revalidations": [{"query": "q"}]}"#
        )
    );
    let told = JsHydrationWriteResult::from_engine(
        write(Vec::new()),
        Some(r#"{"x": -1.5}"#.to_owned()),
        &ops,
    );
    assert_eq!(value(&told.to_json())["data"], parsed(r#"{"x": -1.5}"#));
    let told = JsHydrationWriteResult::from_engine(write(Vec::new()), None, &ops);
    assert_eq!(value(&told.to_json())["data"], serde_json::Value::Null);
}

#[test]
fn reads_and_short_answers_are_tagged() {
    assert_eq!(
        value(&JsReadResult::Hit { data: r#"{"a": 1}"#.to_owned() }.to_json()),
        parsed(r#"{"kind": "hit", "data": {"a": 1}}"#)
    );
    assert_eq!(value(&JsReadResult::Miss.to_json()), parsed(r#"{"kind": "miss"}"#));
    assert_eq!(
        value(&JsRevisionResult::from_engine(u64::MAX).to_json()),
        parsed(r#"{"revision": "18446744073709551615"}"#)
    );
    let mut ops = OpInterner::new();
    let id = ops.intern("tab:1");
    assert_eq!(
        value(&JsAffectedOperationsResult::from_engine(4, &vec![id], &ops).to_json()),
        parsed(r#"{"revision": "4", "affectedOps": ["tab:1"]}"#)
    );
    assert_eq!(
        value(
            &JsRecordSelectionResult::from_engine(4, vec![r#"{"recordKey": "k"}"#.to_owned()])
                .to_json()
        ),
        parsed(r#"{"revision": "4", "records": [{"recordKey": "k"}]}"#)
    );
}

#[test]
fn diagnostics_tell_nothing_of_a_queue_that_cannot_be_observed() {
    let observed = QueueDiagnostics {
        available: true,
        depth: 2,
        oldest_created_at_ms: Some(-7),
    };
    assert_eq!(
        value(&JsQueueDiagnostics::from_engine(observed).to_json()),
        parsed(r#"{"availability": "available", "depth": "2", "oldestCreatedAtMs": "-7"}"#)
    );
    let empty = QueueDiagnostics { oldest_created_at_ms: None, depth: 0, ..observed };
    assert_eq!(
        value(&JsQueueDiagnostics::from_engine(empty).to_json()),
        parsed(r#"{"availability": "available", "depth": "0", "oldestCreatedAtMs": null}"#)
    );
    let hidden = QueueDiagnostics { available: false, ..observed };
    assert_eq!(
        value(&JsQueueDiagnostics::from_engine(hidden).to_json()),
        parsed(r#"{"availability": "unavailable", "depth": null, "oldestCreatedAtMs": null}"#)
    );
}

#[test]
fn ids_that_are_not_numbers_are_refused() {
    assert_eq!(parse_u64("12", "lease generation"), Ok(12));
    assert_eq!(
        parse_u64("x", "lease generation"),
        Err(CacheError::Failed("invalid lease generation `x`".to_owned()))
    );
    assert_eq!(
        parse_transaction_id("not-a-number"),
        Err(CacheError::Failed("invalid optimistic transaction id `not-a-number`".to_owned()))
    );
    let (transaction, token) = parse_claim("7", "runner".to_owned(), "9").unwrap();
    assert_eq!((transaction, token.owner.as_str(), token.generation), (7, "runner", 9));
    assert_eq!(
        parse_claim("a", "runner".to_owned(), "b"),
        Err(CacheError::Failed("invalid optimistic transaction id `a`".to_owned()))
    );
    assert_eq!(
        parse_claim("1", "runner".to_owned(), "b"),
        Err(CacheError::Failed("invalid lease generation `b`".to_owned()))
    );
}

fn claimed(variables: &str) -> ClaimedMutation {
    ClaimedMutation {
        id: 5,
        uuid: "u".to_owned(),
        superseded: false,
        lease_generation: 2,
        query: "mutation".to_owned(),
        operation_name: None,
        variables_json: variables.to_owned(),
        identity: Some("user-1".to_owned()),
        attempt_count: 1,
    }
}

#[test]
fn a_claimed_mutation_is_handed_over_with_its_variables() {
    let told = JsClaimedMutation::from_engine(claimed(r#"{"n": 1.5}"#)).unwrap();
    assert_eq!(
        value(&told.to_json()),
        parsed(
            r#"{"transactionId": "5", "uuid": "u", "superseded": false, "leaseGeneration": "2",
                "query": "mutation", "operationName": null, "variables": {"n": 1.5},
                "identity": "user-1", "attemptCount": 1}"#
        )
    );
    assert!(matches!(
        JsClaimedMutation::from_engine(claimed("{")),
        Err(CacheError::Failed(_))
    ));
}

fn enqueued(initial_claim: InitialClaim) -> EngineEnqueue {
    EngineEnqueue {
        transaction_id: 5,
        upsert_kind: MutationUpsertKind::ReplacedPending { removed_id: 4 },
        write: write(Vec::new()),
        initial_claim,
    }
}

#[test]
fn a_failed_claim_is_a_diagnostic_unless_storage_needs_a_reset() {
    let ops = OpInterner::new();
    let mut state = state();
    let told = state
        .enqueue_result(enqueued(InitialClaim::Claimed(claimed("{}"))), &ops)
        .unwrap();
    let json = value(&told.to_json());
    assert_eq!(json["transactionId"], "5");
    assert_eq!(json["upsertKind"], parsed(r#"{"kind": "replaced-pending", "removedTransactionId": "4"}"#));
    assert_eq!(json["initialClaim"]["kind"], "claimed");
    assert_eq!(json["initialClaim"]["mutation"]["leaseGeneration"], "2");
    assert_eq!(json["revision"], "3");

    let told = state.enqueue_result(enqueued(InitialClaim::NotRunnable), &ops).unwrap();
    assert_eq!(value(&told.to_json())["initialClaim"], parsed(r#"{"kind": "not-runnable"}"#));

    let failed = InitialClaim::Failed(EngineError::Other("busy".to_owned()));
    let told = state.enqueue_result(enqueued(failed), &ops).unwrap();
    assert_eq!(
        told.initial_claim,
        JsInitialMutationClaim::Failed { error: "busy".to_owned() }
    );
    assert!(!state.reset_required);

    let error = state
        .enqueue_result(enqueued(InitialClaim::Failed(needs_reset())), &ops)
        .unwrap_err();
    assert_eq!(error, CacheError::ResetRequired);
    assert!(state.reset_required);
}

#[test]
fn settled_mutations_are_told_by_kind() {
    let ops = OpInterner::new();
    let superseded =
        || Superseded { replacement_transaction_id: 9, write: write(Vec::new()) };
    let kind = |json: &Json| value(json)["kind"].as_str().unwrap().to_owned();
    let told = JsDeferOptimisticWriteResult::from_engine(DeferOptimisticWriteResult::Deferred, &ops);
    assert_eq!(value(&told.to_json()), parsed(r#"{"kind": "deferred"}"#));
    let told = JsDeferOptimisticWriteResult::from_engine(
        DeferOptimisticWriteResult::DiscardedSuperseded(superseded()),
        &ops,
    );
    assert_eq!(kind(&told.to_json()), "discarded-superseded");
    assert_eq!(value(&told.to_json())["replacementTransactionId"], "9");
    let told = JsCommitOptimisticWriteResult::from_engine(
        CommitOptimisticWriteResult::Committed(write(Vec::new())),
        &ops,
    );
    assert_eq!(kind(&told.to_json()), "committed");
    assert_eq!(value(&told.to_json())["changed"][0], "GraphqlSoupDocument:doc-1");
    let told = JsCommitOptimisticWriteResult::from_engine(
        CommitOptimisticWriteResult::CommittedSuperseded(superseded()),
        &ops,
    );
    assert_eq!(kind(&told.to_json()), "committed-superseded");
    let told = JsRollbackOptimisticWriteResult::from_engine(
        RollbackOptimisticWriteResult::RolledBack(write(Vec::new())),
        &ops,
    );
    assert_eq!(kind(&told.to_json()), "rolled-back");
    let told = JsRollbackOptimisticWriteResult::from_engine(
        RollbackOptimisticWriteResult::DiscardedSuperseded(superseded()),
        &ops,
    );
    assert_eq!(kind(&told.to_json()), "discarded-superseded");
}

#[test]
fn a_storage_that_needs_a_reset_latches_the_cache() {
    let mut state = state();
    assert_eq!(state.engine_result(Ok::<u8, EngineError>(7)), Ok(7));
    assert_eq!(
        state.engine_result(Err::<u8, EngineError>(EngineError::Other("bad".to_owned()))),
        Err(CacheError::Failed("bad".to_owned()))
    );
    assert_eq!(state.ensure_callable(), Ok(()));
    assert_eq!(
        state.engine_result(Err::<u8, EngineError>(needs_reset())),
        Err(CacheError::ResetRequired)
    );
    assert_eq!(state.ensure_callable(), Err(CacheError::ResetRequired));
    assert_eq!(state.engine_mut().unwrap_err(), CacheError::ResetRequired);
    assert!(CacheError::ResetRequired.is_marked());
    assert_eq!(CacheError::ResetRequired.message(), "cache storage reset required");
    assert_eq!(RESET_REQUIRED_MARKER, "cacheStorageResetRequired");

    let engine = state.take_engine().unwrap();
    assert_eq!(engine, "engine");
    assert_eq!(state.finish_restart(Ok(("fresh", "g2".to_owned()))), Ok(()));
    assert_eq!(state.ensure_callable(), Ok(()));
    assert_eq!(*state.engine_mut().unwrap(), "fresh");
    assert_eq!(state.mail_generation, "g2");
}

#[test]
fn a_closed_cache_refuses_everything() {
    let mut state = state();
    state.take_engine().unwrap();
    assert_eq!(state.finish_close(Ok(())), Ok(()));
    assert_eq!(state.ensure_callable(), Err(CacheError::Closed));
    assert_eq!(state.take_engine(), Err(CacheError::Closed));
    assert_eq!(CacheError::Closed.message(), "cache engine is closed");
    assert!(!CacheError::Closed.is_marked());
}

#[test]
fn a_cache_that_lost_its_storage_needs_a_new_worker() {
    let mut state = state();
    state.take_engine().unwrap();
    let lost = CacheError::Failed("gone".to_owned());
    assert!(state.finish_restart(Err(lost)).is_err());
    assert_eq!(state.ensure_callable(), Err(CacheError::ResetRequired));
    let error = state.take_engine().unwrap_err();
    assert_eq!(error.message(), "cache engine requires worker replacement");
}

#[test]
fn zero_hot_capacity_is_refused() {
    assert_eq!(validate_hot_capacity(None), Ok(()));
    assert_eq!(validate_hot_capacity(Some(1)), Ok(()));
    assert_eq!(
        validate_hot_capacity(Some(0)).unwrap_err().message(),
        "hot capacity must be greater than zero"
    );
}

#[test]
fn outcomes_have_names_and_reasons() {
    for (outcome, label) in [
        (CacheOpenOutcome::OpenedExisting, "opened-existing"),
        (CacheOpenOutcome::OpenedNew, "opened-new"),
        (CacheOpenOutcome::ResetIncompatible, "reset-incompatible"),
        (CacheOpenOutcome::ResetCorrupt, "reset-corrupt"),
        (CacheOpenOutcome::ResetStorageUncertain, "reset-storage-uncertain"),
    ] {
        assert_eq!(outcome.as_str(), label);
    }
    for (reason, outcome) in [
        (ResetReason::Compatibility, CacheOpenOutcome::ResetIncompatible),
        (ResetReason::Corruption, CacheOpenOutcome::ResetCorrupt),
        (ResetReason::Codec, CacheOpenOutcome::ResetCorrupt),
        (ResetReason::Invariant, CacheOpenOutcome::ResetCorrupt),
        (ResetReason::Integrity, CacheOpenOutcome::ResetCorrupt),
        (ResetReason::StorageFull, CacheOpenOutcome::ResetStorageUncertain),
        (ResetReason::TransactionOutcomeUncertain, CacheOpenOutcome::ResetStorageUncertain),
        (ResetReason::Io, CacheOpenOutcome::ResetStorageUncertain),
    ] {
        assert_eq!(recovery_outcome(reason), outcome);
    }
}

/// Answers each action with the next event of a script, and tells which
/// actions were taken.
fn drive(
    begun: (StorageTask, StorageAction),
    script: Vec<StorageEvent>,
) -> (StorageAction, Vec<StorageAction>) {
    let (mut task, mut action) = begun;
    let mut taken = Vec::new();
    for event in script {
        assert!(task.phase.expects(&event), "{task:?} does not expect {event:?}");
        taken.push(action);
        (task, action) = task.step(event);
    }
    (action, taken)
}

fn rejected(reset: Option<ResetReason>) -> StorageEvent {
    StorageEvent::Rejected(StorageError { message: "bad".to_owned(), reset })
}

#[test]
fn a_stored_cache_is_opened_as_it_is() {
    let (end, taken) = drive(
        StorageTask::open(false),
        vec![
            StorageEvent::Done,
            StorageEvent::Ready,
            StorageEvent::Done,
            StorageEvent::Initialized(StorageOpenOutcome::OpenedExisting),
        ],
    );
    assert_eq!(end, StorageAction::Opened(CacheOpenOutcome::OpenedExisting));
    assert_eq!(
        taken,
        vec![
            StorageAction::Acquire,
            StorageAction::Open,
            StorageAction::Connect,
            StorageAction::Initialize,
        ]
    );
}

#[test]
fn an_incompatible_cache_is_reset_and_opened_once_more() {
    let (end, taken) = drive(
        StorageTask::open(false),
        vec![
            StorageEvent::Done,
            StorageEvent::Ready,
            StorageEvent::Done,
            rejected(Some(ResetReason::Compatibility)),
            StorageEvent::Done,
            StorageEvent::Ready,
            StorageEvent::Done,
            StorageEvent::Initialized(StorageOpenOutcome::OpenedNew),
        ],
    );
    assert_eq!(end, StorageAction::Opened(CacheOpenOutcome::ResetIncompatible));
    assert_eq!(taken[4], StorageAction::Reset);
}

#[test]
fn a_second_refusal_is_reported_after_the_lock_is_released() {
    let first = || {
        vec![
            StorageEvent::Done,
            StorageEvent::NeedsReset,
            StorageEvent::Done,
            StorageEvent::Ready,
            StorageEvent::Done,
        ]
    };
    let mut script = first();
    script.extend([rejected(Some(ResetReason::Io)), StorageEvent::Done, StorageEvent::Done]);
    let (end, taken) = drive(StorageTask::open(false), script);
    assert_eq!(end, StorageAction::Fail(CacheError::ResetRequired));
    assert_eq!(taken.last(), Some(&StorageAction::Release));

    let mut script = first();
    script.extend([rejected(None), StorageEvent::Done, StorageEvent::Done]);
    let (end, _) = drive(StorageTask::open(false), script);
    assert_eq!(
        end,
        StorageAction::Fail(CacheError::Failed("cache storage initialization failed".to_owned()))
    );

    let (end, _) = drive(
        StorageTask::open(false),
        vec![
            StorageEvent::Done,
            StorageEvent::NeedsReset,
            StorageEvent::Done,
            StorageEvent::NeedsReset,
            StorageEvent::Done,
            StorageEvent::Done,
        ],
    );
    assert_eq!(end, StorageAction::Fail(CacheError::ResetRequired));
}

#[test]
fn a_refusal_no_reset_repairs_keeps_what_is_stored() {
    let (end, taken) = drive(
        StorageTask::open(false),
        vec![
            StorageEvent::Done,
            StorageEvent::Ready,
            StorageEvent::Done,
            rejected(None),
            StorageEvent::Done,
            StorageEvent::Done,
        ],
    );
    assert_eq!(end, StorageAction::Fail(CacheError::Failed("bad".to_owned())));
    assert_eq!(taken[4..], [StorageAction::Preserve, StorageAction::Release]);
}

#[test]
fn a_lock_that_is_still_held_is_released_before_failing() {
    let failed = |owner_left: bool| StorageEvent::OpenFailed {
        message: "no handle".to_owned(),
        owner_left,
    };
    let (end, taken) = drive(
        StorageTask::open(false),
        vec![StorageEvent::Done, failed(true), StorageEvent::Done],
    );
    assert_eq!(end, StorageAction::Fail(CacheError::Failed("no handle".to_owned())));
    assert_eq!(taken.last(), Some(&StorageAction::Release));
    let (end, _) = drive(StorageTask::open(false), vec![StorageEvent::Done, failed(false)]);
    assert_eq!(end, StorageAction::Fail(CacheError::Failed("no handle".to_owned())));
    let (end, _) =
        drive(StorageTask::open(false), vec![StorageEvent::Failed("held".to_owned())]);
    assert_eq!(end, StorageAction::Fail(CacheError::Failed("held".to_owned())));
}

#[test]
fn a_recovery_open_wipes_before_it_opens() {
    let (end, taken) = drive(
        StorageTask::open(true),
        vec![
            StorageEvent::Done,
            StorageEvent::Done,
            StorageEvent::Ready,
            StorageEvent::Done,
            StorageEvent::Initialized(StorageOpenOutcome::OpenedNew),
        ],
    );
    assert_eq!(end, StorageAction::Opened(CacheOpenOutcome::ResetStorageUncertain));
    assert_eq!(taken[1], StorageAction::Wipe);
    let (end, taken) = drive(
        StorageTask::destroy(),
        vec![StorageEvent::Done, StorageEvent::Done, StorageEvent::Done],
    );
    assert_eq!(end, StorageAction::Complete);
    assert_eq!(
        taken,
        vec![StorageAction::Acquire, StorageAction::Wipe, StorageAction::Release]
    );
}

#[test]
fn closing_keeps_a_healthy_cache_and_resets_a_latched_one() {
    let (end, taken) = drive(
        StorageTask::close(false),
        vec![StorageEvent::Healthy, StorageEvent::Done, StorageEvent::Done],
    );
    assert_eq!(end, StorageAction::Complete);
    assert_eq!(taken[1], StorageAction::Preserve);
    for (latched, event) in [(true, StorageEvent::Healthy), (false, StorageEvent::NeedsReset)] {
        let (end, taken) = drive(
            StorageTask::close(latched),
            vec![event, StorageEvent::Done, StorageEvent::Done],
        );
        assert_eq!(end, StorageAction::Complete);
        assert_eq!(taken[1], StorageAction::Reset);
    }
}

#[test]
fn a_restart_resets_and_opens_under_the_same_lock() {
    let (end, taken) = drive(
        StorageTask::restart(),
        vec![
            StorageEvent::Healthy,
            StorageEvent::Done,
            StorageEvent::Ready,
            StorageEvent::Done,
            StorageEvent::Initialized(StorageOpenOutcome::OpenedNew),
        ],
    );
    assert_eq!(end, StorageAction::Opened(CacheOpenOutcome::OpenedNew));
    assert!(!taken.contains(&StorageAction::Release));
    assert!(!taken.contains(&StorageAction::Acquire));
    assert_eq!(taken[1], StorageAction::Reset);
}

#[test]
fn a_test_hook_damages_a_healthy_storage_only() {
    let message = |end: StorageAction| match end {
        StorageAction::Fail(error) => error.message(),
        other => panic!("expected a failure: {other:?}"),
    };
    let (end, taken) = drive(
        StorageTask::disturb(),
        vec![
            StorageEvent::Done,
            StorageEvent::Ready,
            StorageEvent::Done,
            StorageEvent::Initialized(StorageOpenOutcome::OpenedExisting),
            StorageEvent::Done,
            StorageEvent::Healthy,
            StorageEvent::Done,
            StorageEvent::Done,
        ],
    );
    assert_eq!(end, StorageAction::Complete);
    assert_eq!(taken[4], StorageAction::Mutate);
    let (end, _) = drive(
        StorageTask::disturb(),
        vec![StorageEvent::Done, StorageEvent::NeedsReset, StorageEvent::Done, StorageEvent::Done],
    );
    assert_eq!(message(end), "browser-test storage was already reset-required");
    let (end, _) = drive(
        StorageTask::disturb(),
        vec![
            StorageEvent::Done,
            StorageEvent::Ready,
            StorageEvent::Done,
            rejected(None),
            StorageEvent::Done,
            StorageEvent::Done,
        ],
    );
    assert_eq!(message(end), "browser-test storage validation failed");
    let (end, _) = drive(
        StorageTask::disturb(),
        vec![
            StorageEvent::Done,
            StorageEvent::Ready,
            StorageEvent::Done,
            StorageEvent::Initialized(StorageOpenOutcome::OpenedExisting),
            StorageEvent::Done,
            StorageEvent::NeedsReset,
            StorageEvent::Done,
            StorageEvent::Done,
        ],
    );
    assert_eq!(message(end), "browser-test mutation unexpectedly required reset");
}

#[test]
fn another_identity_reads_nothing_stored() {
    let user = |id: &str| Some(id.to_owned());
    assert!(can_reuse_stored_identity(&None, &user("a")));
    assert!(can_reuse_stored_identity(&user("a"), &None));
    assert!(can_reuse_stored_identity(&user("a"), &user("a")));
    assert!(!can_reuse_stored_identity(&user("a"), &user("b")));

    let mut state = state();
    let (writing, action) = Writing::<u8>::start(user("b"));
    assert_eq!(action, WriteAction::Project);
    let (writing, action) = writing.step(&mut state, WriteEvent::Projected(vec![1]));
    assert_eq!(action, WriteAction::AskIdentity);
    let (writing, action) = writing.step(&mut state, WriteEvent::Bound(user("a")));
    assert_eq!(action, WriteAction::ProjectMail { reuse_stored_identity: false });
    let (_, action) = writing.step(&mut state, WriteEvent::Projected(vec![9]));
    assert_eq!(action, WriteAction::Store { projections: vec![1, 9] });
}

#[test]
fn a_write_stores_everything_gathered_in_order() {
    let mut state = state();
    let (writing, _) = Writing::<u8>::start(None);
    let (writing, action) = writing.step(&mut state, WriteEvent::Projected(vec![1, 2]));
    assert_eq!(action, WriteAction::ProjectNotifications);
    let (writing, action) = writing.step(&mut state, WriteEvent::Projected(vec![3]));
    assert_eq!(action, WriteAction::ProjectMail { reuse_stored_identity: true });
    let (writing, action) = writing.step(&mut state, WriteEvent::Projected(vec![4]));
    assert_eq!(action, WriteAction::Store { projections: vec![1, 2, 3, 4] });
    assert!(!writing.expects(&WriteEvent::Projected(vec![])));
}

#[test]
fn a_write_that_cannot_be_projected_stores_nothing() {
    let mut state = state();
    let (writing, _) = Writing::<u8>::start(Some("a".to_owned()));
    let message = "SoupBackfill page contains an incomplete required cache projection";
    let (_, action) = writing.step(&mut state, WriteEvent::Unprojected(message.to_owned()));
    assert_eq!(action, WriteAction::Fail(CacheError::Failed(message.to_owned())));
    assert!(!state.reset_required);

    let (writing, _) = Writing::<u8>::start(Some("a".to_owned()));
    let (writing, _) = writing.step(&mut state, WriteEvent::Projected(Vec::new()));
    let (_, action) = writing.step(&mut state, WriteEvent::EngineFailed(needs_reset()));
    assert_eq!(action, WriteAction::Fail(CacheError::ResetRequired));
    assert!(state.reset_required);
}

#[test]
fn filters_are_answered_from_the_index() {
    let mut state = state();
    let supported = || FilterEvent::Compiled { supported: true };
    let (filtering, action) = Filtering::start(false, None, 10);
    assert_eq!(action, FilterAction::Compile);
    let (_, action) = filtering.step(&mut state, FilterEvent::Compiled { supported: false });
    let FilterAction::Answer(answer) = action else { panic!("{action:?}") };
    assert_eq!(value(&answer.to_json()), parsed(r#"{"kind": "unsupported"}"#));

    let query = |state: &mut CacheState<&'static str>, result: PredicateQueryResult| {
        let (filtering, _) = Filtering::start(false, None, 10);
        let (filtering, action) = filtering.step(state, supported());
        assert_eq!(action, FilterAction::Query);
        let (_, action) = filtering.step(state, FilterEvent::Queried { revision: 8, result });
        let FilterAction::Answer(answer) = action else { panic!("{action:?}") };
        value(&answer.to_json())
    };
    let keys = || vec!["k1".to_owned()];
    assert_eq!(
        query(&mut state, PredicateQueryResult::Complete(keys())),
        parsed(r#"{"kind": "complete", "revision": "8", "keys": ["k1"], "optimistic": false}"#)
    );
    assert_eq!(
        query(&mut state, PredicateQueryResult::Optimistic(keys())),
        parsed(r#"{"kind": "complete", "revision": "8", "keys": ["k1"], "optimistic": true}"#)
    );
    assert_eq!(
        query(&mut state, PredicateQueryResult::Incomplete),
        parsed(r#"{"kind": "incomplete", "revision": "8"}"#)
    );
}

#[test]
fn a_pages_own_list_is_reconciled_when_it_is_not_too_long() {
    let mut state = state();
    let supported = || FilterEvent::Compiled { supported: true };
    let (filtering, _) = Filtering::start(false, Some(11), 10);
    let (_, action) = filtering.step(&mut state, supported());
    assert_eq!(
        action,
        FilterAction::Fail(CacheError::Failed("reconciliation baseline is too large".to_owned()))
    );
    let (filtering, _) = Filtering::start(false, Some(10), 10);
    let (filtering, action) = filtering.step(&mut state, supported());
    assert_eq!(action, FilterAction::ReadBaseline);
    let (filtering, action) = filtering.step(&mut state, FilterEvent::BaselineRead);
    assert_eq!(action, FilterAction::Reconcile);
    let (_, action) = filtering.step(
        &mut state,
        FilterEvent::Reconciled {
            revision: 8,
            reconciliation: Reconciliation {
                keys: vec!["k1".to_owned()],
                retained_keys: vec!["k2".to_owned()],
                optimistic: true,
            },
        },
    );
    let FilterAction::Answer(answer) = action else { panic!("{action:?}") };
    assert!(matches!(answer, JsEntityFilterResult::Reconciled { .. }));
    assert_eq!(
        value(&answer.to_json()),
        parsed(
            r#"{"kind": "reconciled", "revision": "8", "keys": ["k1"], "retainedKeys": ["k2"],
                "optimistic": true}"#
        )
    );
}

#[test]
fn mail_page_errors_latch_only_for_the_storage() {
    let mut state = state();
    // Validation errors must not poison a healthy cache.
    let (filtering, action) = Filtering::start(true, None, 10);
    assert_eq!(action, FilterAction::Page);
    let invalid = FilterEvent::EngineFailed(EngineError::Other("invalid limit".to_owned()));
    let (_, action) = filtering.step(&mut state, invalid);
    let FilterAction::Fail(error) = action else { panic!("{action:?}") };
    assert!(!error.is_marked());
    assert!(!state.reset_required);

    // A storage that needs a reset latches, whichever read finds out.
    let (filtering, _) = Filtering::start(true, None, 10);
    let (_, action) = filtering.step(&mut state, FilterEvent::EngineFailed(needs_reset()));
    assert_eq!(action, FilterAction::Fail(CacheError::ResetRequired));
    assert_eq!(state.ensure_callable(), Err(CacheError::ResetRequired));

    state.take_engine().unwrap();
    state.finish_restart(Ok(("fresh", "g2".to_owned()))).unwrap();
    let (filtering, _) = Filtering::start(true, None, 10);
    let (_, action) = filtering.step(&mut state, FilterEvent::Paged("{}".to_owned()));
    assert_eq!(action, FilterAction::AnswerPage { page: "{}".to_owned() });
}

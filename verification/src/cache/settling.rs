//! Queueing optimistic mutations and settling them.

use crate::cache::answers::{
    claim_json, claim_told, js_write_result, tagged, upsert_json, upsert_told, write_members,
    write_told, ClaimToldView, ClaimedMutation, ClaimedView, EngineWrite, EngineWriteView,
    JsClaimedMutation, JsMutationUpsertKind, JsWriteResult, MutationUpsertKind, UpsertView,
    WriteResultView,
};
use crate::cache::interner::OpInterner;
use crate::cache::state::{
    after_failure, engine_error_message, needs_reset, CacheError, CacheErrorView, CacheState,
    EngineError, EngineErrorView,
};
use crate::decimal::{decimal, decimal_text};
use crate::json::{members_view, no_members, object, push_member, string, Json, JsonView, Member};
use crate::text::Text;
use vstd::prelude::*;

verus! {

/// What came of claiming the queue's head right after queueing.
#[derive(Debug, PartialEq, Eq)]
pub enum InitialClaim {
    /// The head was leased.
    Claimed(ClaimedMutation),
    /// The head cannot run now.
    NotRunnable,
    /// The claim failed; the mutation is queued all the same.
    Failed(EngineError),
}

/// What the engine reports of a queued mutation.
#[derive(Debug, PartialEq, Eq)]
pub struct EngineEnqueue {
    /// The transaction's id.
    pub transaction_id: u64,
    /// What queueing did to the queue.
    pub upsert_kind: MutationUpsertKind,
    /// What the optimistic response did to the cache.
    pub write: EngineWrite,
    /// What came of claiming the head.
    pub initial_claim: InitialClaim,
}

/// What the page is told of the claim.
#[derive(Debug, PartialEq, Eq)]
pub enum JsInitialMutationClaim {
    /// The head was leased.
    Claimed {
        /// The leased mutation.
        mutation: JsClaimedMutation,
    },
    /// The head cannot run now.
    NotRunnable,
    /// The claim failed.
    Failed {
        /// What went wrong.
        error: String,
    },
}

/// What the page is told of a queued mutation.
#[derive(Debug, PartialEq, Eq)]
pub struct JsEnqueueOptimisticMutationResult {
    /// The transaction's id.
    pub transaction_id: String,
    /// What queueing did to the queue.
    pub upsert_kind: JsMutationUpsertKind,
    /// What the optimistic response did to the cache.
    pub write: JsWriteResult,
    /// What came of claiming the head.
    pub initial_claim: JsInitialMutationClaim,
}

/// The mathematical model of [`InitialClaim`].
pub enum InitialClaimView {
    Claimed(ClaimedView),
    NotRunnable,
    Failed(EngineErrorView),
}

/// The mathematical model of [`EngineEnqueue`].
pub struct EnqueueView {
    pub transaction_id: u64,
    pub upsert_kind: MutationUpsertKind,
    pub write: EngineWriteView,
    pub initial_claim: InitialClaimView,
}

/// The mathematical model of [`JsInitialMutationClaim`].
pub enum InitialClaimToldView {
    Claimed { mutation: ClaimToldView },
    NotRunnable,
    Failed { error: Text },
}

/// The mathematical model of [`JsEnqueueOptimisticMutationResult`].
pub struct EnqueueToldView {
    pub transaction_id: Text,
    pub upsert_kind: UpsertView,
    pub write: WriteResultView,
    pub initial_claim: InitialClaimToldView,
}

impl DeepView for InitialClaim {
    type V = InitialClaimView;

    open spec fn deep_view(&self) -> InitialClaimView {
        match self {
            InitialClaim::Claimed(claimed) => InitialClaimView::Claimed(claimed.deep_view()),
            InitialClaim::NotRunnable => InitialClaimView::NotRunnable,
            InitialClaim::Failed(error) => InitialClaimView::Failed(error.deep_view()),
        }
    }
}

impl DeepView for EngineEnqueue {
    type V = EnqueueView;

    open spec fn deep_view(&self) -> EnqueueView {
        EnqueueView {
            transaction_id: self.transaction_id,
            upsert_kind: self.upsert_kind,
            write: self.write.deep_view(),
            initial_claim: self.initial_claim.deep_view(),
        }
    }
}

impl DeepView for JsInitialMutationClaim {
    type V = InitialClaimToldView;

    open spec fn deep_view(&self) -> InitialClaimToldView {
        match self {
            JsInitialMutationClaim::Claimed { mutation } => InitialClaimToldView::Claimed {
                mutation: mutation.deep_view(),
            },
            JsInitialMutationClaim::NotRunnable => InitialClaimToldView::NotRunnable,
            JsInitialMutationClaim::Failed { error } => InitialClaimToldView::Failed {
                error: error@,
            },
        }
    }
}

impl DeepView for JsEnqueueOptimisticMutationResult {
    type V = EnqueueToldView;

    open spec fn deep_view(&self) -> EnqueueToldView {
        EnqueueToldView {
            transaction_id: self.transaction_id@,
            upsert_kind: self.upsert_kind.deep_view(),
            write: self.write.deep_view(),
            initial_claim: self.initial_claim.deep_view(),
        }
    }
}

/// What the page is told of the claim. A failed claim is a diagnostic, since
/// queueing succeeded, unless the storage needs a reset.
pub open spec fn initial_claim_told(claim: InitialClaimView) -> Result<
    InitialClaimToldView,
    CacheErrorView,
> {
    match claim {
        InitialClaimView::Claimed(claimed) => match claim_told(claimed) {
            Ok(mutation) => Ok(InitialClaimToldView::Claimed { mutation }),
            Err(error) => Err(error),
        },
        InitialClaimView::NotRunnable => Ok(InitialClaimToldView::NotRunnable),
        InitialClaimView::Failed(error) => if needs_reset(error) {
            Err(CacheErrorView::ResetRequired)
        } else {
            Ok(InitialClaimToldView::Failed { error: engine_error_message(error) })
        },
    }
}

/// What the page is told of a queued mutation.
pub open spec fn enqueue_told(enqueued: EnqueueView, ids: Map<Text, u64>) -> Result<
    EnqueueToldView,
    CacheErrorView,
> {
    match initial_claim_told(enqueued.initial_claim) {
        Ok(initial_claim) => Ok(
            EnqueueToldView {
                transaction_id: decimal_text(enqueued.transaction_id as nat),
                upsert_kind: upsert_told(enqueued.upsert_kind),
                write: write_told(enqueued.write, ids),
                initial_claim,
            },
        ),
        Err(error) => Err(error),
    }
}

/// The state after a mutation was queued: latched when claiming the head found
/// a storage that needs a reset.
pub open spec fn after_enqueue<E>(
    state: CacheState<E>,
    claim: InitialClaimView,
) -> CacheState<E> {
    match claim {
        InitialClaimView::Failed(error) => after_failure(state, error),
        _ => state,
    }
}

/// The JSON of what the page is told of the claim.
pub open spec fn initial_claim_json(claim: InitialClaimToldView) -> JsonView {
    JsonView::Object(
        match claim {
            InitialClaimToldView::Claimed { mutation } => seq![
                ("kind"@, JsonView::Text("claimed"@)),
                ("mutation"@, claim_json(mutation)),
            ],
            InitialClaimToldView::NotRunnable => seq![("kind"@, JsonView::Text("not-runnable"@))],
            InitialClaimToldView::Failed { error } => seq![
                ("kind"@, JsonView::Text("failed"@)),
                ("error"@, JsonView::Text(error)),
            ],
        },
    )
}

/// The JSON of what the page is told of a queued mutation.
pub open spec fn enqueue_json(told: EnqueueToldView) -> JsonView {
    JsonView::Object(
        (seq![
            ("transactionId"@, JsonView::Text(told.transaction_id)),
            ("upsertKind"@, upsert_json(told.upsert_kind)),
        ] + write_members(told.write)).push(
            ("initialClaim"@, initial_claim_json(told.initial_claim)),
        ),
    )
}

impl JsInitialMutationClaim {
    /// The answer's JSON.
    pub fn to_json(&self) -> (json: Json)
        ensures
            json@ == initial_claim_json(self.deep_view()),
    {
        match self {
            JsInitialMutationClaim::Claimed { mutation } => {
                let mut members = tagged("claimed");
                push_member(&mut members, "mutation", mutation.to_json());
                assert(members_view(members@) =~= seq![
                    ("kind"@, JsonView::Text("claimed"@)),
                    ("mutation"@, claim_json(mutation.deep_view())),
                ]);
                object(members)
            },
            JsInitialMutationClaim::NotRunnable => object(tagged("not-runnable")),
            JsInitialMutationClaim::Failed { error } => {
                let mut members = tagged("failed");
                push_member(&mut members, "error", string(error.as_str()));
                assert(members_view(members@) =~= seq![
                    ("kind"@, JsonView::Text("failed"@)),
                    ("error"@, JsonView::Text(error@)),
                ]);
                object(members)
            },
        }
    }
}

impl JsEnqueueOptimisticMutationResult {
    /// The answer's JSON.
    pub fn to_json(&self) -> (json: Json)
        ensures
            json@ == enqueue_json(self.deep_view()),
    {
        let mut members: Vec<Member> = no_members();
        push_member(&mut members, "transactionId", string(self.transaction_id.as_str()));
        push_member(&mut members, "upsertKind", self.upsert_kind.to_json());
        self.write.push_members(&mut members);
        push_member(&mut members, "initialClaim", self.initial_claim.to_json());
        assert(members_view(members@) =~= enqueue_json(self.deep_view())->Object_0);
        object(members)
    }
}

impl<E> CacheState<E> {
    /// Tell the page of a queued mutation. The mutation is queued whatever
    /// came of the claim, so only a claim that cannot be told, or a storage
    /// that needs a reset, is an error.
    pub fn enqueue_result(&mut self, enqueued: EngineEnqueue, ops: &OpInterner) -> (told: Result<
        JsEnqueueOptimisticMutationResult,
        CacheError,
    >)
        requires
            ops.wf(),
        ensures
            *final(self) == after_enqueue(*old(self), enqueued.initial_claim.deep_view()),
            told is Ok == enqueue_told(enqueued.deep_view(), ops.ids()) is Ok,
            told matches Ok(told) ==> enqueue_told(enqueued.deep_view(), ops.ids())->Ok_0
                == told.deep_view(),
            told matches Err(error) ==> enqueue_told(enqueued.deep_view(), ops.ids())->Err_0
                == error.deep_view(),
    {
        let initial_claim = match enqueued.initial_claim {
            InitialClaim::Claimed(claimed) => match JsClaimedMutation::from_engine(claimed) {
                Ok(mutation) => JsInitialMutationClaim::Claimed { mutation },
                Err(error) => return Err(error),
            },
            InitialClaim::NotRunnable => JsInitialMutationClaim::NotRunnable,
            InitialClaim::Failed(error) => {
                if error.requires_reset() {
                    return Err(self.engine_error(error));
                }
                JsInitialMutationClaim::Failed { error: error.message() }
            },
        };
        Ok(
            JsEnqueueOptimisticMutationResult {
                transaction_id: decimal(enqueued.transaction_id),
                upsert_kind: JsMutationUpsertKind::from_engine(enqueued.upsert_kind),
                write: js_write_result(enqueued.write, ops),
                initial_claim,
            },
        )
    }
}

/// A settled mutation that a later one had replaced.
#[derive(Debug, PartialEq, Eq)]
pub struct Superseded {
    /// The one that replaced it.
    pub replacement_transaction_id: u64,
    /// What settling did to the cache.
    pub write: EngineWrite,
}

/// A settled mutation as the page is told of it.
#[derive(Debug, PartialEq, Eq)]
pub struct JsSuperseded {
    /// The one that replaced it.
    pub replacement_transaction_id: String,
    /// What settling did to the cache.
    pub result: JsWriteResult,
}

/// The mathematical model of [`Superseded`].
pub struct SupersededView {
    pub replacement_transaction_id: u64,
    pub write: EngineWriteView,
}

/// The mathematical model of [`JsSuperseded`].
pub struct SupersededToldView {
    pub replacement_transaction_id: Text,
    pub result: WriteResultView,
}

impl DeepView for Superseded {
    type V = SupersededView;

    open spec fn deep_view(&self) -> SupersededView {
        SupersededView {
            replacement_transaction_id: self.replacement_transaction_id,
            write: self.write.deep_view(),
        }
    }
}

impl DeepView for JsSuperseded {
    type V = SupersededToldView;

    open spec fn deep_view(&self) -> SupersededToldView {
        SupersededToldView {
            replacement_transaction_id: self.replacement_transaction_id@,
            result: self.result.deep_view(),
        }
    }
}

/// What the page is told of a replaced mutation.
pub open spec fn superseded_told(
    superseded: SupersededView,
    ids: Map<Text, u64>,
) -> SupersededToldView {
    SupersededToldView {
        replacement_transaction_id: decimal_text(superseded.replacement_transaction_id as nat),
        result: write_told(superseded.write, ids),
    }
}

/// The JSON of an answer that names a replacement.
pub open spec fn superseded_json(kind: Text, told: SupersededToldView) -> JsonView {
    JsonView::Object(
        seq![
            ("kind"@, JsonView::Text(kind)),
            ("replacementTransactionId"@, JsonView::Text(told.replacement_transaction_id)),
        ] + write_members(told.result),
    )
}

/// The JSON of an answer that tells of a write.
pub open spec fn settled_json(kind: Text, told: WriteResultView) -> JsonView {
    JsonView::Object(seq![("kind"@, JsonView::Text(kind))] + write_members(told))
}

impl JsSuperseded {
    fn from_engine(superseded: Superseded, ops: &OpInterner) -> (told: JsSuperseded)
        requires
            ops.wf(),
        ensures
            told.deep_view() == superseded_told(superseded.deep_view(), ops.ids()),
    {
        JsSuperseded {
            replacement_transaction_id: decimal(superseded.replacement_transaction_id),
            result: js_write_result(superseded.write, ops),
        }
    }

    fn to_json_as(&self, kind: &str) -> (json: Json)
        ensures
            json@ == superseded_json(kind@, self.deep_view()),
    {
        let mut members = tagged(kind);
        push_member(
            &mut members,
            "replacementTransactionId",
            string(self.replacement_transaction_id.as_str()),
        );
        self.result.push_members(&mut members);
        assert(members_view(members@) =~= superseded_json(kind@, self.deep_view())->Object_0);
        object(members)
    }
}

fn settled_to_json(kind: &str, result: &JsWriteResult) -> (json: Json)
    ensures
        json@ == settled_json(kind@, result.deep_view()),
{
    let mut members = tagged(kind);
    result.push_members(&mut members);
    object(members)
}

/// How the engine put a mutation off.
#[derive(Debug, PartialEq, Eq)]
pub enum DeferOptimisticWriteResult {
    /// It stays queued.
    Deferred,
    /// It was dropped: a later one replaces it.
    DiscardedSuperseded(Superseded),
}

/// How the engine committed a mutation.
#[derive(Debug, PartialEq, Eq)]
pub enum CommitOptimisticWriteResult {
    /// Its response is stored.
    Committed(EngineWrite),
    /// Its response is stored, and a later one replaces it.
    CommittedSuperseded(Superseded),
}

/// How the engine rolled a mutation back.
#[derive(Debug, PartialEq, Eq)]
pub enum RollbackOptimisticWriteResult {
    /// Its contribution is gone.
    RolledBack(EngineWrite),
    /// It was dropped: a later one replaces it.
    DiscardedSuperseded(Superseded),
}

/// What the page is told of a mutation put off.
#[derive(Debug, PartialEq, Eq)]
pub enum JsDeferOptimisticWriteResult {
    /// It stays queued.
    Deferred,
    /// It was dropped: a later one replaces it.
    DiscardedSuperseded(JsSuperseded),
}

/// What the page is told of a committed mutation.
#[derive(Debug, PartialEq, Eq)]
pub enum JsCommitOptimisticWriteResult {
    /// Its response is stored.
    Committed {
        /// What that did to the cache.
        result: JsWriteResult,
    },
    /// Its response is stored, and a later one replaces it.
    CommittedSuperseded(JsSuperseded),
}

/// What the page is told of a mutation rolled back.
#[derive(Debug, PartialEq, Eq)]
pub enum JsRollbackOptimisticWriteResult {
    /// Its contribution is gone.
    RolledBack {
        /// What that did to the cache.
        result: JsWriteResult,
    },
    /// It was dropped: a later one replaces it.
    DiscardedSuperseded(JsSuperseded),
}

impl JsDeferOptimisticWriteResult {
    /// Tell the page of a mutation put off.
    pub fn from_engine(
        result: DeferOptimisticWriteResult,
        ops: &OpInterner,
    ) -> (told: JsDeferOptimisticWriteResult)
        requires
            ops.wf(),
        ensures
            match result {
                DeferOptimisticWriteResult::Deferred => told
                    == JsDeferOptimisticWriteResult::Deferred,
                DeferOptimisticWriteResult::DiscardedSuperseded(superseded) => told matches
                    JsDeferOptimisticWriteResult::DiscardedSuperseded(told) && told.deep_view()
                    == superseded_told(superseded.deep_view(), ops.ids()),
            },
    {
        match result {
            DeferOptimisticWriteResult::Deferred => JsDeferOptimisticWriteResult::Deferred,
            DeferOptimisticWriteResult::DiscardedSuperseded(superseded) => {
                JsDeferOptimisticWriteResult::DiscardedSuperseded(
                    JsSuperseded::from_engine(superseded, ops),
                )
            },
        }
    }

    /// The answer's JSON.
    pub fn to_json(&self) -> (json: Json)
        ensures
            json@ == (match self {
                JsDeferOptimisticWriteResult::Deferred => JsonView::Object(
                    seq![("kind"@, JsonView::Text("deferred"@))],
                ),
                JsDeferOptimisticWriteResult::DiscardedSuperseded(told) => superseded_json(
                    "discarded-superseded"@,
                    told.deep_view(),
                ),
            }),
    {
        match self {
            JsDeferOptimisticWriteResult::Deferred => object(tagged("deferred")),
            JsDeferOptimisticWriteResult::DiscardedSuperseded(told) => told.to_json_as(
                "discarded-superseded",
            ),
        }
    }
}

impl JsCommitOptimisticWriteResult {
    /// Tell the page of a committed mutation.
    pub fn from_engine(
        result: CommitOptimisticWriteResult,
        ops: &OpInterner,
    ) -> (told: JsCommitOptimisticWriteResult)
        requires
            ops.wf(),
        ensures
            match result {
                CommitOptimisticWriteResult::Committed(write) => told matches
                    JsCommitOptimisticWriteResult::Committed { result } && result.deep_view()
                    == write_told(write.deep_view(), ops.ids()),
                CommitOptimisticWriteResult::CommittedSuperseded(superseded) => told matches
                    JsCommitOptimisticWriteResult::CommittedSuperseded(told) && told.deep_view()
                    == superseded_told(superseded.deep_view(), ops.ids()),
            },
    {
        match result {
            CommitOptimisticWriteResult::Committed(write) => {
                JsCommitOptimisticWriteResult::Committed { result: js_write_result(write, ops) }
            },
            CommitOptimisticWriteResult::CommittedSuperseded(superseded) => {
                JsCommitOptimisticWriteResult::CommittedSuperseded(
                    JsSuperseded::from_engine(superseded, ops),
                )
            },
        }
    }

    /// The answer's JSON.
    pub fn to_json(&self) -> (json: Json)
        ensures
            json@ == (match self {
                JsCommitOptimisticWriteResult::Committed { result } => settled_json(
                    "committed"@,
                    result.deep_view(),
                ),
                JsCommitOptimisticWriteResult::CommittedSuperseded(told) => superseded_json(
                    "committed-superseded"@,
                    told.deep_view(),
                ),
            }),
    {
        match self {
            JsCommitOptimisticWriteResult::Committed { result } => settled_to_json(
                "committed",
                result,
            ),
            JsCommitOptimisticWriteResult::CommittedSuperseded(told) => told.to_json_as(
                "committed-superseded",
            ),
        }
    }
}

impl JsRollbackOptimisticWriteResult {
    /// Tell the page of a mutation rolled back.
    pub fn from_engine(
        result: RollbackOptimisticWriteResult,
        ops: &OpInterner,
    ) -> (told: JsRollbackOptimisticWriteResult)
        requires
            ops.wf(),
        ensures
            match result {
                RollbackOptimisticWriteResult::RolledBack(write) => told matches
                    JsRollbackOptimisticWriteResult::RolledBack { result } && result.deep_view()
                    == write_told(write.deep_view(), ops.ids()),
                RollbackOptimisticWriteResult::DiscardedSuperseded(superseded) => told matches
                    JsRollbackOptimisticWriteResult::DiscardedSuperseded(told)
                    && told.deep_view() == superseded_told(superseded.deep_view(), ops.ids()),
            },
    {
        match result {
            RollbackOptimisticWriteResult::RolledBack(write) => {
                JsRollbackOptimisticWriteResult::RolledBack { result: js_write_result(write, ops) }
            },
            RollbackOptimisticWriteResult::DiscardedSuperseded(superseded) => {
                JsRollbackOptimisticWriteResult::DiscardedSuperseded(
                    JsSuperseded::from_engine(superseded, ops),
                )
            },
        }
    }

    /// The answer's JSON.
    pub fn to_json(&self) -> (json: Json)
        ensures
            json@ == (match self {
                JsRollbackOptimisticWriteResult::RolledBack { result } => settled_json(
                    "rolled-back"@,
                    result.deep_view(),
                ),
                JsRollbackOptimisticWriteResult::DiscardedSuperseded(told) => superseded_json(
                    "discarded-superseded"@,
                    told.deep_view(),
                ),
            }),
    {
        match self {
            JsRollbackOptimisticWriteResult::RolledBack { result } => settled_to_json(
                "rolled-back",
                result,
            ),
            JsRollbackOptimisticWriteResult::DiscardedSuperseded(told) => told.to_json_as(
                "discarded-superseded",
            ),
        }
    }
}

} // verus!

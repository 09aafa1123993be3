//! What the cache answers its page.
//!
//! Ids, revisions and lease generations cross the boundary as decimal strings:
//! the page's numbers lose precision past 2^53. Operations cross it by name.
//! Values the cache only carries are kept as the JSON text they are written
//! in.

use crate::cache::interner::{known_names, OpInterner};
use crate::cache::state::{CacheError, CacheErrorView};
use crate::decimal::{decimal, decimal_text, parse_decimal, parsed_u64};
use crate::json::{
    array, items_view, members_view, no_items, no_members, object, push_item, push_member,
    read_json, string, try_parse_json, Json, JsonView, Member,
};
use crate::text::Text;
use vstd::prelude::*;

verus! {

/// What the engine reports of a write.
#[derive(Debug, PartialEq, Eq)]
pub struct EngineWrite {
    /// The cache revision.
    pub revision: u64,
    /// Whether this write advanced it.
    pub revision_advanced: bool,
    /// The keys of the records that changed.
    pub changed: Vec<String>,
    /// The ids of the operations whose data changed.
    pub affected_ops: Vec<u64>,
    /// Whether the cache was reset for another identity.
    pub reset: bool,
    /// The queries to revalidate, as JSON.
    pub revalidations: Vec<String>,
}

/// What the page is told of a write.
#[derive(Debug, PartialEq, Eq)]
pub struct JsWriteResult {
    /// The cache revision.
    pub revision: String,
    /// Whether this write advanced it.
    pub revision_advanced: bool,
    /// The keys of the records that changed.
    pub changed: Vec<String>,
    /// The operations whose data changed.
    pub affected_ops: Vec<String>,
    /// Whether the cache was reset for another identity.
    pub reset: bool,
    /// The queries to revalidate, as JSON.
    pub revalidations: Vec<String>,
}

/// The mathematical model of [`EngineWrite`].
pub struct EngineWriteView {
    pub revision: u64,
    pub revision_advanced: bool,
    pub changed: Seq<Text>,
    pub affected_ops: Seq<u64>,
    pub reset: bool,
    pub revalidations: Seq<Text>,
}

/// The mathematical model of [`JsWriteResult`].
pub struct WriteResultView {
    pub revision: Text,
    pub revision_advanced: bool,
    pub changed: Seq<Text>,
    pub affected_ops: Seq<Text>,
    pub reset: bool,
    pub revalidations: Seq<Text>,
}

impl DeepView for EngineWrite {
    type V = EngineWriteView;

    open spec fn deep_view(&self) -> EngineWriteView {
        EngineWriteView {
            revision: self.revision,
            revision_advanced: self.revision_advanced,
            changed: self.changed.deep_view(),
            affected_ops: self.affected_ops@,
            reset: self.reset,
            revalidations: self.revalidations.deep_view(),
        }
    }
}

impl DeepView for JsWriteResult {
    type V = WriteResultView;

    open spec fn deep_view(&self) -> WriteResultView {
        WriteResultView {
            revision: self.revision@,
            revision_advanced: self.revision_advanced,
            changed: self.changed.deep_view(),
            affected_ops: self.affected_ops.deep_view(),
            reset: self.reset,
            revalidations: self.revalidations.deep_view(),
        }
    }
}

/// What the page is told of a write, given the operations it has registered.
pub open spec fn write_told(write: EngineWriteView, ids: Map<Text, u64>) -> WriteResultView {
    WriteResultView {
        revision: decimal_text(write.revision as nat),
        revision_advanced: write.revision_advanced,
        changed: write.changed,
        affected_ops: known_names(ids, write.affected_ops),
        reset: write.reset,
        revalidations: write.revalidations,
    }
}

/// Tell the page of a write.
pub fn js_write_result(result: EngineWrite, ops: &OpInterner) -> (told: JsWriteResult)
    requires
        ops.wf(),
    ensures
        told.deep_view() == write_told(result.deep_view(), ops.ids()),
{
    JsWriteResult {
        revision: decimal(result.revision),
        revision_advanced: result.revision_advanced,
        changed: result.changed,
        affected_ops: ops.names(&result.affected_ops),
        reset: result.reset,
        revalidations: result.revalidations,
    }
}

/// Texts as a JSON array of strings.
pub open spec fn texts_json(texts: Seq<Text>) -> JsonView {
    JsonView::Array(texts.map_values(|text: Text| JsonView::Text(text)))
}

/// Carried values as a JSON array.
pub open spec fn verbatims_json(texts: Seq<Text>) -> JsonView {
    JsonView::Array(texts.map_values(|text: Text| JsonView::Verbatim(text)))
}

/// A text that may be missing, as JSON.
pub open spec fn optional_json(text: Option<Text>) -> JsonView {
    match text {
        Some(text) => JsonView::Text(text),
        None => JsonView::Null,
    }
}

pub(crate) fn strings(texts: &Vec<String>) -> (json: Json)
    ensures
        json@ == texts_json(texts.deep_view()),
{
    let mut items: Vec<Json> = no_items();
    let ghost views = texts.deep_view().map_values(|text: Text| JsonView::Text(text));
    assert(views.take(0) =~= Seq::<JsonView>::empty());
    let mut i: usize = 0;
    while i < texts.len()
        invariant
            i <= texts@.len(),
            views == texts.deep_view().map_values(|text: Text| JsonView::Text(text)),
            items_view(items@) == views.take(i as int),
        decreases texts@.len() - i,
    {
        push_item(&mut items, string(texts[i].as_str()));
        assert(views.take(i + 1) =~= views.take(i as int).push(views[i as int]));
        i = i + 1;
    }
    assert(views.take(i as int) =~= views);
    array(items)
}

pub(crate) fn verbatims(texts: &Vec<String>) -> (json: Json)
    ensures
        json@ == verbatims_json(texts.deep_view()),
{
    let mut items: Vec<Json> = no_items();
    let ghost views = texts.deep_view().map_values(|text: Text| JsonView::Verbatim(text));
    assert(views.take(0) =~= Seq::<JsonView>::empty());
    let mut i: usize = 0;
    while i < texts.len()
        invariant
            i <= texts@.len(),
            views == texts.deep_view().map_values(|text: Text| JsonView::Verbatim(text)),
            items_view(items@) == views.take(i as int),
        decreases texts@.len() - i,
    {
        push_item(&mut items, Json::Verbatim(texts[i].clone()));
        assert(views.take(i + 1) =~= views.take(i as int).push(views[i as int]));
        i = i + 1;
    }
    assert(views.take(i as int) =~= views);
    array(items)
}

pub(crate) fn optional(text: &Option<String>) -> (json: Json)
    ensures
        json@ == optional_json(text.deep_view()),
{
    match text {
        Some(text) => string(text.as_str()),
        None => Json::Null,
    }
}

/// An object begun with its `kind`.
pub(crate) fn tagged(kind: &str) -> (members: Vec<Member>)
    ensures
        members_view(members@) == seq![("kind"@, JsonView::Text(kind@))],
{
    let mut members: Vec<Member> = no_members();
    push_member(&mut members, "kind", string(kind));
    assert(members_view(members@) =~= seq![("kind"@, JsonView::Text(kind@))]);
    members
}

/// The members that tell of a write.
pub open spec fn write_members(told: WriteResultView) -> Seq<(Text, JsonView)> {
    seq![
        ("revision"@, JsonView::Text(told.revision)),
        ("revisionAdvanced"@, JsonView::Bool(told.revision_advanced)),
        ("changed"@, texts_json(told.changed)),
        ("affectedOps"@, texts_json(told.affected_ops)),
        ("reset"@, JsonView::Bool(told.reset)),
        ("revalidations"@, verbatims_json(told.revalidations)),
    ]
}

impl JsWriteResult {
    pub(crate) fn push_members(&self, members: &mut Vec<Member>)
        ensures
            members_view(final(members)@) == members_view(old(members)@) + write_members(
                self.deep_view(),
            ),
    {
        push_member(members, "revision", string(self.revision.as_str()));
        push_member(members, "revisionAdvanced", Json::Bool(self.revision_advanced));
        push_member(members, "changed", strings(&self.changed));
        push_member(members, "affectedOps", strings(&self.affected_ops));
        push_member(members, "reset", Json::Bool(self.reset));
        push_member(members, "revalidations", verbatims(&self.revalidations));
        assert(members_view(members@) =~= members_view(old(members)@) + write_members(
            self.deep_view(),
        ));
    }

    /// The answer's JSON.
    pub fn to_json(&self) -> (json: Json)
        ensures
            json@ == JsonView::Object(write_members(self.deep_view())),
    {
        let mut members: Vec<Member> = no_members();
        self.push_members(&mut members);
        assert(members_view(members@) =~= write_members(self.deep_view()));
        object(members)
    }
}

/// A write whose response is handed back without its cache-only fields.
#[derive(Debug, PartialEq, Eq)]
pub struct JsHydrationWriteResult {
    /// The write.
    pub write: JsWriteResult,
    /// The response, as JSON.
    pub data: Option<String>,
}

/// A carried value that may be missing, as JSON.
pub open spec fn optional_verbatim(text: Option<Text>) -> JsonView {
    match text {
        Some(text) => JsonView::Verbatim(text),
        None => JsonView::Null,
    }
}

impl JsHydrationWriteResult {
    /// Tell the page of a hydration.
    pub fn from_engine(
        write: EngineWrite,
        data: Option<String>,
        ops: &OpInterner,
    ) -> (told: JsHydrationWriteResult)
        requires
            ops.wf(),
        ensures
            told.write.deep_view() == write_told(write.deep_view(), ops.ids()),
            told.data == data,
    {
        JsHydrationWriteResult { write: js_write_result(write, ops), data }
    }

    /// The answer's JSON.
    pub fn to_json(&self) -> (json: Json)
        ensures
            json@ == JsonView::Object(
                write_members(self.write.deep_view()).push(
                    ("data"@, optional_verbatim(self.data.deep_view())),
                ),
            ),
    {
        let mut members: Vec<Member> = no_members();
        self.write.push_members(&mut members);
        let data: Json = match &self.data {
            Some(data) => Json::Verbatim(data.clone()),
            None => Json::Null,
        };
        push_member(&mut members, "data", data);
        assert(members_view(members@) =~= write_members(self.write.deep_view()).push(
            ("data"@, optional_verbatim(self.data.deep_view())),
        ));
        object(members)
    }
}

/// What a read found.
#[derive(Debug, PartialEq, Eq)]
pub enum JsReadResult {
    /// The cache answers the query.
    Hit {
        /// The answer, as JSON.
        data: String,
    },
    /// The cache does not answer the query.
    Miss,
}

impl JsReadResult {
    /// The answer's JSON.
    pub fn to_json(&self) -> (json: Json)
        ensures
            json@ == JsonView::Object(
                match self {
                    JsReadResult::Hit { data } => seq![
                        ("kind"@, JsonView::Text("hit"@)),
                        ("data"@, JsonView::Verbatim(data@)),
                    ],
                    JsReadResult::Miss => seq![("kind"@, JsonView::Text("miss"@))],
                },
            ),
    {
        match self {
            JsReadResult::Hit { data } => {
                let mut members = tagged("hit");
                push_member(&mut members, "data", Json::Verbatim(data.clone()));
                assert(members_view(members@) =~= seq![
                    ("kind"@, JsonView::Text("hit"@)),
                    ("data"@, JsonView::Verbatim(data@)),
                ]);
                object(members)
            },
            JsReadResult::Miss => object(tagged("miss")),
        }
    }
}

/// The error of an id that is not a number.
pub open spec fn bad_number(value: Text, label: Text) -> Text {
    "invalid "@ + label + " `"@ + value + "`"@
}

/// Read an id the page hands in as a decimal string.
pub fn parse_u64(value: &str, label: &str) -> (number: Result<u64, CacheError>)
    ensures
        match number {
            Ok(number) => parsed_u64(value@) == Some(number),
            Err(error) => parsed_u64(value@) is None && error.deep_view()
                == CacheErrorView::Failed(bad_number(value@, label@)),
        },
{
    match parse_decimal(value) {
        Some(number) => Ok(number),
        None => {
            let mut message: String = "invalid ".to_owned();
            message.append(label);
            message.append(" `");
            message.append(value);
            message.append("`");
            Err(CacheError::Failed(message))
        },
    }
}

/// Read the id of an optimistic transaction.
pub fn parse_transaction_id(id: &str) -> (number: Result<u64, CacheError>)
    ensures
        match number {
            Ok(number) => parsed_u64(id@) == Some(number),
            Err(error) => parsed_u64(id@) is None && error.deep_view() == CacheErrorView::Failed(
                bad_number(id@, "optimistic transaction id"@),
            ),
        },
{
    parse_u64(id, "optimistic transaction id")
}

/// The lease a claimed mutation is settled under.
#[derive(Debug, PartialEq, Eq)]
pub struct MutationClaimToken {
    /// Who holds the lease.
    pub owner: String,
    /// Which lease it is.
    pub generation: u64,
}

/// Read the transaction and the lease of a mutation to settle; a bad
/// transaction id is told before a bad generation.
pub fn parse_claim(
    transaction_id: &str,
    lease_owner: String,
    lease_generation: &str,
) -> (claim: Result<(u64, MutationClaimToken), CacheError>)
    ensures
        match claim {
            Ok((transaction, token)) => parsed_u64(transaction_id@) == Some(transaction)
                && parsed_u64(lease_generation@) == Some(token.generation) && token.owner
                == lease_owner,
            Err(error) => error.deep_view() == CacheErrorView::Failed(
                if parsed_u64(transaction_id@) is None {
                    bad_number(transaction_id@, "optimistic transaction id"@)
                } else {
                    bad_number(lease_generation@, "lease generation"@)
                },
            ) && (parsed_u64(transaction_id@) is None || parsed_u64(lease_generation@) is None),
        },
{
    let transaction: u64 = match parse_transaction_id(transaction_id) {
        Ok(transaction) => transaction,
        Err(error) => return Err(error),
    };
    match parse_u64(lease_generation, "lease generation") {
        Ok(generation) => Ok((transaction, MutationClaimToken { owner: lease_owner, generation })),
        Err(error) => Err(error),
    }
}

/// What queueing a mutation did to the queue.
#[derive(Clone, Copy, Debug, PartialEq, Eq)]
pub enum MutationUpsertKind {
    /// It was added.
    Inserted,
    /// It took the place of one that had not run.
    ReplacedPending {
        /// The one that left.
        removed_id: u64,
    },
    /// It was added behind one that is running.
    AppendedAfterActive {
        /// The one that is running.
        active_id: u64,
    },
}

/// What the page is told of the queue.
#[derive(Debug, PartialEq, Eq)]
pub enum JsMutationUpsertKind {
    /// The mutation was added.
    Inserted,
    /// It took the place of one that had not run.
    ReplacedPending {
        /// The one that left.
        removed_transaction_id: String,
    },
    /// It was added behind one that is running.
    AppendedAfterActive {
        /// The one that is running.
        active_transaction_id: String,
    },
}

/// The mathematical model of [`JsMutationUpsertKind`].
pub enum UpsertView {
    Inserted,
    ReplacedPending { removed_transaction_id: Text },
    AppendedAfterActive { active_transaction_id: Text },
}

impl DeepView for JsMutationUpsertKind {
    type V = UpsertView;

    open spec fn deep_view(&self) -> UpsertView {
        match self {
            JsMutationUpsertKind::Inserted => UpsertView::Inserted,
            JsMutationUpsertKind::ReplacedPending { removed_transaction_id } => {
                UpsertView::ReplacedPending { removed_transaction_id: removed_transaction_id@ }
            },
            JsMutationUpsertKind::AppendedAfterActive { active_transaction_id } => {
                UpsertView::AppendedAfterActive { active_transaction_id: active_transaction_id@ }
            },
        }
    }
}

/// What the page is told of the queue.
pub open spec fn upsert_told(kind: MutationUpsertKind) -> UpsertView {
    match kind {
        MutationUpsertKind::Inserted => UpsertView::Inserted,
        MutationUpsertKind::ReplacedPending { removed_id } => UpsertView::ReplacedPending {
            removed_transaction_id: decimal_text(removed_id as nat),
        },
        MutationUpsertKind::AppendedAfterActive { active_id } => UpsertView::AppendedAfterActive {
            active_transaction_id: decimal_text(active_id as nat),
        },
    }
}

/// The JSON of what the page is told of the queue.
pub open spec fn upsert_json(kind: UpsertView) -> JsonView {
    JsonView::Object(
        match kind {
            UpsertView::Inserted => seq![("kind"@, JsonView::Text("inserted"@))],
            UpsertView::ReplacedPending { removed_transaction_id } => seq![
                ("kind"@, JsonView::Text("replaced-pending"@)),
                ("removedTransactionId"@, JsonView::Text(removed_transaction_id)),
            ],
            UpsertView::AppendedAfterActive { active_transaction_id } => seq![
                ("kind"@, JsonView::Text("appended-after-active"@)),
                ("activeTransactionId"@, JsonView::Text(active_transaction_id)),
            ],
        },
    )
}

impl JsMutationUpsertKind {
    /// Tell the page of the queue.
    pub fn from_engine(kind: MutationUpsertKind) -> (told: JsMutationUpsertKind)
        ensures
            told.deep_view() == upsert_told(kind),
    {
        match kind {
            MutationUpsertKind::Inserted => JsMutationUpsertKind::Inserted,
            MutationUpsertKind::ReplacedPending { removed_id } => {
                JsMutationUpsertKind::ReplacedPending {
                    removed_transaction_id: decimal(removed_id),
                }
            },
            MutationUpsertKind::AppendedAfterActive { active_id } => {
                JsMutationUpsertKind::AppendedAfterActive {
                    active_transaction_id: decimal(active_id),
                }
            },
        }
    }

    /// The answer's JSON.
    pub fn to_json(&self) -> (json: Json)
        ensures
            json@ == upsert_json(self.deep_view()),
    {
        match self {
            JsMutationUpsertKind::Inserted => object(tagged("inserted")),
            JsMutationUpsertKind::ReplacedPending { removed_transaction_id } => {
                let mut members = tagged("replaced-pending");
                push_member(
                    &mut members,
                    "removedTransactionId",
                    string(removed_transaction_id.as_str()),
                );
                assert(members_view(members@) =~= seq![
                    ("kind"@, JsonView::Text("replaced-pending"@)),
                    ("removedTransactionId"@, JsonView::Text(removed_transaction_id@)),
                ]);
                object(members)
            },
            JsMutationUpsertKind::AppendedAfterActive { active_transaction_id } => {
                let mut members = tagged("appended-after-active");
                push_member(
                    &mut members,
                    "activeTransactionId",
                    string(active_transaction_id.as_str()),
                );
                assert(members_view(members@) =~= seq![
                    ("kind"@, JsonView::Text("appended-after-active"@)),
                    ("activeTransactionId"@, JsonView::Text(active_transaction_id@)),
                ]);
                object(members)
            },
        }
    }
}

/// A mutation the engine has leased out.
#[derive(Debug, PartialEq, Eq)]
pub struct ClaimedMutation {
    /// The transaction's id.
    pub id: u64,
    /// The mutation's own id.
    pub uuid: String,
    /// Whether a later mutation replaces it.
    pub superseded: bool,
    /// Which lease it is.
    pub lease_generation: u64,
    /// The mutation's document.
    pub query: String,
    /// The operation within it.
    pub operation_name: Option<String>,
    /// Its variables, as stored.
    pub variables_json: String,
    /// The identity it was queued under.
    pub identity: Option<String>,
    /// How often it has been tried.
    pub attempt_count: u32,
}

/// A leased mutation as the page is handed it.
#[derive(Debug, PartialEq, Eq)]
pub struct JsClaimedMutation {
    /// The transaction's id.
    pub transaction_id: String,
    /// The mutation's own id.
    pub uuid: String,
    /// Whether a later mutation replaces it.
    pub superseded: bool,
    /// Which lease it is.
    pub lease_generation: String,
    /// The mutation's document.
    pub query: String,
    /// The operation within it.
    pub operation_name: Option<String>,
    /// Its variables, as JSON.
    pub variables: String,
    /// The identity it was queued under.
    pub identity: Option<String>,
    /// How often it has been tried.
    pub attempt_count: u32,
}

/// The mathematical model of [`ClaimedMutation`].
pub struct ClaimedView {
    pub id: u64,
    pub uuid: Text,
    pub superseded: bool,
    pub lease_generation: u64,
    pub query: Text,
    pub operation_name: Option<Text>,
    pub variables_json: Text,
    pub identity: Option<Text>,
    pub attempt_count: u32,
}

/// The mathematical model of [`JsClaimedMutation`].
pub struct ClaimToldView {
    pub transaction_id: Text,
    pub uuid: Text,
    pub superseded: bool,
    pub lease_generation: Text,
    pub query: Text,
    pub operation_name: Option<Text>,
    pub variables: Text,
    pub identity: Option<Text>,
    pub attempt_count: u32,
}

impl DeepView for ClaimedMutation {
    type V = ClaimedView;

    open spec fn deep_view(&self) -> ClaimedView {
        ClaimedView {
            id: self.id,
            uuid: self.uuid@,
            superseded: self.superseded,
            lease_generation: self.lease_generation,
            query: self.query@,
            operation_name: self.operation_name.deep_view(),
            variables_json: self.variables_json@,
            identity: self.identity.deep_view(),
            attempt_count: self.attempt_count,
        }
    }
}

impl DeepView for JsClaimedMutation {
    type V = ClaimToldView;

    open spec fn deep_view(&self) -> ClaimToldView {
        ClaimToldView {
            transaction_id: self.transaction_id@,
            uuid: self.uuid@,
            superseded: self.superseded,
            lease_generation: self.lease_generation@,
            query: self.query@,
            operation_name: self.operation_name.deep_view(),
            variables: self.variables@,
            identity: self.identity.deep_view(),
            attempt_count: self.attempt_count,
        }
    }
}

/// A leased mutation as the page is handed it. Variables that were stored as
/// anything but JSON are refused.
pub open spec fn claim_told(claimed: ClaimedView) -> Result<ClaimToldView, CacheErrorView> {
    match read_json(claimed.variables_json) {
        Ok(_) => Ok(
            ClaimToldView {
                transaction_id: decimal_text(claimed.id as nat),
                uuid: claimed.uuid,
                superseded: claimed.superseded,
                lease_generation: decimal_text(claimed.lease_generation as nat),
                query: claimed.query,
                operation_name: claimed.operation_name,
                variables: claimed.variables_json,
                identity: claimed.identity,
                attempt_count: claimed.attempt_count,
            },
        ),
        Err(message) => Err(CacheErrorView::Failed(message)),
    }
}

/// The JSON of a leased mutation.
pub open spec fn claim_json(claim: ClaimToldView) -> JsonView {
    JsonView::Object(
        seq![
            ("transactionId"@, JsonView::Text(claim.transaction_id)),
            ("uuid"@, JsonView::Text(claim.uuid)),
            ("superseded"@, JsonView::Bool(claim.superseded)),
            ("leaseGeneration"@, JsonView::Text(claim.lease_generation)),
            ("query"@, JsonView::Text(claim.query)),
            ("operationName"@, optional_json(claim.operation_name)),
            ("variables"@, JsonView::Verbatim(claim.variables)),
            ("identity"@, optional_json(claim.identity)),
            ("attemptCount"@, JsonView::Number(Some(claim.attempt_count as u64))),
        ],
    )
}

impl JsClaimedMutation {
    /// Hand the page a leased mutation.
    pub fn from_engine(claimed: ClaimedMutation) -> (told: Result<JsClaimedMutation, CacheError>)
        ensures
            told is Ok == claim_told(claimed.deep_view()) is Ok,
            told matches Ok(told) ==> claim_told(claimed.deep_view())->Ok_0 == told.deep_view(),
            told matches Err(error) ==> claim_told(claimed.deep_view())->Err_0
                == error.deep_view(),
    {
        match try_parse_json(claimed.variables_json.as_str()) {
            Ok(_) => Ok(
                JsClaimedMutation {
                    transaction_id: decimal(claimed.id),
                    uuid: claimed.uuid,
                    superseded: claimed.superseded,
                    lease_generation: decimal(claimed.lease_generation),
                    query: claimed.query,
                    operation_name: claimed.operation_name,
                    variables: claimed.variables_json,
                    identity: claimed.identity,
                    attempt_count: claimed.attempt_count,
                },
            ),
            Err(message) => Err(CacheError::Failed(message)),
        }
    }

    /// The answer's JSON.
    pub fn to_json(&self) -> (json: Json)
        ensures
            json@ == claim_json(self.deep_view()),
    {
        let mut members: Vec<Member> = no_members();
        push_member(&mut members, "transactionId", string(self.transaction_id.as_str()));
        push_member(&mut members, "uuid", string(self.uuid.as_str()));
        push_member(&mut members, "superseded", Json::Bool(self.superseded));
        push_member(&mut members, "leaseGeneration", string(self.lease_generation.as_str()));
        push_member(&mut members, "query", string(self.query.as_str()));
        push_member(&mut members, "operationName", optional(&self.operation_name));
        push_member(&mut members, "variables", Json::Verbatim(self.variables.clone()));
        push_member(&mut members, "identity", optional(&self.identity));
        push_member(&mut members, "attemptCount", Json::Number(Some(self.attempt_count as u64)));
        assert(members_view(members@) =~= claim_json(self.deep_view())->Object_0);
        object(members)
    }
}

} // verus!

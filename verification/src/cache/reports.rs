//! The cache's shorter answers: revisions, affected operations, diagnostics.

use crate::cache::answers::{optional, optional_json, strings, texts_json, verbatims, verbatims_json};
use crate::cache::interner::{known_names, OpInterner};
use crate::decimal::{decimal, decimal_text, signed_decimal, signed_text};
use crate::json::{members_view, no_members, object, push_member, string, Json, JsonView, Member};
use crate::text::Text;
use vstd::prelude::*;

verus! {

/// A revision on its own.
#[derive(Debug, PartialEq, Eq)]
pub struct JsRevisionResult {
    /// The cache revision.
    pub revision: String,
}

/// The operations an eviction or a reset affects.
#[derive(Debug, PartialEq, Eq)]
pub struct JsAffectedOperationsResult {
    /// The cache revision.
    pub revision: String,
    /// The operations to run again.
    pub affected_ops: Vec<String>,
}

/// Records picked by key.
#[derive(Debug, PartialEq, Eq)]
pub struct JsRecordSelectionResult {
    /// The cache revision.
    pub revision: String,
    /// The records, as JSON.
    pub records: Vec<String>,
}

impl JsRevisionResult {
    /// Tell the page a revision.
    pub fn from_engine(revision: u64) -> (told: JsRevisionResult)
        ensures
            told.revision@ == decimal_text(revision as nat),
    {
        JsRevisionResult { revision: decimal(revision) }
    }

    /// The answer's JSON.
    pub fn to_json(&self) -> (json: Json)
        ensures
            json@ == JsonView::Object(seq![("revision"@, JsonView::Text(self.revision@))]),
    {
        let mut members: Vec<Member> = no_members();
        push_member(&mut members, "revision", string(self.revision.as_str()));
        assert(members_view(members@) =~= seq![("revision"@, JsonView::Text(self.revision@))]);
        object(members)
    }
}

impl JsAffectedOperationsResult {
    /// Tell the page which of its operations to run again.
    pub fn from_engine(revision: u64, affected: &Vec<u64>, ops: &OpInterner) -> (told:
        JsAffectedOperationsResult)
        requires
            ops.wf(),
        ensures
            told.revision@ == decimal_text(revision as nat),
            told.affected_ops.deep_view() == known_names(ops.ids(), affected@),
    {
        JsAffectedOperationsResult {
            revision: decimal(revision),
            affected_ops: ops.names(affected),
        }
    }

    /// The answer's JSON.
    pub fn to_json(&self) -> (json: Json)
        ensures
            json@ == JsonView::Object(
                seq![
                    ("revision"@, JsonView::Text(self.revision@)),
                    ("affectedOps"@, texts_json(self.affected_ops.deep_view())),
                ],
            ),
    {
        let mut members: Vec<Member> = no_members();
        push_member(&mut members, "revision", string(self.revision.as_str()));
        push_member(&mut members, "affectedOps", strings(&self.affected_ops));
        assert(members_view(members@) =~= seq![
            ("revision"@, JsonView::Text(self.revision@)),
            ("affectedOps"@, texts_json(self.affected_ops.deep_view())),
        ]);
        object(members)
    }
}

impl JsRecordSelectionResult {
    /// Hand the page the records it picked.
    pub fn from_engine(revision: u64, records: Vec<String>) -> (told: JsRecordSelectionResult)
        ensures
            told.revision@ == decimal_text(revision as nat),
            told.records == records,
    {
        JsRecordSelectionResult { revision: decimal(revision), records }
    }

    /// The answer's JSON.
    pub fn to_json(&self) -> (json: Json)
        ensures
            json@ == JsonView::Object(
                seq![
                    ("revision"@, JsonView::Text(self.revision@)),
                    ("records"@, verbatims_json(self.records.deep_view())),
                ],
            ),
    {
        let mut members: Vec<Member> = no_members();
        push_member(&mut members, "revision", string(self.revision.as_str()));
        push_member(&mut members, "records", verbatims(&self.records));
        assert(members_view(members@) =~= seq![
            ("revision"@, JsonView::Text(self.revision@)),
            ("records"@, verbatims_json(self.records.deep_view())),
        ]);
        object(members)
    }
}

/// What the engine says of its durable queue.
#[derive(Clone, Copy, Debug, PartialEq, Eq)]
pub struct QueueDiagnostics {
    /// Whether the queue could be observed.
    pub available: bool,
    /// How many mutations wait.
    pub depth: u64,
    /// When the oldest was queued, in milliseconds.
    pub oldest_created_at_ms: Option<i64>,
}

/// What the page is told of the durable queue: nothing but how much waits and
/// since when, and neither where the queue could not be observed.
#[derive(Debug, PartialEq, Eq)]
pub struct JsQueueDiagnostics {
    /// Whether the queue could be observed.
    pub available: bool,
    /// How many mutations wait.
    pub depth: Option<String>,
    /// When the oldest was queued, in milliseconds.
    pub oldest_created_at_ms: Option<String>,
}

/// The depth the page is told.
pub open spec fn depth_told(diagnostics: QueueDiagnostics) -> Option<Text> {
    if diagnostics.available {
        Some(decimal_text(diagnostics.depth as nat))
    } else {
        None
    }
}

/// The age the page is told.
pub open spec fn oldest_told(diagnostics: QueueDiagnostics) -> Option<Text> {
    match diagnostics.oldest_created_at_ms {
        Some(oldest) => if diagnostics.available {
            Some(signed_text(oldest as int))
        } else {
            None
        },
        None => None,
    }
}

impl JsQueueDiagnostics {
    /// Tell the page of the durable queue.
    pub fn from_engine(diagnostics: QueueDiagnostics) -> (told: JsQueueDiagnostics)
        ensures
            told.available == diagnostics.available,
            told.depth.deep_view() == depth_told(diagnostics),
            told.oldest_created_at_ms.deep_view() == oldest_told(diagnostics),
    {
        if diagnostics.available {
            JsQueueDiagnostics {
                available: true,
                depth: Some(decimal(diagnostics.depth)),
                oldest_created_at_ms: match diagnostics.oldest_created_at_ms {
                    Some(oldest) => Some(signed_decimal(oldest)),
                    None => None,
                },
            }
        } else {
            JsQueueDiagnostics { available: false, depth: None, oldest_created_at_ms: None }
        }
    }

    /// The answer's JSON.
    pub fn to_json(&self) -> (json: Json)
        ensures
            json@ == JsonView::Object(
                seq![
                    (
                        "availability"@,
                        JsonView::Text(
                            if self.available {
                                "available"@
                            } else {
                                "unavailable"@
                            },
                        ),
                    ),
                    ("depth"@, optional_json(self.depth.deep_view())),
                    ("oldestCreatedAtMs"@, optional_json(self.oldest_created_at_ms.deep_view())),
                ],
            ),
    {
        let availability: &str = if self.available {
            "available"
        } else {
            "unavailable"
        };
        let mut members: Vec<Member> = no_members();
        push_member(&mut members, "availability", string(availability));
        push_member(&mut members, "depth", optional(&self.depth));
        push_member(&mut members, "oldestCreatedAtMs", optional(&self.oldest_created_at_ms));
        assert(members_view(members@) =~= seq![
            ("availability"@, JsonView::Text(availability@)),
            ("depth"@, optional_json(self.depth.deep_view())),
            ("oldestCreatedAtMs"@, optional_json(self.oldest_created_at_ms.deep_view())),
        ]);
        object(members)
    }
}

} // verus!

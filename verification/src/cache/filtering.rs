//! Answering a filter request from the predicate index.

use crate::cache::answers::{strings, tagged, texts_json};
use crate::cache::state::{
    after_failure, rejection, CacheError, CacheErrorView, CacheState, EngineError, EngineErrorView,
};
use crate::decimal::{decimal, decimal_text};
use crate::json::{members_view, object, push_member, string, Json, JsonView};
use crate::text::Text;
use vstd::prelude::*;

verus! {

/// What the predicate index says of a query.
#[derive(Debug, PartialEq, Eq)]
pub enum PredicateQueryResult {
    /// Exactly these records match.
    Complete(Vec<String>),
    /// These records match, some by what is only expected.
    Optimistic(Vec<String>),
    /// The index cannot tell.
    Incomplete,
}

/// The page's own list held against the predicate index.
#[derive(Debug, PartialEq, Eq)]
pub struct Reconciliation {
    /// The records that match now.
    pub keys: Vec<String>,
    /// Those of the page's list that stay.
    pub retained_keys: Vec<String>,
    /// Whether some match only by what is expected.
    pub optimistic: bool,
}

/// What the page is told of a filter.
#[derive(Debug, PartialEq, Eq)]
pub enum JsEntityFilterResult {
    /// Its list was reconciled.
    Reconciled {
        /// The cache revision.
        revision: String,
        /// The records that match now.
        keys: Vec<String>,
        /// Those of the page's list that stay.
        retained_keys: Vec<String>,
        /// Whether some match only by what is expected.
        optimistic: bool,
    },
    /// The matching records.
    Complete {
        /// The cache revision.
        revision: String,
        /// The records that match.
        keys: Vec<String>,
        /// Whether some match only by what is expected.
        optimistic: bool,
    },
    /// The cache does not evaluate this filter.
    Unsupported,
    /// The cache does not know enough to answer.
    Incomplete {
        /// The cache revision.
        revision: String,
    },
}

/// The mathematical model of [`PredicateQueryResult`].
pub enum QueryResultView {
    Complete(Seq<Text>),
    Optimistic(Seq<Text>),
    Incomplete,
}

/// The mathematical model of [`Reconciliation`].
pub struct ReconciliationView {
    pub keys: Seq<Text>,
    pub retained_keys: Seq<Text>,
    pub optimistic: bool,
}

/// The mathematical model of [`JsEntityFilterResult`].
pub enum FilterResultView {
    Reconciled { revision: Text, keys: Seq<Text>, retained_keys: Seq<Text>, optimistic: bool },
    Complete { revision: Text, keys: Seq<Text>, optimistic: bool },
    Unsupported,
    Incomplete { revision: Text },
}

impl DeepView for PredicateQueryResult {
    type V = QueryResultView;

    open spec fn deep_view(&self) -> QueryResultView {
        match self {
            PredicateQueryResult::Complete(keys) => QueryResultView::Complete(keys.deep_view()),
            PredicateQueryResult::Optimistic(keys) => QueryResultView::Optimistic(keys.deep_view()),
            PredicateQueryResult::Incomplete => QueryResultView::Incomplete,
        }
    }
}

impl DeepView for Reconciliation {
    type V = ReconciliationView;

    open spec fn deep_view(&self) -> ReconciliationView {
        ReconciliationView {
            keys: self.keys.deep_view(),
            retained_keys: self.retained_keys.deep_view(),
            optimistic: self.optimistic,
        }
    }
}

impl DeepView for JsEntityFilterResult {
    type V = FilterResultView;

    open spec fn deep_view(&self) -> FilterResultView {
        match self {
            JsEntityFilterResult::Reconciled { revision, keys, retained_keys, optimistic } => {
                FilterResultView::Reconciled {
                    revision: revision@,
                    keys: keys.deep_view(),
                    retained_keys: retained_keys.deep_view(),
                    optimistic: *optimistic,
                }
            },
            JsEntityFilterResult::Complete { revision, keys, optimistic } => {
                FilterResultView::Complete {
                    revision: revision@,
                    keys: keys.deep_view(),
                    optimistic: *optimistic,
                }
            },
            JsEntityFilterResult::Unsupported => FilterResultView::Unsupported,
            JsEntityFilterResult::Incomplete { revision } => FilterResultView::Incomplete {
                revision: revision@,
            },
        }
    }
}

/// The JSON of what the page is told of a filter.
pub open spec fn filter_json(result: FilterResultView) -> JsonView {
    JsonView::Object(
        match result {
            FilterResultView::Reconciled { revision, keys, retained_keys, optimistic } => seq![
                ("kind"@, JsonView::Text("reconciled"@)),
                ("revision"@, JsonView::Text(revision)),
                ("keys"@, texts_json(keys)),
                ("retainedKeys"@, texts_json(retained_keys)),
                ("optimistic"@, JsonView::Bool(optimistic)),
            ],
            FilterResultView::Complete { revision, keys, optimistic } => seq![
                ("kind"@, JsonView::Text("complete"@)),
                ("revision"@, JsonView::Text(revision)),
                ("keys"@, texts_json(keys)),
                ("optimistic"@, JsonView::Bool(optimistic)),
            ],
            FilterResultView::Unsupported => seq![("kind"@, JsonView::Text("unsupported"@))],
            FilterResultView::Incomplete { revision } => seq![
                ("kind"@, JsonView::Text("incomplete"@)),
                ("revision"@, JsonView::Text(revision)),
            ],
        },
    )
}

impl JsEntityFilterResult {
    /// The answer's JSON.
    pub fn to_json(&self) -> (json: Json)
        ensures
            json@ == filter_json(self.deep_view()),
    {
        let ghost expected = filter_json(self.deep_view())->Object_0;
        match self {
            JsEntityFilterResult::Reconciled { revision, keys, retained_keys, optimistic } => {
                let mut members = tagged("reconciled");
                push_member(&mut members, "revision", string(revision.as_str()));
                push_member(&mut members, "keys", strings(keys));
                push_member(&mut members, "retainedKeys", strings(retained_keys));
                push_member(&mut members, "optimistic", Json::Bool(*optimistic));
                assert(members_view(members@) =~= expected);
                object(members)
            },
            JsEntityFilterResult::Complete { revision, keys, optimistic } => {
                let mut members = tagged("complete");
                push_member(&mut members, "revision", string(revision.as_str()));
                push_member(&mut members, "keys", strings(keys));
                push_member(&mut members, "optimistic", Json::Bool(*optimistic));
                assert(members_view(members@) =~= expected);
                object(members)
            },
            JsEntityFilterResult::Unsupported => object(tagged("unsupported")),
            JsEntityFilterResult::Incomplete { revision } => {
                let mut members = tagged("incomplete");
                push_member(&mut members, "revision", string(revision.as_str()));
                assert(members_view(members@) =~= expected);
                object(members)
            },
        }
    }
}

/// Where a filter request is.
#[derive(Clone, Copy, Debug, PartialEq, Eq)]
pub enum Filtering {
    /// A mail page is being read.
    Paging,
    /// The filter is being compiled.
    Compiling {
        /// The length of the page's own list, when it hands one in.
        baseline: Option<usize>,
        /// How long such a list may be.
        most: usize,
    },
    /// The page's own list is being read.
    ReadingBaseline,
    /// The page's own list is being reconciled.
    Reconciling,
    /// The index is being queried.
    Querying,
    /// The request is answered.
    Finished,
}

/// What the host is to do next.
#[derive(Debug, PartialEq, Eq)]
pub enum FilterAction {
    /// Read the mail page asked for.
    Page,
    /// Compile the filter.
    Compile,
    /// Read the page's own list.
    ReadBaseline,
    /// Reconcile that list with the index.
    Reconcile,
    /// Query the index.
    Query,
    /// Answer with a mail page.
    AnswerPage {
        /// The page, as JSON.
        page: String,
    },
    /// Answer the filter.
    Answer(JsEntityFilterResult),
    /// The request failed.
    Fail(CacheError),
}

/// What came of an action.
#[derive(Debug, PartialEq, Eq)]
pub enum FilterEvent {
    /// The mail page, as JSON.
    Paged(String),
    /// The filter compiled, or is one the cache does not evaluate.
    Compiled {
        /// The cache evaluates it.
        supported: bool,
    },
    /// The page's own list was read.
    BaselineRead,
    /// The request is malformed.
    Malformed(String),
    /// The list was reconciled.
    Reconciled {
        /// The cache revision.
        revision: u64,
        /// What came of it.
        reconciliation: Reconciliation,
    },
    /// The index answered.
    Queried {
        /// The cache revision.
        revision: u64,
        /// Its answer.
        result: PredicateQueryResult,
    },
    /// The engine failed.
    EngineFailed(EngineError),
}

/// The mathematical model of [`FilterAction`].
pub enum FilterActionView {
    Page,
    Compile,
    ReadBaseline,
    Reconcile,
    Query,
    AnswerPage { page: Text },
    Answer(FilterResultView),
    Fail(CacheErrorView),
}

/// The mathematical model of [`FilterEvent`].
pub enum FilterEventView {
    Paged(Text),
    Compiled { supported: bool },
    BaselineRead,
    Malformed(Text),
    Reconciled { revision: u64, reconciliation: ReconciliationView },
    Queried { revision: u64, result: QueryResultView },
    EngineFailed(EngineErrorView),
}

impl DeepView for FilterAction {
    type V = FilterActionView;

    open spec fn deep_view(&self) -> FilterActionView {
        match self {
            FilterAction::Page => FilterActionView::Page,
            FilterAction::Compile => FilterActionView::Compile,
            FilterAction::ReadBaseline => FilterActionView::ReadBaseline,
            FilterAction::Reconcile => FilterActionView::Reconcile,
            FilterAction::Query => FilterActionView::Query,
            FilterAction::AnswerPage { page } => FilterActionView::AnswerPage { page: page@ },
            FilterAction::Answer(result) => FilterActionView::Answer(result.deep_view()),
            FilterAction::Fail(error) => FilterActionView::Fail(error.deep_view()),
        }
    }
}

impl DeepView for FilterEvent {
    type V = FilterEventView;

    open spec fn deep_view(&self) -> FilterEventView {
        match self {
            FilterEvent::Paged(page) => FilterEventView::Paged(page@),
            FilterEvent::Compiled { supported } => FilterEventView::Compiled {
                supported: *supported,
            },
            FilterEvent::BaselineRead => FilterEventView::BaselineRead,
            FilterEvent::Malformed(message) => FilterEventView::Malformed(message@),
            FilterEvent::Reconciled { revision, reconciliation } => FilterEventView::Reconciled {
                revision: *revision,
                reconciliation: reconciliation.deep_view(),
            },
            FilterEvent::Queried { revision, result } => FilterEventView::Queried {
                revision: *revision,
                result: result.deep_view(),
            },
            FilterEvent::EngineFailed(error) => FilterEventView::EngineFailed(error.deep_view()),
        }
    }
}

/// Whether an event answers what a request is waiting for.
pub open spec fn filter_expects(filtering: Filtering, event: FilterEventView) -> bool {
    match filtering {
        Filtering::Paging => event is Paged || event is EngineFailed,
        Filtering::Compiling { .. } => event is Compiled || event is Malformed,
        Filtering::ReadingBaseline => event is BaselineRead || event is Malformed,
        Filtering::Reconciling => event is Reconciled || event is EngineFailed,
        Filtering::Querying => event is Queried || event is EngineFailed,
        Filtering::Finished => false,
    }
}

/// What the page is told of a query.
pub open spec fn query_told(revision: u64, result: QueryResultView) -> FilterResultView {
    let revision = decimal_text(revision as nat);
    match result {
        QueryResultView::Complete(keys) => FilterResultView::Complete {
            revision,
            keys,
            optimistic: false,
        },
        QueryResultView::Optimistic(keys) => FilterResultView::Complete {
            revision,
            keys,
            optimistic: true,
        },
        QueryResultView::Incomplete => FilterResultView::Incomplete { revision },
    }
}

/// What a request does with an event.
pub open spec fn filter_stepped(filtering: Filtering, event: FilterEventView) -> (
    Filtering,
    FilterActionView,
) {
    match (filtering, event) {
        (_, FilterEventView::EngineFailed(error)) => (
            Filtering::Finished,
            FilterActionView::Fail(rejection(error)),
        ),
        (_, FilterEventView::Malformed(message)) => (
            Filtering::Finished,
            FilterActionView::Fail(CacheErrorView::Failed(message)),
        ),
        (_, FilterEventView::Paged(page)) => (
            Filtering::Finished,
            FilterActionView::AnswerPage { page },
        ),
        (Filtering::Compiling { baseline, most }, FilterEventView::Compiled { supported }) => {
            if !supported {
                (Filtering::Finished, FilterActionView::Answer(FilterResultView::Unsupported))
            } else {
                match baseline {
                    Some(length) => if length > most {
                        (
                            Filtering::Finished,
                            FilterActionView::Fail(
                                CacheErrorView::Failed("reconciliation baseline is too large"@),
                            ),
                        )
                    } else {
                        (Filtering::ReadingBaseline, FilterActionView::ReadBaseline)
                    },
                    None => (Filtering::Querying, FilterActionView::Query),
                }
            }
        },
        (_, FilterEventView::BaselineRead) => (Filtering::Reconciling, FilterActionView::Reconcile),
        (_, FilterEventView::Reconciled { revision, reconciliation }) => (
            Filtering::Finished,
            FilterActionView::Answer(
                FilterResultView::Reconciled {
                    revision: decimal_text(revision as nat),
                    keys: reconciliation.keys,
                    retained_keys: reconciliation.retained_keys,
                    optimistic: reconciliation.optimistic,
                },
            ),
        ),
        (_, FilterEventView::Queried { revision, result }) => (
            Filtering::Finished,
            FilterActionView::Answer(query_told(revision, result)),
        ),
        _ => (Filtering::Finished, FilterActionView::Compile),
    }
}

/// The cache after a request took an event in.
pub open spec fn after_filter_event<E>(
    state: CacheState<E>,
    event: FilterEventView,
) -> CacheState<E> {
    match event {
        FilterEventView::EngineFailed(error) => after_failure(state, error),
        _ => state,
    }
}

impl Filtering {
    /// Begin a request. One that asks for a mail page is answered with that
    /// page alone.
    pub fn start(mail: bool, baseline: Option<usize>, most: usize) -> (begun: (
        Filtering,
        FilterAction,
    ))
        ensures
            begun.0 == (if mail {
                Filtering::Paging
            } else {
                Filtering::Compiling { baseline, most }
            }),
            begun.1.deep_view() == (if mail {
                FilterActionView::Page
            } else {
                FilterActionView::Compile
            }),
    {
        if mail {
            (Filtering::Paging, FilterAction::Page)
        } else {
            (Filtering::Compiling { baseline, most }, FilterAction::Compile)
        }
    }

    /// Whether an event answers what the request is waiting for.
    pub fn expects(&self, event: &FilterEvent) -> (expected: bool)
        ensures
            expected == filter_expects(*self, event.deep_view()),
    {
        match self {
            Filtering::Paging => matches!(
                event,
                FilterEvent::Paged(_) | FilterEvent::EngineFailed(_)
            ),
            Filtering::Compiling { .. } => matches!(
                event,
                FilterEvent::Compiled { .. } | FilterEvent::Malformed(_)
            ),
            Filtering::ReadingBaseline => matches!(
                event,
                FilterEvent::BaselineRead | FilterEvent::Malformed(_)
            ),
            Filtering::Reconciling => matches!(
                event,
                FilterEvent::Reconciled { .. } | FilterEvent::EngineFailed(_)
            ),
            Filtering::Querying => matches!(
                event,
                FilterEvent::Queried { .. } | FilterEvent::EngineFailed(_)
            ),
            Filtering::Finished => false,
        }
    }

    /// Take in what came of the last action.
    pub fn step<E>(self, state: &mut CacheState<E>, event: FilterEvent) -> (next: (
        Filtering,
        FilterAction,
    ))
        requires
            filter_expects(self, event.deep_view()),
        ensures
            *final(state) == after_filter_event(*old(state), event.deep_view()),
            (next.0, next.1.deep_view()) == filter_stepped(self, event.deep_view()),
    {
        match event {
            FilterEvent::EngineFailed(error) => (
                Filtering::Finished,
                FilterAction::Fail(state.engine_error(error)),
            ),
            FilterEvent::Malformed(message) => (
                Filtering::Finished,
                FilterAction::Fail(CacheError::Failed(message)),
            ),
            FilterEvent::Paged(page) => (Filtering::Finished, FilterAction::AnswerPage { page }),
            FilterEvent::Compiled { supported } => match self {
                Filtering::Compiling { baseline, most } => if !supported {
                    (Filtering::Finished, FilterAction::Answer(JsEntityFilterResult::Unsupported))
                } else {
                    match baseline {
                        Some(length) => if length > most {
                            (
                                Filtering::Finished,
                                FilterAction::Fail(
                                    CacheError::Failed(
                                        "reconciliation baseline is too large".to_owned(),
                                    ),
                                ),
                            )
                        } else {
                            (Filtering::ReadingBaseline, FilterAction::ReadBaseline)
                        },
                        None => (Filtering::Querying, FilterAction::Query),
                    }
                },
                _ => (Filtering::Finished, FilterAction::Compile),
            },
            FilterEvent::BaselineRead => (Filtering::Reconciling, FilterAction::Reconcile),
            FilterEvent::Reconciled { revision, reconciliation } => (
                Filtering::Finished,
                FilterAction::Answer(
                    JsEntityFilterResult::Reconciled {
                        revision: decimal(revision),
                        keys: reconciliation.keys,
                        retained_keys: reconciliation.retained_keys,
                        optimistic: reconciliation.optimistic,
                    },
                ),
            ),
            FilterEvent::Queried { revision, result } => {
                let revision: String = decimal(revision);
                let told = match result {
                    PredicateQueryResult::Complete(keys) => JsEntityFilterResult::Complete {
                        revision,
                        keys,
                        optimistic: false,
                    },
                    PredicateQueryResult::Optimistic(keys) => JsEntityFilterResult::Complete {
                        revision,
                        keys,
                        optimistic: true,
                    },
                    PredicateQueryResult::Incomplete => JsEntityFilterResult::Incomplete {
                        revision,
                    },
                };
                (Filtering::Finished, FilterAction::Answer(told))
            },
        }
    }
}

/// A malformed request never latches the cache, and a storage that needs a
/// reset always does, whichever step finds out.
pub proof fn law_only_storage_latches_a_filter<E>(
    state: CacheState<E>,
    filtering: Filtering,
    event: FilterEventView,
)
    requires
        filter_expects(filtering, event),
        !state.reset_required,
    ensures
        after_filter_event(state, event).reset_required <==> filter_stepped(filtering, event).1
            == FilterActionView::Fail(CacheErrorView::ResetRequired),
{
}

} // verus!

//! Storing a response: which projections are gathered for it, and when.
//!
//! A write gathers the projections its response states, then those that
//! follow from what is stored. A response under another identity than the
//! bound one resets the cache, so nothing stored may find its way into it.

use crate::cache::state::{
    after_failure, can_reuse_stored_identity, rejection, reusable, CacheError, CacheErrorView,
    CacheState, EngineError, EngineErrorView,
};
use crate::text::Text;
use vstd::prelude::*;

verus! {

/// Where a write is.
#[derive(Debug, PartialEq, Eq)]
pub enum WritePhase {
    /// The response's own projections are being read.
    Projecting,
    /// The engine is asked which identity is bound.
    Identifying,
    /// Notification projections are being derived from what is stored.
    Notifying,
    /// Mail projections are being derived.
    ProjectingMail,
    /// Everything is gathered.
    Gathered,
    /// The write failed.
    Failed,
}

/// A write in progress, over the projections gathered so far.
#[derive(Debug, PartialEq, Eq)]
pub struct Writing<P> {
    /// The identity the response was observed under. A settled mutation and an
    /// optimistic response have none.
    pub identity: Option<String>,
    /// The projections so far.
    pub gathered: Vec<P>,
    /// Where it is.
    pub phase: WritePhase,
}

/// What the host is to do next.
#[derive(Debug, PartialEq, Eq)]
pub enum WriteAction<P> {
    /// Read the response's own projections.
    Project,
    /// Ask the engine which identity is bound.
    AskIdentity,
    /// Derive notification projections from what is stored.
    ProjectNotifications,
    /// Derive mail projections.
    ProjectMail {
        /// What is stored may be read.
        reuse_stored_identity: bool,
    },
    /// Store the response with its projections.
    Store {
        /// Everything gathered, in order.
        projections: Vec<P>,
    },
    /// The write failed.
    Fail(CacheError),
}

/// What came of an action.
#[derive(Debug, PartialEq, Eq)]
pub enum WriteEvent<P> {
    /// Projections were read or derived.
    Projected(Vec<P>),
    /// They could not be.
    Unprojected(String),
    /// The bound identity.
    Bound(Option<String>),
    /// The engine failed.
    EngineFailed(EngineError),
}

/// The mathematical model of [`Writing`].
pub struct WritingView<P> {
    pub identity: Option<Text>,
    pub gathered: Seq<P>,
    pub phase: WritePhase,
}

/// The mathematical model of [`WriteAction`].
pub enum WriteActionView<P> {
    Project,
    AskIdentity,
    ProjectNotifications,
    ProjectMail { reuse_stored_identity: bool },
    Store { projections: Seq<P> },
    Fail(CacheErrorView),
}

/// The mathematical model of [`WriteEvent`].
pub enum WriteEventView<P> {
    Projected(Seq<P>),
    Unprojected(Text),
    Bound(Option<Text>),
    EngineFailed(EngineErrorView),
}

impl<P> View for Writing<P> {
    type V = WritingView<P>;

    open spec fn view(&self) -> WritingView<P> {
        WritingView {
            identity: self.identity.deep_view(),
            gathered: self.gathered@,
            phase: self.phase,
        }
    }
}

impl<P> View for WriteAction<P> {
    type V = WriteActionView<P>;

    open spec fn view(&self) -> WriteActionView<P> {
        match self {
            WriteAction::Project => WriteActionView::Project,
            WriteAction::AskIdentity => WriteActionView::AskIdentity,
            WriteAction::ProjectNotifications => WriteActionView::ProjectNotifications,
            WriteAction::ProjectMail { reuse_stored_identity } => WriteActionView::ProjectMail {
                reuse_stored_identity: *reuse_stored_identity,
            },
            WriteAction::Store { projections } => WriteActionView::Store {
                projections: projections@,
            },
            WriteAction::Fail(error) => WriteActionView::Fail(error.deep_view()),
        }
    }
}

impl<P> View for WriteEvent<P> {
    type V = WriteEventView<P>;

    open spec fn view(&self) -> WriteEventView<P> {
        match self {
            WriteEvent::Projected(projections) => WriteEventView::Projected(projections@),
            WriteEvent::Unprojected(message) => WriteEventView::Unprojected(message@),
            WriteEvent::Bound(identity) => WriteEventView::Bound(identity.deep_view()),
            WriteEvent::EngineFailed(error) => WriteEventView::EngineFailed(error.deep_view()),
        }
    }
}

/// Whether an event answers what a write is waiting for.
pub open spec fn write_expects<P>(writing: WritingView<P>, event: WriteEventView<P>) -> bool {
    match writing.phase {
        WritePhase::Projecting | WritePhase::Notifying | WritePhase::ProjectingMail => event
            is Projected || event is Unprojected,
        WritePhase::Identifying => writing.identity is Some && (event is Bound || event
            is EngineFailed),
        WritePhase::Gathered | WritePhase::Failed => false,
    }
}

/// A write that has moved on.
pub open spec fn write_at<P>(
    writing: WritingView<P>,
    gathered: Seq<P>,
    phase: WritePhase,
) -> WritingView<P> {
    WritingView { identity: writing.identity, gathered, phase }
}

/// What a write does with an event. Without an identity to compare, the bound
/// one is not asked for.
pub open spec fn write_stepped<P>(writing: WritingView<P>, event: WriteEventView<P>) -> (
    WritingView<P>,
    WriteActionView<P>,
) {
    match (writing.phase, event) {
        (_, WriteEventView::Unprojected(message)) => (
            write_at(writing, writing.gathered, WritePhase::Failed),
            WriteActionView::Fail(CacheErrorView::Failed(message)),
        ),
        (_, WriteEventView::EngineFailed(error)) => (
            write_at(writing, writing.gathered, WritePhase::Failed),
            WriteActionView::Fail(rejection(error)),
        ),
        (WritePhase::Projecting, WriteEventView::Projected(projections)) => {
            let gathered = writing.gathered + projections;
            if writing.identity is Some {
                (write_at(writing, gathered, WritePhase::Identifying), WriteActionView::AskIdentity)
            } else {
                (
                    write_at(writing, gathered, WritePhase::Notifying),
                    WriteActionView::ProjectNotifications,
                )
            }
        },
        (WritePhase::Identifying, WriteEventView::Bound(bound)) => if reusable(
            writing.identity,
            bound,
        ) {
            (
                write_at(writing, writing.gathered, WritePhase::Notifying),
                WriteActionView::ProjectNotifications,
            )
        } else {
            (
                write_at(writing, writing.gathered, WritePhase::ProjectingMail),
                WriteActionView::ProjectMail { reuse_stored_identity: false },
            )
        },
        (WritePhase::Notifying, WriteEventView::Projected(projections)) => (
            write_at(writing, writing.gathered + projections, WritePhase::ProjectingMail),
            WriteActionView::ProjectMail { reuse_stored_identity: true },
        ),
        (WritePhase::ProjectingMail, WriteEventView::Projected(projections)) => {
            let gathered = writing.gathered + projections;
            (
                write_at(writing, Seq::empty(), WritePhase::Gathered),
                WriteActionView::Store { projections: gathered },
            )
        },
        _ => (write_at(writing, writing.gathered, WritePhase::Failed), WriteActionView::Project),
    }
}

/// The cache after a write took an event in.
pub open spec fn after_write_event<E, P>(
    state: CacheState<E>,
    event: WriteEventView<P>,
) -> CacheState<E> {
    match event {
        WriteEventView::EngineFailed(error) => after_failure(state, error),
        _ => state,
    }
}

impl<P> Writing<P> {
    /// Begin a write.
    pub fn start(identity: Option<String>) -> (begun: (Writing<P>, WriteAction<P>))
        ensures
            begun.0@ == (WritingView::<P> {
                identity: identity.deep_view(),
                gathered: Seq::empty(),
                phase: WritePhase::Projecting,
            }),
            begun.1@ == WriteActionView::<P>::Project,
    {
        (
            Writing { identity, gathered: Vec::new(), phase: WritePhase::Projecting },
            WriteAction::Project,
        )
    }

    /// Whether an event answers what the write is waiting for.
    pub fn expects(&self, event: &WriteEvent<P>) -> (expected: bool)
        ensures
            expected == write_expects(self@, event@),
    {
        match self.phase {
            WritePhase::Projecting | WritePhase::Notifying | WritePhase::ProjectingMail => {
                matches!(event, WriteEvent::Projected(_) | WriteEvent::Unprojected(_))
            },
            WritePhase::Identifying => self.identity.is_some() && matches!(
                event,
                WriteEvent::Bound(_) | WriteEvent::EngineFailed(_)
            ),
            WritePhase::Gathered | WritePhase::Failed => false,
        }
    }

    /// Take in what came of the last action.
    pub fn step<E>(self, state: &mut CacheState<E>, event: WriteEvent<P>) -> (next: (
        Writing<P>,
        WriteAction<P>,
    ))
        requires
            write_expects(self@, event@),
        ensures
            *final(state) == after_write_event(*old(state), event@),
            (next.0@, next.1@) == write_stepped(self@, event@),
    {
        let mut gathered: Vec<P> = self.gathered;
        let identity = self.identity;
        match event {
            WriteEvent::Unprojected(message) => (
                Writing { identity, gathered, phase: WritePhase::Failed },
                WriteAction::Fail(CacheError::Failed(message)),
            ),
            WriteEvent::EngineFailed(error) => {
                let rejected = state.engine_error(error);
                (
                    Writing { identity, gathered, phase: WritePhase::Failed },
                    WriteAction::Fail(rejected),
                )
            },
            WriteEvent::Bound(bound) => {
                let reuse: bool = can_reuse_stored_identity(&identity, &bound);
                if reuse {
                    (
                        Writing { identity, gathered, phase: WritePhase::Notifying },
                        WriteAction::ProjectNotifications,
                    )
                } else {
                    (
                        Writing { identity, gathered, phase: WritePhase::ProjectingMail },
                        WriteAction::ProjectMail { reuse_stored_identity: false },
                    )
                }
            },
            WriteEvent::Projected(projections) => {
                let mut projections: Vec<P> = projections;
                gathered.append(&mut projections);
                match self.phase {
                    WritePhase::Projecting => if identity.is_some() {
                        (
                            Writing { identity, gathered, phase: WritePhase::Identifying },
                            WriteAction::AskIdentity,
                        )
                    } else {
                        (
                            Writing { identity, gathered, phase: WritePhase::Notifying },
                            WriteAction::ProjectNotifications,
                        )
                    },
                    WritePhase::Notifying => (
                        Writing { identity, gathered, phase: WritePhase::ProjectingMail },
                        WriteAction::ProjectMail { reuse_stored_identity: true },
                    ),
                    _ => (
                        Writing { identity, gathered: Vec::new(), phase: WritePhase::Gathered },
                        WriteAction::Store { projections: gathered },
                    ),
                }
            },
        }
    }
}

/// A response under another identity than the bound one reads nothing that is
/// stored: no notification projections are derived for it, and the mail
/// projections are told so.
pub proof fn law_another_identity_reads_nothing_stored<P>(
    writing: WritingView<P>,
    bound: Text,
    mail: Seq<P>,
)
    requires
        writing.phase == WritePhase::Identifying,
        writing.identity is Some,
        writing.identity != Some(bound),
    ensures
        ({
            let told = write_stepped(writing, WriteEventView::Bound(Some(bound)));
            &&& told.1 == WriteActionView::<P>::ProjectMail { reuse_stored_identity: false }
            &&& write_stepped(told.0, WriteEventView::Projected(mail)).1
                == WriteActionView::Store { projections: writing.gathered + mail }
        }),
{
}

/// A response under the bound identity, the first one, or none is stored with
/// its own projections, the notifications', and the mail's, in that order.
pub proof fn law_a_write_stores_what_was_gathered<P>(
    identity: Option<Text>,
    bound: Option<Text>,
    own: Seq<P>,
    notifications: Seq<P>,
    mail: Seq<P>,
)
    requires
        reusable(identity, bound),
    ensures
        ({
            let start = WritingView {
                identity,
                gathered: Seq::<P>::empty(),
                phase: WritePhase::Projecting,
            };
            let projected = write_stepped(start, WriteEventView::Projected(own));
            let asked = if identity is Some {
                write_stepped(projected.0, WriteEventView::Bound(bound))
            } else {
                projected
            };
            let notified = write_stepped(asked.0, WriteEventView::Projected(notifications));
            &&& asked.1 == WriteActionView::<P>::ProjectNotifications
            &&& notified.1 == WriteActionView::<P>::ProjectMail { reuse_stored_identity: true }
            &&& write_stepped(notified.0, WriteEventView::Projected(mail)).1
                == WriteActionView::Store { projections: own + notifications + mail }
        }),
{
    assert(Seq::<P>::empty() + own =~= own);
}

} // verus!

//! Opening, resetting and closing the cache's storage.
//!
//! The storage is a pair of files behind an exclusive owner lock. Whatever is
//! incomplete or incompatible is disposable: it is reset once and opened
//! again, and only a second refusal is reported. The host performs each action
//! and hands back what came of it.

use crate::cache::state::{
    after_failure, callable, lost, refusal, CacheError, CacheErrorView, CacheState,
    EngineErrorView, ResetReason, StorageError,
};
use crate::text::Text;
use vstd::prelude::*;

verus! {

/// How a cache came to be open.
#[derive(Clone, Copy, Debug, PartialEq, Eq, Structural)]
pub enum CacheOpenOutcome {
    /// The stored cache was opened.
    OpenedExisting,
    /// There was no cache; a new one was opened.
    OpenedNew,
    /// The stored cache was another build's and was reset.
    ResetIncompatible,
    /// The stored cache was corrupt and was reset.
    ResetCorrupt,
    /// The storage could not be relied on and was reset.
    ResetStorageUncertain,
}

/// What the storage says of a first opening.
#[derive(Clone, Copy, Debug, PartialEq, Eq, Structural)]
pub enum StorageOpenOutcome {
    /// There was something stored.
    OpenedExisting,
    /// There was nothing stored.
    OpenedNew,
}

/// The name an outcome goes by.
pub open spec fn outcome_label(outcome: CacheOpenOutcome) -> Text {
    match outcome {
        CacheOpenOutcome::OpenedExisting => "opened-existing"@,
        CacheOpenOutcome::OpenedNew => "opened-new"@,
        CacheOpenOutcome::ResetIncompatible => "reset-incompatible"@,
        CacheOpenOutcome::ResetCorrupt => "reset-corrupt"@,
        CacheOpenOutcome::ResetStorageUncertain => "reset-storage-uncertain"@,
    }
}

/// The outcome of a storage that opened as it was.
pub open spec fn plain_outcome(outcome: StorageOpenOutcome) -> CacheOpenOutcome {
    match outcome {
        StorageOpenOutcome::OpenedExisting => CacheOpenOutcome::OpenedExisting,
        StorageOpenOutcome::OpenedNew => CacheOpenOutcome::OpenedNew,
    }
}

/// The outcome of a storage that had to be reset for a reason.
pub open spec fn reset_outcome(reason: ResetReason) -> CacheOpenOutcome {
    match reason {
        ResetReason::Compatibility => CacheOpenOutcome::ResetIncompatible,
        ResetReason::Corruption
        | ResetReason::Codec
        | ResetReason::Invariant
        | ResetReason::Integrity => CacheOpenOutcome::ResetCorrupt,
        ResetReason::StorageFull
        | ResetReason::TransactionOutcomeUncertain
        | ResetReason::Io => CacheOpenOutcome::ResetStorageUncertain,
    }
}

impl CacheOpenOutcome {
    /// The name the outcome goes by.
    pub fn as_str(self) -> (label: &'static str)
        ensures
            label@ == outcome_label(self),
    {
        match self {
            CacheOpenOutcome::OpenedExisting => "opened-existing",
            CacheOpenOutcome::OpenedNew => "opened-new",
            CacheOpenOutcome::ResetIncompatible => "reset-incompatible",
            CacheOpenOutcome::ResetCorrupt => "reset-corrupt",
            CacheOpenOutcome::ResetStorageUncertain => "reset-storage-uncertain",
        }
    }

    /// The outcome of a storage that opened as it was.
    pub fn from_storage(outcome: StorageOpenOutcome) -> (opened: CacheOpenOutcome)
        ensures
            opened == plain_outcome(outcome),
    {
        match outcome {
            StorageOpenOutcome::OpenedExisting => CacheOpenOutcome::OpenedExisting,
            StorageOpenOutcome::OpenedNew => CacheOpenOutcome::OpenedNew,
        }
    }
}

/// The outcome of a storage that had to be reset.
pub fn recovery_outcome(reason: ResetReason) -> (outcome: CacheOpenOutcome)
    ensures
        outcome == reset_outcome(reason),
{
    match reason {
        ResetReason::Compatibility => CacheOpenOutcome::ResetIncompatible,
        ResetReason::Corruption
        | ResetReason::Codec
        | ResetReason::Invariant
        | ResetReason::Integrity => CacheOpenOutcome::ResetCorrupt,
        ResetReason::StorageFull
        | ResetReason::TransactionOutcomeUncertain
        | ResetReason::Io => CacheOpenOutcome::ResetStorageUncertain,
    }
}

/// What the storage is worked on for.
#[derive(Clone, Copy, Debug, PartialEq, Eq, Structural)]
pub enum Goal {
    /// Open the cache.
    Open {
        /// Wipe whatever is stored first.
        wiped: bool,
    },
    /// Reset an open cache and open it again under the same lock.
    Restart,
    /// Close an open cache and let go of the lock.
    Close,
    /// Wipe a closed cache.
    Destroy,
    /// Damage a closed cache, for browser tests.
    Disturb,
}

/// What follows a physical reset.
#[derive(Debug, PartialEq, Eq)]
pub enum AfterReset {
    /// Open what was reset.
    Reopen {
        /// The outcome to report, when the reset used up the first attempt.
        recovered: Option<CacheOpenOutcome>,
    },
    /// Let go of the lock.
    Release {
        /// The error to report then.
        error: Option<CacheError>,
    },
}

/// Where the work on the storage is.
#[derive(Debug, PartialEq, Eq)]
pub enum StoragePhase {
    /// The owner lock is being acquired.
    Acquiring,
    /// What is stored is being wiped.
    Wiping,
    /// The files are being opened.
    Opening {
        /// The outcome of the reset that used up the first attempt.
        recovered: Option<CacheOpenOutcome>,
    },
    /// The database is being connected.
    Connecting {
        /// The outcome of the reset that used up the first attempt.
        recovered: Option<CacheOpenOutcome>,
    },
    /// The schema is being validated or created.
    Initializing {
        /// The outcome of the reset that used up the first attempt.
        recovered: Option<CacheOpenOutcome>,
    },
    /// The stored data is being damaged.
    Mutating,
    /// The database and its files are being closed.
    ClosingFiles {
        /// Reset even what closes healthy.
        force_reset: bool,
    },
    /// The closed files are being kept.
    Preserving {
        /// The error to report after releasing.
        error: Option<CacheError>,
    },
    /// The closed files are being reset.
    Resetting {
        /// What follows.
        after: AfterReset,
    },
    /// The lock is being released.
    Releasing {
        /// The error to report then.
        error: Option<CacheError>,
    },
    /// The work is over.
    Finished,
}

/// Work on the storage in progress.
#[derive(Debug, PartialEq, Eq)]
pub struct StorageTask {
    /// What it is for.
    pub goal: Goal,
    /// Where it is.
    pub phase: StoragePhase,
}

/// What the host is to do next.
#[derive(Debug, PartialEq, Eq)]
pub enum StorageAction {
    /// Acquire the owner lock.
    Acquire,
    /// Wipe what is stored.
    Wipe,
    /// Open the files.
    Open,
    /// Connect the database.
    Connect,
    /// Validate or create the schema.
    Initialize,
    /// Damage the stored data.
    Mutate,
    /// Close the database and its files.
    CloseFiles,
    /// Keep the closed files.
    Preserve,
    /// Reset the closed files.
    Reset,
    /// Release the owner lock.
    Release,
    /// Done: the storage is open.
    Opened(CacheOpenOutcome),
    /// Done: the lock is released.
    Complete,
    /// Done: the work failed.
    Fail(CacheError),
}

/// What came of an action.
#[derive(Debug, PartialEq, Eq)]
pub enum StorageEvent {
    /// It succeeded.
    Done,
    /// It failed.
    Failed(String),
    /// The files are open.
    Ready,
    /// The files, or the closed database, can only be reset.
    NeedsReset,
    /// The files did not open.
    OpenFailed {
        /// What went wrong.
        message: String,
        /// The lock is still held.
        owner_left: bool,
    },
    /// The storage is initialized.
    Initialized(StorageOpenOutcome),
    /// The storage refused to initialize.
    Rejected(StorageError),
    /// The database closed healthy.
    Healthy,
}

/// The mathematical model of [`AfterReset`].
pub enum AfterResetView {
    Reopen { recovered: Option<CacheOpenOutcome> },
    Release { error: Option<CacheErrorView> },
}

/// The mathematical model of [`StoragePhase`].
pub enum PhaseView {
    Acquiring,
    Wiping,
    Opening { recovered: Option<CacheOpenOutcome> },
    Connecting { recovered: Option<CacheOpenOutcome> },
    Initializing { recovered: Option<CacheOpenOutcome> },
    Mutating,
    ClosingFiles { force_reset: bool },
    Preserving { error: Option<CacheErrorView> },
    Resetting { after: AfterResetView },
    Releasing { error: Option<CacheErrorView> },
    Finished,
}

/// The mathematical model of [`StorageTask`].
pub struct TaskView {
    pub goal: Goal,
    pub phase: PhaseView,
}

/// The mathematical model of [`StorageAction`].
pub enum StorageActionView {
    Acquire,
    Wipe,
    Open,
    Connect,
    Initialize,
    Mutate,
    CloseFiles,
    Preserve,
    Reset,
    Release,
    Opened(CacheOpenOutcome),
    Complete,
    Fail(CacheErrorView),
}

/// The mathematical model of [`StorageEvent`].
pub enum StorageEventView {
    Done,
    Failed(Text),
    Ready,
    NeedsReset,
    OpenFailed { message: Text, owner_left: bool },
    Initialized(StorageOpenOutcome),
    Rejected { message: Text, reset: Option<ResetReason> },
    Healthy,
}

impl DeepView for AfterReset {
    type V = AfterResetView;

    open spec fn deep_view(&self) -> AfterResetView {
        match self {
            AfterReset::Reopen { recovered } => AfterResetView::Reopen { recovered: *recovered },
            AfterReset::Release { error } => AfterResetView::Release { error: error.deep_view() },
        }
    }
}

impl DeepView for StoragePhase {
    type V = PhaseView;

    open spec fn deep_view(&self) -> PhaseView {
        match self {
            StoragePhase::Acquiring => PhaseView::Acquiring,
            StoragePhase::Wiping => PhaseView::Wiping,
            StoragePhase::Opening { recovered } => PhaseView::Opening { recovered: *recovered },
            StoragePhase::Connecting { recovered } => PhaseView::Connecting {
                recovered: *recovered,
            },
            StoragePhase::Initializing { recovered } => PhaseView::Initializing {
                recovered: *recovered,
            },
            StoragePhase::Mutating => PhaseView::Mutating,
            StoragePhase::ClosingFiles { force_reset } => PhaseView::ClosingFiles {
                force_reset: *force_reset,
            },
            StoragePhase::Preserving { error } => PhaseView::Preserving {
                error: error.deep_view(),
            },
            StoragePhase::Resetting { after } => PhaseView::Resetting { after: after.deep_view() },
            StoragePhase::Releasing { error } => PhaseView::Releasing { error: error.deep_view() },
            StoragePhase::Finished => PhaseView::Finished,
        }
    }
}

impl DeepView for StorageTask {
    type V = TaskView;

    open spec fn deep_view(&self) -> TaskView {
        TaskView { goal: self.goal, phase: self.phase.deep_view() }
    }
}

impl DeepView for StorageAction {
    type V = StorageActionView;

    open spec fn deep_view(&self) -> StorageActionView {
        match self {
            StorageAction::Acquire => StorageActionView::Acquire,
            StorageAction::Wipe => StorageActionView::Wipe,
            StorageAction::Open => StorageActionView::Open,
            StorageAction::Connect => StorageActionView::Connect,
            StorageAction::Initialize => StorageActionView::Initialize,
            StorageAction::Mutate => StorageActionView::Mutate,
            StorageAction::CloseFiles => StorageActionView::CloseFiles,
            StorageAction::Preserve => StorageActionView::Preserve,
            StorageAction::Reset => StorageActionView::Reset,
            StorageAction::Release => StorageActionView::Release,
            StorageAction::Opened(outcome) => StorageActionView::Opened(*outcome),
            StorageAction::Complete => StorageActionView::Complete,
            StorageAction::Fail(error) => StorageActionView::Fail(error.deep_view()),
        }
    }
}

impl DeepView for StorageEvent {
    type V = StorageEventView;

    open spec fn deep_view(&self) -> StorageEventView {
        match self {
            StorageEvent::Done => StorageEventView::Done,
            StorageEvent::Failed(message) => StorageEventView::Failed(message@),
            StorageEvent::Ready => StorageEventView::Ready,
            StorageEvent::NeedsReset => StorageEventView::NeedsReset,
            StorageEvent::OpenFailed { message, owner_left } => StorageEventView::OpenFailed {
                message: message@,
                owner_left: *owner_left,
            },
            StorageEvent::Initialized(outcome) => StorageEventView::Initialized(*outcome),
            StorageEvent::Rejected(error) => StorageEventView::Rejected {
                message: error.message@,
                reset: error.reset,
            },
            StorageEvent::Healthy => StorageEventView::Healthy,
        }
    }
}

/// Whether an event answers what a phase is waiting for.
pub open spec fn phase_expects(phase: PhaseView, event: StorageEventView) -> bool {
    match phase {
        PhaseView::Opening { .. } => event is Ready || event is NeedsReset || event is OpenFailed,
        PhaseView::Initializing { .. } => event is Initialized || event is Rejected,
        PhaseView::ClosingFiles { .. } => event is Healthy || event is NeedsReset
            || event is Failed,
        PhaseView::Finished => false,
        _ => event is Done || event is Failed,
    }
}

/// The action a phase waits for.
pub open spec fn phase_action(phase: PhaseView) -> StorageActionView {
    match phase {
        PhaseView::Acquiring => StorageActionView::Acquire,
        PhaseView::Wiping => StorageActionView::Wipe,
        PhaseView::Opening { .. } => StorageActionView::Open,
        PhaseView::Connecting { .. } => StorageActionView::Connect,
        PhaseView::Initializing { .. } => StorageActionView::Initialize,
        PhaseView::Mutating => StorageActionView::Mutate,
        PhaseView::ClosingFiles { .. } => StorageActionView::CloseFiles,
        PhaseView::Preserving { .. } => StorageActionView::Preserve,
        PhaseView::Resetting { .. } => StorageActionView::Reset,
        PhaseView::Releasing { .. } => StorageActionView::Release,
        PhaseView::Finished => StorageActionView::Complete,
    }
}

/// The error of a call that failed with a message.
pub open spec fn failed(message: Text) -> CacheErrorView {
    CacheErrorView::Failed(message)
}

/// What follows the reset of files that opened only to be reset.
pub open spec fn after_unusable_files(
    goal: Goal,
    recovered: Option<CacheOpenOutcome>,
) -> AfterResetView {
    if goal is Disturb {
        AfterResetView::Release {
            error: Some(failed("browser-test storage was already reset-required"@)),
        }
    } else if recovered is None {
        AfterResetView::Reopen { recovered: Some(CacheOpenOutcome::ResetStorageUncertain) }
    } else {
        AfterResetView::Release { error: Some(CacheErrorView::ResetRequired) }
    }
}

/// What a storage that refuses to initialize is put through. The first refusal
/// is recovered from when a reset can repair it; the second is reported, and
/// leaves nothing behind either way.
pub open spec fn after_rejection(
    goal: Goal,
    recovered: Option<CacheOpenOutcome>,
    message: Text,
    reset: Option<ResetReason>,
) -> PhaseView {
    if goal is Disturb {
        PhaseView::Resetting {
            after: AfterResetView::Release {
                error: Some(failed("browser-test storage validation failed"@)),
            },
        }
    } else if recovered is Some {
        PhaseView::Resetting {
            after: AfterResetView::Release {
                error: Some(
                    if reset is Some {
                        CacheErrorView::ResetRequired
                    } else {
                        failed("cache storage initialization failed"@)
                    },
                ),
            },
        }
    } else {
        match reset {
            None => PhaseView::Preserving { error: Some(failed(message)) },
            Some(reason) => PhaseView::Resetting {
                after: AfterResetView::Reopen { recovered: Some(reset_outcome(reason)) },
            },
        }
    }
}

/// What follows the reset of files that were open until now.
pub open spec fn after_closed_reset(goal: Goal, healthy: bool) -> AfterResetView {
    match goal {
        Goal::Restart => AfterResetView::Reopen { recovered: None },
        Goal::Disturb if !healthy => AfterResetView::Release {
            error: Some(failed("browser-test mutation unexpectedly required reset"@)),
        },
        _ => AfterResetView::Release { error: None },
    }
}

/// How an open storage is reported.
pub open spec fn opened_as(
    goal: Goal,
    recovered: Option<CacheOpenOutcome>,
    outcome: StorageOpenOutcome,
) -> CacheOpenOutcome {
    if goal == (Goal::Open { wiped: true }) {
        CacheOpenOutcome::ResetStorageUncertain
    } else {
        match recovered {
            Some(recovered) => recovered,
            None => plain_outcome(outcome),
        }
    }
}

/// Either the next phase of the work, or how it ended.
pub enum Move {
    To(PhaseView),
    End(StorageActionView),
}

/// What the work does with an event.
pub open spec fn task_move(task: TaskView, event: StorageEventView) -> Move {
    let goal = task.goal;
    match (task.phase, event) {
        (_, StorageEventView::Failed(message)) => Move::End(
            StorageActionView::Fail(failed(message)),
        ),
        (PhaseView::Acquiring, _) => if goal == (Goal::Open { wiped: true }) || goal is Destroy {
            Move::To(PhaseView::Wiping)
        } else {
            Move::To(PhaseView::Opening { recovered: None })
        },
        (PhaseView::Wiping, _) => if goal is Destroy {
            Move::To(PhaseView::Releasing { error: None })
        } else {
            Move::To(PhaseView::Opening { recovered: None })
        },
        (
            PhaseView::Opening { .. },
            StorageEventView::OpenFailed { message, owner_left },
        ) => if owner_left {
            Move::To(PhaseView::Releasing { error: Some(failed(message)) })
        } else {
            Move::End(StorageActionView::Fail(failed(message)))
        },
        (PhaseView::Opening { recovered }, StorageEventView::Ready) => Move::To(
            PhaseView::Connecting { recovered },
        ),
        (PhaseView::Opening { recovered }, _) => Move::To(
            PhaseView::Resetting { after: after_unusable_files(goal, recovered) },
        ),
        (PhaseView::Connecting { recovered }, _) => Move::To(PhaseView::Initializing { recovered }),
        (
            PhaseView::Initializing { recovered },
            StorageEventView::Rejected { message, reset },
        ) => Move::To(after_rejection(goal, recovered, message, reset)),
        (
            PhaseView::Initializing { recovered },
            StorageEventView::Initialized(outcome),
        ) => if goal is Disturb {
            Move::To(PhaseView::Mutating)
        } else {
            Move::End(StorageActionView::Opened(opened_as(goal, recovered, outcome)))
        },
        (PhaseView::Mutating, _) => Move::To(PhaseView::ClosingFiles { force_reset: false }),
        (PhaseView::ClosingFiles { force_reset }, StorageEventView::Healthy) => if force_reset {
            Move::To(PhaseView::Resetting { after: after_closed_reset(goal, true) })
        } else {
            Move::To(PhaseView::Preserving { error: None })
        },
        (PhaseView::ClosingFiles { .. }, _) => Move::To(
            PhaseView::Resetting { after: after_closed_reset(goal, false) },
        ),
        (PhaseView::Preserving { error }, _) => Move::To(PhaseView::Releasing { error }),
        (PhaseView::Resetting { after }, _) => match after {
            AfterResetView::Reopen { recovered } => Move::To(PhaseView::Opening { recovered }),
            AfterResetView::Release { error } => Move::To(PhaseView::Releasing { error }),
        },
        (PhaseView::Releasing { error }, _) => match error {
            Some(error) => Move::End(StorageActionView::Fail(error)),
            None => Move::End(StorageActionView::Complete),
        },
        _ => Move::End(StorageActionView::Complete),
    }
}

/// The work after an event, and what is to be done next.
pub open spec fn task_stepped(task: TaskView, event: StorageEventView) -> (
    TaskView,
    StorageActionView,
) {
    match task_move(task, event) {
        Move::To(phase) => (TaskView { goal: task.goal, phase }, phase_action(phase)),
        Move::End(action) => (TaskView { goal: task.goal, phase: PhaseView::Finished }, action),
    }
}

/// Whether an outcome tells of a reset.
pub open spec fn is_recovery(outcome: CacheOpenOutcome) -> bool {
    !(outcome is OpenedExisting || outcome is OpenedNew)
}

/// The outcome a phase holds back until the storage is open again.
pub open spec fn held_back(phase: PhaseView) -> Option<CacheOpenOutcome> {
    match phase {
        PhaseView::Opening { recovered } => recovered,
        PhaseView::Connecting { recovered } => recovered,
        PhaseView::Initializing { recovered } => recovered,
        PhaseView::Resetting { after: AfterResetView::Reopen { recovered } } => recovered,
        _ => None,
    }
}

/// Whether work for a goal can have come to a phase.
pub open spec fn task_wf(task: TaskView) -> bool {
    &&& held_back(task.phase) matches Some(outcome) ==> is_recovery(outcome)
    &&& match task.goal {
        Goal::Open { .. } => !(task.phase is Mutating || task.phase is ClosingFiles),
        Goal::Restart => !(task.phase is Acquiring || task.phase is Wiping
            || task.phase is Mutating) && (task.phase matches PhaseView::ClosingFiles { force_reset }
            ==> force_reset),
        Goal::Close => task.phase is ClosingFiles || task.phase is Preserving
            || task.phase matches PhaseView::Resetting { after: AfterResetView::Release { .. } }
            || task.phase is Releasing || task.phase is Finished,
        Goal::Destroy => task.phase is Acquiring || task.phase is Wiping
            || task.phase is Releasing || task.phase is Finished,
        Goal::Disturb => !(task.phase is Wiping) && (match task.phase {
            PhaseView::Opening { recovered } => recovered is None,
            PhaseView::Connecting { recovered } => recovered is None,
            PhaseView::Initializing { recovered } => recovered is None,
            PhaseView::ClosingFiles { force_reset } => !force_reset,
            PhaseView::Resetting { after } => after is Release,
            _ => true,
        }),
    }
}

fn failed_with(message: &str) -> (error: CacheError)
    ensures
        error.deep_view() == failed(message@),
{
    CacheError::Failed(message.to_owned())
}

impl StoragePhase {
    fn action(&self) -> (action: StorageAction)
        ensures
            action.deep_view() == phase_action(self.deep_view()),
    {
        match self {
            StoragePhase::Acquiring => StorageAction::Acquire,
            StoragePhase::Wiping => StorageAction::Wipe,
            StoragePhase::Opening { .. } => StorageAction::Open,
            StoragePhase::Connecting { .. } => StorageAction::Connect,
            StoragePhase::Initializing { .. } => StorageAction::Initialize,
            StoragePhase::Mutating => StorageAction::Mutate,
            StoragePhase::ClosingFiles { .. } => StorageAction::CloseFiles,
            StoragePhase::Preserving { .. } => StorageAction::Preserve,
            StoragePhase::Resetting { .. } => StorageAction::Reset,
            StoragePhase::Releasing { .. } => StorageAction::Release,
            StoragePhase::Finished => StorageAction::Complete,
        }
    }

    /// Whether an event answers what the phase is waiting for.
    pub fn expects(&self, event: &StorageEvent) -> (expected: bool)
        ensures
            expected == phase_expects(self.deep_view(), event.deep_view()),
    {
        match self {
            StoragePhase::Opening { .. } => matches!(
                event,
                StorageEvent::Ready | StorageEvent::NeedsReset | StorageEvent::OpenFailed { .. }
            ),
            StoragePhase::Initializing { .. } => matches!(
                event,
                StorageEvent::Initialized(_) | StorageEvent::Rejected(_)
            ),
            StoragePhase::ClosingFiles { .. } => matches!(
                event,
                StorageEvent::Healthy | StorageEvent::NeedsReset | StorageEvent::Failed(_)
            ),
            StoragePhase::Finished => false,
            _ => matches!(event, StorageEvent::Done | StorageEvent::Failed(_)),
        }
    }
}

impl StorageTask {
    fn begin(goal: Goal, phase: StoragePhase) -> (begun: (StorageTask, StorageAction))
        ensures
            begun.0.deep_view() == (TaskView { goal, phase: phase.deep_view() }),
            begun.1.deep_view() == phase_action(phase.deep_view()),
    {
        let action = phase.action();
        (StorageTask { goal, phase }, action)
    }

    /// Open the cache of a scope, wiping whatever is stored first when its
    /// storage is to be recovered.
    pub fn open(recovery_wipe: bool) -> (begun: (StorageTask, StorageAction))
        ensures
            begun.0.deep_view() == (TaskView {
                goal: Goal::Open { wiped: recovery_wipe },
                phase: PhaseView::Acquiring,
            }),
            begun.1.deep_view() == StorageActionView::Acquire,
            task_wf(begun.0.deep_view()),
    {
        Self::begin(Goal::Open { wiped: recovery_wipe }, StoragePhase::Acquiring)
    }

    /// Reset the storage of an open cache and open it again, the lock held
    /// throughout.
    pub fn restart() -> (begun: (StorageTask, StorageAction))
        ensures
            begun.0.deep_view() == (TaskView {
                goal: Goal::Restart,
                phase: PhaseView::ClosingFiles { force_reset: true },
            }),
            begun.1.deep_view() == StorageActionView::CloseFiles,
            task_wf(begun.0.deep_view()),
    {
        Self::begin(Goal::Restart, StoragePhase::ClosingFiles { force_reset: true })
    }

    /// Close the storage of an open cache: a healthy one is kept, a latched
    /// one is reset.
    pub fn close(reset_required: bool) -> (begun: (StorageTask, StorageAction))
        ensures
            begun.0.deep_view() == (TaskView {
                goal: Goal::Close,
                phase: PhaseView::ClosingFiles { force_reset: reset_required },
            }),
            begun.1.deep_view() == StorageActionView::CloseFiles,
            task_wf(begun.0.deep_view()),
    {
        Self::begin(Goal::Close, StoragePhase::ClosingFiles { force_reset: reset_required })
    }

    /// Wipe the storage of a closed cache.
    pub fn destroy() -> (begun: (StorageTask, StorageAction))
        ensures
            begun.0.deep_view() == (TaskView { goal: Goal::Destroy, phase: PhaseView::Acquiring }),
            begun.1.deep_view() == StorageActionView::Acquire,
            task_wf(begun.0.deep_view()),
    {
        Self::begin(Goal::Destroy, StoragePhase::Acquiring)
    }

    /// Damage the storage of a closed cache.
    pub fn disturb() -> (begun: (StorageTask, StorageAction))
        ensures
            begun.0.deep_view() == (TaskView { goal: Goal::Disturb, phase: PhaseView::Acquiring }),
            begun.1.deep_view() == StorageActionView::Acquire,
            task_wf(begun.0.deep_view()),
    {
        Self::begin(Goal::Disturb, StoragePhase::Acquiring)
    }

    fn end(goal: Goal, action: StorageAction) -> (ended: (StorageTask, StorageAction))
        ensures
            ended.0.deep_view() == (TaskView { goal, phase: PhaseView::Finished }),
            ended.1.deep_view() == action.deep_view(),
    {
        (StorageTask { goal, phase: StoragePhase::Finished }, action)
    }

    /// Take in what came of the last action.
    pub fn step(self, event: StorageEvent) -> (next: (StorageTask, StorageAction))
        requires
            task_wf(self.deep_view()),
            phase_expects(self.deep_view().phase, event.deep_view()),
        ensures
            task_wf(next.0.deep_view()),
            (next.0.deep_view(), next.1.deep_view()) == task_stepped(
                self.deep_view(),
                event.deep_view(),
            ),
    {
        let goal = self.goal;
        match (self.phase, event) {
            (_, StorageEvent::Failed(message)) => Self::end(
                goal,
                StorageAction::Fail(CacheError::Failed(message)),
            ),
            (StoragePhase::Acquiring, _) => match goal {
                Goal::Open { wiped: true } | Goal::Destroy => Self::begin(
                    goal,
                    StoragePhase::Wiping,
                ),
                _ => Self::begin(goal, StoragePhase::Opening { recovered: None }),
            },
            (StoragePhase::Wiping, _) => match goal {
                Goal::Destroy => Self::begin(goal, StoragePhase::Releasing { error: None }),
                _ => Self::begin(goal, StoragePhase::Opening { recovered: None }),
            },
            (
                StoragePhase::Opening { .. },
                StorageEvent::OpenFailed { message, owner_left },
            ) => if owner_left {
                Self::begin(
                    goal,
                    StoragePhase::Releasing { error: Some(CacheError::Failed(message)) },
                )
            } else {
                Self::end(goal, StorageAction::Fail(CacheError::Failed(message)))
            },
            (StoragePhase::Opening { recovered }, StorageEvent::Ready) => Self::begin(
                goal,
                StoragePhase::Connecting { recovered },
            ),
            (StoragePhase::Opening { recovered }, _) => {
                let after = match (goal, recovered) {
                    (Goal::Disturb, _) => AfterReset::Release {
                        error: Some(failed_with("browser-test storage was already reset-required")),
                    },
                    (_, None) => AfterReset::Reopen {
                        recovered: Some(CacheOpenOutcome::ResetStorageUncertain),
                    },
                    (_, Some(_)) => AfterReset::Release { error: Some(CacheError::ResetRequired) },
                };
                Self::begin(goal, StoragePhase::Resetting { after })
            },
            (StoragePhase::Connecting { recovered }, _) => Self::begin(
                goal,
                StoragePhase::Initializing { recovered },
            ),
            (StoragePhase::Initializing { recovered }, StorageEvent::Rejected(error)) => {
                let phase = match (goal, recovered, error.reset) {
                    (Goal::Disturb, _, _) => StoragePhase::Resetting {
                        after: AfterReset::Release {
                            error: Some(failed_with("browser-test storage validation failed")),
                        },
                    },
                    (_, Some(_), Some(_)) => StoragePhase::Resetting {
                        after: AfterReset::Release { error: Some(CacheError::ResetRequired) },
                    },
                    (_, Some(_), None) => StoragePhase::Resetting {
                        after: AfterReset::Release {
                            error: Some(failed_with("cache storage initialization failed")),
                        },
                    },
                    (_, None, Some(reason)) => StoragePhase::Resetting {
                        after: AfterReset::Reopen { recovered: Some(recovery_outcome(reason)) },
                    },
                    (_, None, None) => StoragePhase::Preserving {
                        error: Some(CacheError::Failed(error.message)),
                    },
                };
                Self::begin(goal, phase)
            },
            (StoragePhase::Initializing { recovered }, StorageEvent::Initialized(outcome)) => {
                match (goal, recovered) {
                    (Goal::Disturb, _) => Self::begin(goal, StoragePhase::Mutating),
                    (Goal::Open { wiped: true }, _) => Self::end(
                        goal,
                        StorageAction::Opened(CacheOpenOutcome::ResetStorageUncertain),
                    ),
                    (_, Some(recovered)) => Self::end(goal, StorageAction::Opened(recovered)),
                    (_, None) => Self::end(
                        goal,
                        StorageAction::Opened(CacheOpenOutcome::from_storage(outcome)),
                    ),
                }
            },
            (StoragePhase::Mutating, _) => Self::begin(
                goal,
                StoragePhase::ClosingFiles { force_reset: false },
            ),
            (StoragePhase::ClosingFiles { force_reset }, event) => {
                let healthy: bool = matches!(event, StorageEvent::Healthy);
                if healthy && !force_reset {
                    Self::begin(goal, StoragePhase::Preserving { error: None })
                } else {
                    let after = match goal {
                        Goal::Restart => AfterReset::Reopen { recovered: None },
                        Goal::Disturb => AfterReset::Release {
                            error: if healthy {
                                None
                            } else {
                                Some(failed_with("browser-test mutation unexpectedly required reset"))
                            },
                        },
                        _ => AfterReset::Release { error: None },
                    };
                    Self::begin(goal, StoragePhase::Resetting { after })
                }
            },
            (StoragePhase::Preserving { error }, _) => Self::begin(
                goal,
                StoragePhase::Releasing { error },
            ),
            (StoragePhase::Resetting { after }, _) => match after {
                AfterReset::Reopen { recovered } => Self::begin(
                    goal,
                    StoragePhase::Opening { recovered },
                ),
                AfterReset::Release { error } => Self::begin(
                    goal,
                    StoragePhase::Releasing { error },
                ),
            },
            (StoragePhase::Releasing { error }, _) => match error {
                Some(error) => Self::end(goal, StorageAction::Fail(error)),
                None => Self::end(goal, StorageAction::Complete),
            },
            _ => Self::end(goal, StorageAction::Complete),
        }
    }
}

/// A cache whose engine has been taken out, to be reset or closed.
pub open spec fn emptied<E>(state: CacheState<E>) -> CacheState<E> {
    CacheState { engine: None, ..state }
}

impl<E> CacheState<E> {
    /// Take the engine out, to reset or close its storage. A latched cache can
    /// be taken; one that has no engine is told why.
    pub fn take_engine(&mut self) -> (engine: Result<E, CacheError>)
        ensures
            *final(self) == emptied(*old(self)),
            match engine {
                Ok(engine) => old(self).engine == Some(engine),
                Err(error) => old(self).engine is None && error.deep_view() == lost(*old(self)),
            },
    {
        match self.engine.take() {
            Some(engine) => Ok(engine),
            None => Err(
                if self.reset_required {
                    CacheError::Replacement
                } else {
                    CacheError::Closed
                },
            ),
        }
    }

    /// Install the engine of a reset storage under a new mail generation, or
    /// latch the cache when its storage was lost.
    pub fn finish_restart(&mut self, restarted: Result<(E, String), CacheError>) -> (outcome: Result<
        (),
        CacheError,
    >)
        requires
            old(self).engine is None,
        ensures
            final(self).scope == old(self).scope,
            final(self).hot_capacity == old(self).hot_capacity,
            match restarted {
                Ok(fresh) => final(self).engine == Some(fresh.0) && final(self).mail_generation
                    == fresh.1 && !final(self).reset_required && outcome is Ok,
                Err(error) => *final(self) == (CacheState { reset_required: true, ..*old(self) })
                    && outcome is Err && outcome->Err_0.deep_view() == error.deep_view(),
            },
    {
        match restarted {
            Ok((engine, mail_generation)) => {
                self.engine = Some(engine);
                self.mail_generation = mail_generation;
                self.reset_required = false;
                Ok(())
            },
            Err(error) => {
                self.reset_required = true;
                Err(error)
            },
        }
    }

    /// Settle a cache whose storage was closed, or latch it when that failed.
    pub fn finish_close(&mut self, closed: Result<(), CacheError>) -> (outcome: Result<
        (),
        CacheError,
    >)
        ensures
            *final(self) == (CacheState { reset_required: closed is Err, ..*old(self) }),
            outcome is Ok == closed is Ok,
            closed matches Err(error) ==> outcome->Err_0.deep_view() == error.deep_view(),
    {
        match closed {
            Ok(_) => {
                self.reset_required = false;
                Ok(())
            },
            Err(error) => {
                self.reset_required = true;
                Err(error)
            },
        }
    }
}

/// How far work on the storage still is from its end.
pub open spec fn remaining(task: TaskView) -> nat {
    match task.phase {
        PhaseView::Acquiring => 20,
        PhaseView::Wiping => 19,
        PhaseView::ClosingFiles { .. } => if task.goal is Restart {
            18
        } else {
            12
        },
        PhaseView::Resetting { after } => match after {
            AfterResetView::Reopen { recovered: None } => 17,
            AfterResetView::Reopen { recovered: Some(_) } => 10,
            AfterResetView::Release { .. } => 6,
        },
        PhaseView::Opening { recovered } => if recovered is None {
            16
        } else {
            9
        },
        PhaseView::Connecting { recovered } => if recovered is None {
            15
        } else {
            8
        },
        PhaseView::Initializing { recovered } => if recovered is None {
            14
        } else {
            7
        },
        PhaseView::Mutating => 13,
        PhaseView::Preserving { .. } => 5,
        PhaseView::Releasing { .. } => 4,
        PhaseView::Finished => 0,
    }
}

/// Work on the storage ends: every step brings it closer, so nothing is opened
/// a third time.
pub proof fn law_storage_work_ends(task: TaskView, event: StorageEventView)
    requires
        task_wf(task),
        phase_expects(task.phase, event),
    ensures
        remaining(task_stepped(task, event).0) < remaining(task),
{
}

/// A recovery open wipes what is stored before it opens anything, and says so
/// whatever it then finds.
pub proof fn law_a_recovery_open_wipes_first(task: TaskView, event: StorageEventView)
    requires
        task_wf(task),
        task.goal == (Goal::Open { wiped: true }),
        phase_expects(task.phase, event),
    ensures
        task.phase is Acquiring && !(event is Failed) ==> task_stepped(task, event).1
            is Wipe,
        task_stepped(task, event).1 matches StorageActionView::Opened(outcome) ==> outcome
            == CacheOpenOutcome::ResetStorageUncertain,
{
}

/// An open that reports a stored or a new cache has reset nothing: it is a
/// first attempt, without a wipe, and the report is the storage's own.
pub proof fn law_a_plain_open_resets_nothing(task: TaskView, event: StorageEventView)
    requires
        task_wf(task),
        phase_expects(task.phase, event),
    ensures
        task_stepped(task, event).1 matches StorageActionView::Opened(outcome) ==> (
        is_recovery(outcome) || (task.goal != (Goal::Open { wiped: true }) && task.phase == (
        PhaseView::Initializing { recovered: None }) && exists|plain: StorageOpenOutcome|
            event == StorageEventView::Initialized(plain) && outcome == #[trigger] plain_outcome(
                plain,
            ))),
{
}

/// A storage is preserved only when it closed healthy without a latch, or when
/// it refused to open for a reason no reset repairs.
pub proof fn law_an_unhealthy_storage_is_not_preserved(task: TaskView, event: StorageEventView)
    requires
        task_wf(task),
        phase_expects(task.phase, event),
        task_stepped(task, event).1 is Preserve,
    ensures
        (task.phase == (PhaseView::ClosingFiles { force_reset: false }) && event is Healthy)
            || (event matches StorageEventView::Rejected { reset: None, .. }),
{
}

/// Work fails only when an action did, when the lock is already lost, or once
/// the lock has been released: a refused storage never keeps its owner.
pub proof fn law_a_refused_storage_is_released(task: TaskView, event: StorageEventView)
    requires
        task_wf(task),
        phase_expects(task.phase, event),
        task_stepped(task, event).1 is Fail,
    ensures
        event is Failed || task.phase is Releasing || (event matches StorageEventView::OpenFailed {
            owner_left: false,
            ..
        }),
{
}

/// A latched cache refuses every call, naming the reset, whatever else is
/// wrong with it; no failure lifts the latch.
pub proof fn law_the_latch_holds<E>(
    state: CacheState<E>,
    error: EngineErrorView,
)
    requires
        state.reset_required,
    ensures
        !callable(state),
        refusal(state) == CacheErrorView::ResetRequired,
        after_failure(state, error).reset_required,
{
}

/// A closed cache stays closed: it refuses every call, and to be reset or
/// closed again.
pub proof fn law_a_closed_cache_refuses<E>(state: CacheState<E>)
    ensures
        ({
            let closed = CacheState { reset_required: false, ..emptied(state) };
            &&& !callable(closed)
            &&& refusal(closed) == CacheErrorView::Closed
            &&& lost(closed) == CacheErrorView::Closed
        }),
{
}

} // verus!

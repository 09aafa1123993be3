//! Whether a cache may be called, and what latches it shut.
//!
//! A storage failure that only a physical reset can repair latches the cache:
//! from then on every call is refused until a reset or a close succeeds. Any
//! other failure leaves the cache as it was.

use crate::text::{same_text, Text};
use vstd::prelude::*;

verus! {

/// Why storage needs a physical reset.
#[derive(Clone, Copy, Debug, PartialEq, Eq, Structural)]
pub enum ResetReason {
    /// The stored format is not this build's.
    Compatibility,
    /// The file is corrupt.
    Corruption,
    /// A stored value does not decode.
    Codec,
    /// A stored invariant does not hold.
    Invariant,
    /// An integrity check failed.
    Integrity,
    /// The storage is full.
    StorageFull,
    /// A transaction may or may not have been applied.
    TransactionOutcomeUncertain,
    /// Reading or writing failed.
    Io,
}

/// A failure of the storage.
#[derive(Debug, PartialEq, Eq)]
pub struct StorageError {
    /// What went wrong.
    pub message: String,
    /// Why it needs a physical reset, when it does.
    pub reset: Option<ResetReason>,
}

/// A failure of the engine.
#[derive(Debug, PartialEq, Eq)]
pub enum EngineError {
    /// Its storage failed.
    Storage(StorageError),
    /// Anything else went wrong.
    Other(String),
}

/// Why a call on the cache is rejected.
#[derive(Debug, PartialEq, Eq)]
pub enum CacheError {
    /// The storage needs a physical reset.
    ResetRequired,
    /// The cache is closed.
    Closed,
    /// The cache lost its storage: only a new worker can open it again.
    Replacement,
    /// The call failed.
    Failed(String),
}

/// The mathematical model of [`EngineError`].
pub enum EngineErrorView {
    Storage { message: Text, reset: Option<ResetReason> },
    Other(Text),
}

/// The mathematical model of [`CacheError`].
pub enum CacheErrorView {
    ResetRequired,
    Closed,
    Replacement,
    Failed(Text),
}

impl DeepView for EngineError {
    type V = EngineErrorView;

    open spec fn deep_view(&self) -> EngineErrorView {
        match self {
            EngineError::Storage(error) => EngineErrorView::Storage {
                message: error.message@,
                reset: error.reset,
            },
            EngineError::Other(message) => EngineErrorView::Other(message@),
        }
    }
}

impl DeepView for CacheError {
    type V = CacheErrorView;

    open spec fn deep_view(&self) -> CacheErrorView {
        match self {
            CacheError::ResetRequired => CacheErrorView::ResetRequired,
            CacheError::Closed => CacheErrorView::Closed,
            CacheError::Replacement => CacheErrorView::Replacement,
            CacheError::Failed(message) => CacheErrorView::Failed(message@),
        }
    }
}

/// The property that marks a rejection as a required reset.
pub const RESET_REQUIRED_MARKER: &'static str = "cacheStorageResetRequired";

/// What a rejection says.
pub open spec fn cache_error_message(error: CacheErrorView) -> Text {
    match error {
        CacheErrorView::ResetRequired => "cache storage reset required"@,
        CacheErrorView::Closed => "cache engine is closed"@,
        CacheErrorView::Replacement => "cache engine requires worker replacement"@,
        CacheErrorView::Failed(message) => message,
    }
}

/// What an engine's failure says.
pub open spec fn engine_error_message(error: EngineErrorView) -> Text {
    match error {
        EngineErrorView::Storage { message, .. } => message,
        EngineErrorView::Other(message) => message,
    }
}

/// Whether an engine's failure needs a physical reset of its storage.
pub open spec fn needs_reset(error: EngineErrorView) -> bool {
    error matches EngineErrorView::Storage { reset: Some(_), .. }
}

/// The rejection an engine's failure becomes.
pub open spec fn rejection(error: EngineErrorView) -> CacheErrorView {
    if needs_reset(error) {
        CacheErrorView::ResetRequired
    } else {
        CacheErrorView::Failed(engine_error_message(error))
    }
}

impl CacheError {
    /// What the rejection says.
    pub fn message(&self) -> (message: String)
        ensures
            message@ == cache_error_message(self.deep_view()),
    {
        match self {
            CacheError::ResetRequired => "cache storage reset required".to_owned(),
            CacheError::Closed => "cache engine is closed".to_owned(),
            CacheError::Replacement => "cache engine requires worker replacement".to_owned(),
            CacheError::Failed(message) => message.clone(),
        }
    }

    /// Whether the rejection carries the reset marker.
    pub fn is_marked(&self) -> (marked: bool)
        ensures
            marked == (self.deep_view() is ResetRequired),
    {
        matches!(self, CacheError::ResetRequired)
    }
}

impl EngineError {
    /// Whether the failure needs a physical reset of the storage.
    pub fn requires_reset(&self) -> (required: bool)
        ensures
            required == needs_reset(self.deep_view()),
    {
        match self {
            EngineError::Storage(error) => error.reset.is_some(),
            EngineError::Other(_) => false,
        }
    }

    /// What the failure says.
    pub fn message(self) -> (message: String)
        ensures
            message@ == engine_error_message(self.deep_view()),
    {
        match self {
            EngineError::Storage(error) => error.message,
            EngineError::Other(message) => message,
        }
    }
}

/// Refuses a cache that may hold no entries in memory.
pub fn validate_hot_capacity(hot_capacity: Option<u32>) -> (outcome: Result<(), CacheError>)
    ensures
        match outcome {
            Ok(_) => hot_capacity != Some(0u32),
            Err(error) => hot_capacity == Some(0u32) && error.deep_view()
                == CacheErrorView::Failed("hot capacity must be greater than zero"@),
        },
{
    match hot_capacity {
        Some(0) => Err(CacheError::Failed("hot capacity must be greater than zero".to_owned())),
        _ => Ok(()),
    }
}

/// An open cache, a latched one, or a closed one.
#[derive(Debug)]
pub struct CacheState<E> {
    /// The engine, while there is one.
    pub engine: Option<E>,
    /// Tells the mail pages of this engine from those of the one before.
    pub mail_generation: String,
    /// The scope the storage belongs to.
    pub scope: String,
    /// How many entries the engine may hold in memory, when bounded.
    pub hot_capacity: Option<u32>,
    /// The storage needs a physical reset before anything else.
    pub reset_required: bool,
}

/// Whether a cache may be called: neither latched nor without an engine.
pub open spec fn callable<E>(state: CacheState<E>) -> bool {
    !state.reset_required && state.engine is Some
}

/// How a cache that may not be called refuses.
pub open spec fn refusal<E>(state: CacheState<E>) -> CacheErrorView {
    if state.reset_required {
        CacheErrorView::ResetRequired
    } else {
        CacheErrorView::Closed
    }
}

/// How a cache without an engine refuses to be reset or closed.
pub open spec fn lost<E>(state: CacheState<E>) -> CacheErrorView {
    if state.reset_required {
        CacheErrorView::Replacement
    } else {
        CacheErrorView::Closed
    }
}

/// The state after the engine failed.
pub open spec fn after_failure<E>(
    state: CacheState<E>,
    error: EngineErrorView,
) -> CacheState<E> {
    CacheState { reset_required: state.reset_required || needs_reset(error), ..state }
}

/// Whether a write may read the projections stored so far: it carries no
/// identity, none is bound yet, or the two agree. A write under another
/// identity resets the cache, and nothing stored may leak into it.
pub open spec fn reusable(observed: Option<Text>, bound: Option<Text>) -> bool {
    observed is None || bound is None || bound == observed
}

/// Whether a write under `observed` may read what is stored under `bound`.
pub fn can_reuse_stored_identity(observed: &Option<String>, bound: &Option<String>) -> (reuse: bool)
    ensures
        reuse == reusable(observed.deep_view(), bound.deep_view()),
{
    match (observed, bound) {
        (Some(observed), Some(bound)) => same_text(bound.as_str(), observed.as_str()),
        _ => true,
    }
}

impl<E> CacheState<E> {
    /// A freshly opened cache.
    pub fn opened(
        engine: E,
        mail_generation: String,
        scope: String,
        hot_capacity: Option<u32>,
    ) -> (state: CacheState<E>)
        ensures
            state == (CacheState {
                engine: Some(engine),
                mail_generation,
                scope,
                hot_capacity,
                reset_required: false,
            }),
            callable(state),
    {
        CacheState {
            engine: Some(engine),
            mail_generation,
            scope,
            hot_capacity,
            reset_required: false,
        }
    }

    /// Refuse a latched or closed cache; the latch is told first.
    pub fn ensure_callable(&self) -> (outcome: Result<(), CacheError>)
        ensures
            match outcome {
                Ok(_) => callable(*self),
                Err(error) => !callable(*self) && error.deep_view() == refusal(*self),
            },
    {
        if self.reset_required {
            Err(CacheError::ResetRequired)
        } else if self.engine.is_none() {
            Err(CacheError::Closed)
        } else {
            Ok(())
        }
    }

    /// The engine of a cache that may be called.
    pub fn engine_mut(&mut self) -> (engine: Result<&mut E, CacheError>)
        ensures
            match engine {
                Ok(engine) => callable(*old(self)) && old(self).engine == Some(*engine)
                    && *final(self) == (CacheState { engine: Some(*final(engine)), ..*old(self) }),
                Err(error) => !callable(*old(self)) && error.deep_view() == refusal(*old(self))
                    && *final(self) == *old(self),
            },
    {
        if self.reset_required {
            return Err(CacheError::ResetRequired);
        }
        match &mut self.engine {
            Some(engine) => Ok(engine),
            None => Err(CacheError::Closed),
        }
    }

    /// Turn an engine's failure into a rejection, latching the cache when the
    /// storage needs a physical reset.
    pub fn engine_error(&mut self, error: EngineError) -> (rejected: CacheError)
        ensures
            *final(self) == after_failure(*old(self), error.deep_view()),
            rejected.deep_view() == rejection(error.deep_view()),
    {
        if error.requires_reset() {
            self.reset_required = true;
            CacheError::ResetRequired
        } else {
            CacheError::Failed(error.message())
        }
    }

    /// An engine's answer, a failure turned into a rejection.
    pub fn engine_result<T>(&mut self, result: Result<T, EngineError>) -> (answer: Result<
        T,
        CacheError,
    >)
        ensures
            match result {
                Ok(value) => answer == Ok::<T, CacheError>(value) && *final(self) == *old(self),
                Err(error) => *final(self) == after_failure(*old(self), error.deep_view())
                    && answer is Err && answer->Err_0.deep_view() == rejection(error.deep_view()),
            },
    {
        match result {
            Ok(value) => Ok(value),
            Err(error) => Err(self.engine_error(error)),
        }
    }
}

} // verus!

//! The vocabulary of Cursor cloud agents: ids, run states and models.

use crate::text::{same_text, Text};
use vstd::prelude::*;

verus! {

/// A Cursor agent (`bc-…`).
#[derive(Debug, PartialEq, Eq)]
pub struct CursorAgentId {
    /// The id as Cursor spells it.
    pub value: String,
}

/// One run of a Cursor agent (`run-…`).
#[derive(Debug, PartialEq, Eq)]
pub struct CursorRunId {
    /// The id as Cursor spells it.
    pub value: String,
}

/// A session of the agent-client protocol.
#[derive(Debug, PartialEq, Eq)]
pub struct SessionId {
    /// The id as the protocol spells it.
    pub value: String,
}

/// The canonical HTTPS url of a repository.
#[derive(Debug, PartialEq, Eq)]
pub struct RepoUrl {
    /// The url itself.
    pub value: String,
}

impl DeepView for CursorAgentId {
    type V = Text;

    open spec fn deep_view(&self) -> Text {
        self.value@
    }
}

impl DeepView for CursorRunId {
    type V = Text;

    open spec fn deep_view(&self) -> Text {
        self.value@
    }
}

impl DeepView for SessionId {
    type V = Text;

    open spec fn deep_view(&self) -> Text {
        self.value@
    }
}

impl DeepView for RepoUrl {
    type V = Text;

    open spec fn deep_view(&self) -> Text {
        self.value@
    }
}

impl Clone for CursorAgentId {
    fn clone(&self) -> (copy: Self)
        ensures
            copy == *self,
    {
        CursorAgentId { value: self.value.clone() }
    }
}

impl Clone for CursorRunId {
    fn clone(&self) -> (copy: Self)
        ensures
            copy == *self,
    {
        CursorRunId { value: self.value.clone() }
    }
}

impl Clone for SessionId {
    fn clone(&self) -> (copy: Self)
        ensures
            copy == *self,
    {
        SessionId { value: self.value.clone() }
    }
}

impl Clone for RepoUrl {
    fn clone(&self) -> (copy: Self)
        ensures
            copy == *self,
    {
        RepoUrl { value: self.value.clone() }
    }
}

impl CursorAgentId {
    /// An agent by the id Cursor gave it.
    pub fn new(id: &str) -> (agent: Self)
        ensures
            agent.deep_view() == id@,
    {
        CursorAgentId { value: id.to_owned() }
    }

    /// The id as Cursor spells it.
    pub fn as_str(&self) -> (id: &str)
        ensures
            id@ == self.deep_view(),
    {
        self.value.as_str()
    }
}

impl CursorRunId {
    /// A run by the id Cursor gave it.
    pub fn new(id: &str) -> (run: Self)
        ensures
            run.deep_view() == id@,
    {
        CursorRunId { value: id.to_owned() }
    }

    /// The id as Cursor spells it.
    pub fn as_str(&self) -> (id: &str)
        ensures
            id@ == self.deep_view(),
    {
        self.value.as_str()
    }

    /// Whether two ids name the same run.
    pub fn same(&self, other: &CursorRunId) -> (same: bool)
        ensures
            same == (self.deep_view() == other.deep_view()),
    {
        self.value == other.value
    }
}

impl SessionId {
    /// A session by the id the protocol gave it.
    pub fn new(id: &str) -> (session: Self)
        ensures
            session.deep_view() == id@,
    {
        SessionId { value: id.to_owned() }
    }

    /// The id as the protocol spells it.
    pub fn as_str(&self) -> (id: &str)
        ensures
            id@ == self.deep_view(),
    {
        self.value.as_str()
    }

    /// Whether two ids name the same session.
    pub fn same(&self, other: &SessionId) -> (same: bool)
        ensures
            same == (self.deep_view() == other.deep_view()),
    {
        self.value == other.value
    }
}

impl RepoUrl {
    /// The url itself.
    pub fn as_str(&self) -> (url: &str)
        ensures
            url@ == self.deep_view(),
    {
        self.value.as_str()
    }
}

/// Whether two optional runs are the same one, or both absent.
pub fn same_run(left: Option<&CursorRunId>, right: Option<&CursorRunId>) -> (same: bool)
    ensures
        same == (left.deep_view() == right.deep_view()),
{
    match (left, right) {
        (Some(left), Some(right)) => left.same(right),
        (None, None) => true,
        _ => false,
    }
}

/// Where a run is in its lifecycle.
#[derive(Debug, PartialEq, Eq)]
pub enum RunStatus {
    /// Accepted, not yet working.
    Creating,
    /// Working.
    Running,
    /// Ended on its own.
    Finished,
    /// Stopped; a cancelled run cannot resume.
    Cancelled,
    /// Ended in failure.
    Error,
    /// A state this crate does not know, as Cursor spells it.
    Unknown(String),
}

/// The mathematical model of [`RunStatus`].
pub enum StatusView {
    Creating,
    Running,
    Finished,
    Cancelled,
    Error,
    Unknown(Text),
}

impl DeepView for RunStatus {
    type V = StatusView;

    open spec fn deep_view(&self) -> StatusView {
        match self {
            RunStatus::Creating => StatusView::Creating,
            RunStatus::Running => StatusView::Running,
            RunStatus::Finished => StatusView::Finished,
            RunStatus::Cancelled => StatusView::Cancelled,
            RunStatus::Error => StatusView::Error,
            RunStatus::Unknown(text) => StatusView::Unknown(text@),
        }
    }
}

impl Clone for RunStatus {
    fn clone(&self) -> (copy: Self)
        ensures
            copy == *self,
    {
        match self {
            RunStatus::Creating => RunStatus::Creating,
            RunStatus::Running => RunStatus::Running,
            RunStatus::Finished => RunStatus::Finished,
            RunStatus::Cancelled => RunStatus::Cancelled,
            RunStatus::Error => RunStatus::Error,
            RunStatus::Unknown(text) => RunStatus::Unknown(text.clone()),
        }
    }
}

impl StatusView {
    /// Whether a run in this state has ended for good.
    pub open spec fn is_terminal(self) -> bool {
        self is Finished || self is Cancelled || self is Error
    }

    /// Whether a run in this state is still in progress.
    pub open spec fn in_progress(self) -> bool {
        self is Creating || self is Running
    }
}

/// The status a wire spelling names; an unknown spelling is kept.
pub open spec fn status_named(text: Text) -> StatusView {
    if text == "CREATING"@ {
        StatusView::Creating
    } else if text == "RUNNING"@ {
        StatusView::Running
    } else if text == "FINISHED"@ {
        StatusView::Finished
    } else if text == "CANCELLED"@ {
        StatusView::Cancelled
    } else if text == "ERROR"@ {
        StatusView::Error
    } else {
        StatusView::Unknown(text)
    }
}

/// The text of a string between double quotes with its special characters
/// escaped, as `{:?}` writes it.
pub uninterp spec fn quoted_text(text: Seq<char>) -> Seq<char>;

/// Writes a string with std's `Debug` for `str`. Claims only that what is
/// written depends on the characters alone.
#[verifier::external_body]
fn quoted(text: &str) -> (written: String)
    ensures
        written@ == quoted_text(text@),
{
    format!("{text:?}")
}

/// How a status is named in messages.
pub open spec fn status_label(status: StatusView) -> Text {
    match status {
        StatusView::Creating => "Creating"@,
        StatusView::Running => "Running"@,
        StatusView::Finished => "Finished"@,
        StatusView::Cancelled => "Cancelled"@,
        StatusView::Error => "Error"@,
        StatusView::Unknown(text) => "Unknown("@ + quoted_text(text) + ")"@,
    }
}

impl RunStatus {
    /// The status a wire spelling names; an unknown spelling is kept.
    pub fn from_wire(text: &str) -> (status: RunStatus)
        ensures
            status.deep_view() == status_named(text@),
    {
        if same_text(text, "CREATING") {
            RunStatus::Creating
        } else if same_text(text, "RUNNING") {
            RunStatus::Running
        } else if same_text(text, "FINISHED") {
            RunStatus::Finished
        } else if same_text(text, "CANCELLED") {
            RunStatus::Cancelled
        } else if same_text(text, "ERROR") {
            RunStatus::Error
        } else {
            RunStatus::Unknown(text.to_owned())
        }
    }

    /// Whether a run in this state has ended for good.
    pub fn is_terminal(&self) -> (terminal: bool)
        ensures
            terminal == self.deep_view().is_terminal(),
    {
        matches!(self, RunStatus::Finished | RunStatus::Cancelled | RunStatus::Error)
    }

    /// Whether a run in this state is still in progress.
    pub fn in_progress(&self) -> (current: bool)
        ensures
            current == self.deep_view().in_progress(),
    {
        matches!(self, RunStatus::Creating | RunStatus::Running)
    }

    /// How the status is named in messages.
    pub fn label(&self) -> (label: String)
        ensures
            label@ == status_label(self.deep_view()),
    {
        match self {
            RunStatus::Creating => "Creating".to_owned(),
            RunStatus::Running => "Running".to_owned(),
            RunStatus::Finished => "Finished".to_owned(),
            RunStatus::Cancelled => "Cancelled".to_owned(),
            RunStatus::Error => "Error".to_owned(),
            RunStatus::Unknown(text) => {
                let mut label: String = "Unknown(".to_owned();
                label.append(quoted(text.as_str()).as_str());
                label.append(")");
                label
            },
        }
    }
}

/// What a poll says of a run.
#[derive(Debug, PartialEq, Eq)]
pub struct RunOutcome {
    /// Where the run is.
    pub status: RunStatus,
    /// Its final answer, when there is one.
    pub text: Option<String>,
}

/// The mathematical model of [`RunOutcome`].
pub struct OutcomeView {
    pub status: StatusView,
    pub text: Option<Text>,
}

impl DeepView for RunOutcome {
    type V = OutcomeView;

    open spec fn deep_view(&self) -> OutcomeView {
        OutcomeView { status: self.status.deep_view(), text: self.text.deep_view() }
    }
}

impl RunOutcome {
    /// Whether the run has ended for good.
    pub fn is_terminal(&self) -> (terminal: bool)
        ensures
            terminal == self.deep_view().status.is_terminal(),
    {
        self.status.is_terminal()
    }
}

/// One run as the agent's run list describes it.
#[derive(Debug, PartialEq, Eq)]
pub struct RunListing {
    /// The run.
    pub id: CursorRunId,
    /// Where it is.
    pub status: RunStatus,
}

/// The mathematical model of [`RunListing`].
pub struct ListingView {
    pub id: Text,
    pub status: StatusView,
}

impl DeepView for RunListing {
    type V = ListingView;

    open spec fn deep_view(&self) -> ListingView {
        ListingView { id: self.id.deep_view(), status: self.status.deep_view() }
    }
}

/// How a turn ended, as the runtime protocol reports it.
#[derive(Debug, PartialEq, Eq)]
pub enum TurnOutcome {
    /// The agent finished.
    Finished,
    /// The turn was stopped.
    Cancelled,
    /// The turn failed.
    Failed {
        /// Why, for a person to read.
        message: String,
    },
}

/// The mathematical model of [`TurnOutcome`].
pub enum TurnOutcomeView {
    Finished,
    Cancelled,
    Failed(Text),
}

impl DeepView for TurnOutcome {
    type V = TurnOutcomeView;

    open spec fn deep_view(&self) -> TurnOutcomeView {
        match self {
            TurnOutcome::Finished => TurnOutcomeView::Finished,
            TurnOutcome::Cancelled => TurnOutcomeView::Cancelled,
            TurnOutcome::Failed { message } => TurnOutcomeView::Failed(message@),
        }
    }
}

/// The outcome a run's last status stands for.
pub open spec fn outcome_of(status: StatusView) -> TurnOutcomeView {
    match status {
        StatusView::Finished => TurnOutcomeView::Finished,
        StatusView::Cancelled => TurnOutcomeView::Cancelled,
        other => TurnOutcomeView::Failed("Agent run ended in "@ + status_label(other)),
    }
}

/// The outcome a run's last status stands for.
pub fn turn_outcome(status: &RunStatus) -> (outcome: TurnOutcome)
    ensures
        outcome.deep_view() == outcome_of(status.deep_view()),
{
    match status {
        RunStatus::Finished => TurnOutcome::Finished,
        RunStatus::Cancelled => TurnOutcome::Cancelled,
        other => {
            let mut message: String = "Agent run ended in ".to_owned();
            message.append(other.label().as_str());
            TurnOutcome::Failed { message }
        },
    }
}

/// Why a turn stopped, as the agent-client protocol reports it.
#[derive(Debug, Clone, Copy, PartialEq, Eq, Structural)]
pub enum StopReason {
    /// The agent came to its own end.
    EndTurn,
    /// The client stopped it.
    Cancelled,
}

} // verus!

//! What the consumer of lifecycle facts does with each record.
//!
//! Delivery is at-least-once: an offset is committed only once every action
//! the fact warranted has been accepted by the notification service. That is
//! safe to repeat — notification ids are derived from the fact — which is why a
//! persistent failure exits without committing and lets the supervising restart
//! redeliver. Undecodable records are skipped rather than wedging the
//! partition.

use crate::decimal::{decimal, decimal_text, signed_decimal, signed_text};
use crate::notifications::plan::{
    plan, plan_of, requests, Action, ActionView, AgentSessionMentionedMetadata,
    AgentSessionSettledMetadata, AgentSessionWaitingForInputMetadata, SendNotificationRequest,
};
use crate::sessions::events::AgentSessionLifecycleEvent;
use crate::sessions::model::MacroUserId;
use crate::text::Text;
use vstd::prelude::*;

verus! {

/// Consumer group for agent-session notifications. Offsets are committed under
/// this group, so restarts resume where the previous run left off.
pub const GROUP_NAME: &'static str = "notification-agent-session-lifecycle";

/// In-process attempts per fact before the consumer bails out and lets a
/// restart redeliver from the last committed offset.
pub const MAX_ATTEMPTS: usize = 5;

/// A number, or the largest `u64` where it is larger.
pub open spec fn saturated(number: nat) -> nat {
    if number > u64::MAX {
        u64::MAX as nat
    } else {
        number
    }
}

/// A base to the power of `attempt + 1`, saturating at each step.
pub open spec fn backoff_power(base: u64, attempt: nat) -> nat
    decreases attempt,
{
    if attempt == 0 {
        base as nat
    } else {
        saturated(backoff_power(base, (attempt - 1) as nat) * base as nat)
    }
}

/// The delay before retry number `attempt`, counted from zero.
pub open spec fn backoff_delay(base: u64, factor: u64, attempt: nat) -> nat {
    saturated(backoff_power(base, attempt) * factor as nat)
}

/// Takes the first delays of `tokio_retry::strategy::ExponentialBackoff` with
/// no maximum delay: each is the next power of the base, times the factor, in
/// milliseconds, every product saturating.
#[verifier::external_body]
fn backoff_delays(base: u64, factor: u64, count: usize) -> (millis: Vec<u64>)
    requires
        count <= MAX_ATTEMPTS,
    ensures
        millis@.len() == count,
        forall|i: int|
            0 <= i < count ==> #[trigger] millis@[i] == backoff_delay(base, factor, i as nat),
{
    tokio_retry::strategy::ExponentialBackoff::from_millis(base)
        .factor(factor)
        .take(count)
        .map(|delay| delay.as_millis() as u64)
        .collect()
}

/// The delays between attempts, in milliseconds: one second before the first
/// retry, doubled before each further one. The worst case stays well under the
/// broker's poll interval, so retrying never evicts the consumer from its
/// group.
pub fn retry_strategy() -> (millis: Vec<u64>)
    ensures
        millis@ == seq![1000u64, 2000, 4000, 8000],
{
    let millis: Vec<u64> = backoff_delays(2, 500, MAX_ATTEMPTS - 1);
    proof {
        reveal_with_fuel(backoff_power, 5);
        assert(backoff_delay(2, 500, 0) == 1000);
        assert(backoff_delay(2, 500, 1) == 2000);
        assert(backoff_delay(2, 500, 2) == 4000);
        assert(backoff_delay(2, 500, 3) == 8000);
        assert(millis@ =~= seq![1000u64, 2000, 4000, 8000]);
    }
    millis
}

/// What follows a failed attempt.
#[derive(Debug, Clone, Copy, PartialEq, Eq, Structural)]
pub enum AfterFailure {
    /// Try again.
    Retry {
        /// After this long.
        millis: u64,
    },
    /// Give up.
    GiveUp,
}

/// Decide what follows the `failed`th failure in a row, counted from one.
pub fn after_failure(failed: usize) -> (next: AfterFailure)
    requires
        failed > 0,
    ensures
        next is GiveUp <==> failed >= MAX_ATTEMPTS,
        next matches AfterFailure::Retry { millis } ==> millis == seq![
            1000u64,
            2000,
            4000,
            8000,
        ][failed - 1],
{
    if failed >= MAX_ATTEMPTS {
        return AfterFailure::GiveUp;
    }
    let delays: Vec<u64> = retry_strategy();
    AfterFailure::Retry { millis: delays[failed - 1] }
}

/// One call to the notification service.
#[derive(Debug, PartialEq, Eq)]
pub enum Delivery {
    /// Create a "finished" notification.
    Settled(SendNotificationRequest<AgentSessionSettledMetadata>),
    /// Create a "needs an answer" notification.
    WaitingForInput(SendNotificationRequest<AgentSessionWaitingForInputMetadata>),
    /// Create a "mentioned you" notification.
    Mentioned(SendNotificationRequest<AgentSessionMentionedMetadata>),
    /// Change the status of notifications.
    Update(UpdateNotificationsRequest),
}

/// A change of status.
#[derive(Debug, PartialEq, Eq)]
pub struct UpdateNotificationsRequest {
    /// Whose copies.
    pub user_id: MacroUserId,
    /// The notifications.
    pub notification_ids: Vec<u128>,
    /// Whether they are done.
    pub done: bool,
}

/// Whether a call carries out an action: the request a notification becomes,
/// or the one copy of it that is marked done.
pub open spec fn delivers(delivery: Delivery, action: Action) -> bool {
    match (delivery, action) {
        (Delivery::Settled(request), Action::Settled(notify)) => requests(request, notify),
        (Delivery::WaitingForInput(request), Action::WaitingForInput(notify)) => requests(
            request,
            notify,
        ),
        (Delivery::Mentioned(request), Action::Mentioned(notify)) => requests(request, notify),
        (Delivery::Update(request), Action::MarkDone { user, notification_id }) => {
            &&& request.user_id == user
            &&& request.notification_ids@ == seq![notification_id]
            &&& request.done
        },
        _ => false,
    }
}

/// The call that carries out an action.
pub fn delivery(action: Action) -> (delivery: Delivery)
    ensures
        delivers(delivery, action),
{
    match action {
        Action::Settled(notify) => Delivery::Settled(notify.into_request()),
        Action::WaitingForInput(notify) => Delivery::WaitingForInput(notify.into_request()),
        Action::Mentioned(notify) => Delivery::Mentioned(notify.into_request()),
        Action::MarkDone { user, notification_id } => {
            let mut notification_ids: Vec<u128> = Vec::new();
            notification_ids.push(notification_id);
            Delivery::Update(
                UpdateNotificationsRequest { user_id: user, notification_ids, done: true },
            )
        },
    }
}

/// What a failed action was about, for the log.
pub fn failure_context(action: &Action) -> (context: &'static str)
    ensures
        context@ == (match *action {
            Action::Settled(_) => "agent_session_settled"@,
            Action::WaitingForInput(_) => "agent_session_waiting_for_input"@,
            Action::Mentioned(_) => "agent_session_mentioned"@,
            Action::MarkDone { .. } => "mark an agent session notification done"@,
        }),
{
    match action {
        Action::Settled(_) => AgentSessionSettledMetadata::tag(),
        Action::WaitingForInput(_) => AgentSessionWaitingForInputMetadata::tag(),
        Action::Mentioned(_) => AgentSessionMentionedMetadata::tag(),
        Action::MarkDone { .. } => "mark an agent session notification done",
    }
}

/// What the consumer is waiting for.
#[derive(Debug, PartialEq, Eq)]
pub enum Consumer {
    /// The next record.
    Receiving,
    /// One of the record's actions to be accepted.
    Applying {
        /// The record's partition.
        partition: i32,
        /// The record's offset.
        offset: i64,
        /// Attempts that have failed.
        failed: usize,
        /// Everything the record's fact warrants, in order.
        actions: Vec<Action>,
        /// Which of them is being delivered.
        at: usize,
    },
    /// The pause before the actions are delivered again.
    Pausing {
        /// The record's partition.
        partition: i32,
        /// The record's offset.
        offset: i64,
        /// Attempts that have failed.
        failed: usize,
        /// Everything the record's fact warrants, in order.
        actions: Vec<Action>,
    },
    /// Nothing: the consumer is over.
    Stopped,
}

/// What the host is to do next.
#[derive(Debug, PartialEq, Eq)]
pub enum ConsumerAction {
    /// Wait for the next record, or for the shutdown.
    Receive,
    /// Deliver this to the notification service.
    Deliver(Action),
    /// Wait.
    Sleep {
        /// How long.
        millis: u64,
    },
    /// Commit the record's offset, then wait for the next record.
    CommitAndReceive,
    /// Stop.
    Exit(Result<(), String>),
}

/// What came of an action.
#[derive(Debug, PartialEq, Eq)]
pub enum ConsumerEvent {
    /// The shutdown was asked for.
    Shutdown,
    /// The broker could not be read.
    ReceiveFailed,
    /// A record that is not a lifecycle fact.
    Undecodable,
    /// A lifecycle fact.
    Fact {
        /// The fact.
        event: AgentSessionLifecycleEvent,
        /// The record's partition.
        partition: i32,
        /// The record's offset.
        offset: i64,
    },
    /// The notification service answered.
    Delivered {
        /// Whether it accepted.
        accepted: bool,
    },
    /// The pause is over.
    Slept,
}

/// The mathematical model of [`Consumer`].
pub enum ConsumerView {
    Receiving,
    Applying { partition: i32, offset: i64, failed: usize, actions: Seq<ActionView>, at: nat },
    Pausing { partition: i32, offset: i64, failed: usize, actions: Seq<ActionView> },
    Stopped,
}

/// The mathematical model of [`ConsumerAction`].
pub enum ConsumerActionView {
    Receive,
    Deliver(ActionView),
    Sleep { millis: u64 },
    CommitAndReceive,
    Exit(Result<(), Text>),
}

impl DeepView for Consumer {
    type V = ConsumerView;

    open spec fn deep_view(&self) -> ConsumerView {
        match self {
            Consumer::Receiving => ConsumerView::Receiving,
            Consumer::Applying { partition, offset, failed, actions, at } => {
                ConsumerView::Applying {
                    partition: *partition,
                    offset: *offset,
                    failed: *failed,
                    actions: actions.deep_view(),
                    at: *at as nat,
                }
            },
            Consumer::Pausing { partition, offset, failed, actions } => ConsumerView::Pausing {
                partition: *partition,
                offset: *offset,
                failed: *failed,
                actions: actions.deep_view(),
            },
            Consumer::Stopped => ConsumerView::Stopped,
        }
    }
}

impl DeepView for ConsumerAction {
    type V = ConsumerActionView;

    open spec fn deep_view(&self) -> ConsumerActionView {
        match self {
            ConsumerAction::Receive => ConsumerActionView::Receive,
            ConsumerAction::Deliver(action) => ConsumerActionView::Deliver(action.deep_view()),
            ConsumerAction::Sleep { millis } => ConsumerActionView::Sleep { millis: *millis },
            ConsumerAction::CommitAndReceive => ConsumerActionView::CommitAndReceive,
            ConsumerAction::Exit(outcome) => ConsumerActionView::Exit(
                match outcome {
                    Ok(_) => Ok(()),
                    Err(message) => Err(message@),
                },
            ),
        }
    }
}

/// The complaint that a fact's actions keep failing.
pub open spec fn kept_failing(partition: i32, offset: i64) -> Text {
    "agent session notification actions failed after "@ + decimal_text(MAX_ATTEMPTS as nat)
        + " attempts (partition "@ + signed_text(partition as int) + " offset "@ + signed_text(
        offset as int,
    ) + ")"@
}

/// Whether an event answers what the consumer is waiting for.
pub open spec fn consumer_expects(consumer: ConsumerView, event: ConsumerEvent) -> bool {
    match consumer {
        ConsumerView::Receiving => !(event is Delivered) && !(event is Slept),
        ConsumerView::Applying { .. } => event is Delivered,
        ConsumerView::Pausing { .. } => event is Slept,
        ConsumerView::Stopped => false,
    }
}

/// Failures are counted up to the last attempt, and there is something to
/// deliver.
pub open spec fn consumer_wf(consumer: ConsumerView) -> bool {
    match consumer {
        ConsumerView::Applying { failed, actions, at, .. } => failed < MAX_ATTEMPTS && at
            < actions.len(),
        ConsumerView::Pausing { failed, actions, .. } => 0 < failed < MAX_ATTEMPTS && 0
            < actions.len(),
        _ => true,
    }
}

/// Delivering a record's actions from one of them on. A record whose actions
/// are all delivered is committed.
pub open spec fn delivering(
    partition: i32,
    offset: i64,
    failed: usize,
    actions: Seq<ActionView>,
    at: nat,
) -> (ConsumerView, ConsumerActionView) {
    if at < actions.len() {
        (
            ConsumerView::Applying { partition, offset, failed, actions, at },
            ConsumerActionView::Deliver(actions[at as int]),
        )
    } else {
        (ConsumerView::Receiving, ConsumerActionView::CommitAndReceive)
    }
}

/// What the consumer does with an event. Every action is idempotent, so a
/// record that failed in the middle is simply delivered from the top.
pub open spec fn consumer_stepped(consumer: ConsumerView, event: ConsumerEvent) -> (
    ConsumerView,
    ConsumerActionView,
) {
    match (consumer, event) {
        (ConsumerView::Receiving, ConsumerEvent::Shutdown) => (
            ConsumerView::Stopped,
            ConsumerActionView::Exit(Ok(())),
        ),
        (ConsumerView::Receiving, ConsumerEvent::ReceiveFailed) => (
            ConsumerView::Receiving,
            ConsumerActionView::Receive,
        ),
        (ConsumerView::Receiving, ConsumerEvent::Undecodable) => (
            ConsumerView::Receiving,
            ConsumerActionView::CommitAndReceive,
        ),
        (ConsumerView::Receiving, ConsumerEvent::Fact { event, partition, offset }) => delivering(
            partition,
            offset,
            0,
            plan_of(event),
            0,
        ),
        (
            ConsumerView::Applying { partition, offset, failed, actions, at },
            ConsumerEvent::Delivered { accepted },
        ) => if accepted {
            delivering(partition, offset, failed, actions, at + 1)
        } else if failed + 1 >= MAX_ATTEMPTS {
            (ConsumerView::Stopped, ConsumerActionView::Exit(Err(kept_failing(partition, offset))))
        } else {
            (
                ConsumerView::Pausing { partition, offset, failed: (failed + 1) as usize, actions },
                ConsumerActionView::Sleep {
                    millis: seq![1000u64, 2000, 4000, 8000][failed as int],
                },
            )
        },
        (
            ConsumerView::Pausing { partition, offset, failed, actions },
            ConsumerEvent::Slept,
        ) => delivering(partition, offset, failed, actions, 0),
        _ => (consumer, ConsumerActionView::Receive),
    }
}

impl Consumer {
    /// Whether an event answers what the consumer is waiting for.
    pub fn expects(&self, event: &ConsumerEvent) -> (expected: bool)
        ensures
            expected == consumer_expects(self.deep_view(), *event),
    {
        match self {
            Consumer::Receiving => !matches!(
                event,
                ConsumerEvent::Delivered { .. } | ConsumerEvent::Slept
            ),
            Consumer::Applying { .. } => matches!(event, ConsumerEvent::Delivered { .. }),
            Consumer::Pausing { .. } => matches!(event, ConsumerEvent::Slept),
            Consumer::Stopped => false,
        }
    }

    /// Begin consuming.
    pub fn start() -> (begun: (Consumer, ConsumerAction))
        ensures
            begun.0.deep_view() == ConsumerView::Receiving,
            begun.1.deep_view() == ConsumerActionView::Receive,
            consumer_wf(begun.0.deep_view()),
    {
        (Consumer::Receiving, ConsumerAction::Receive)
    }

    fn deliver(
        partition: i32,
        offset: i64,
        failed: usize,
        actions: Vec<Action>,
        at: usize,
    ) -> (next: (Consumer, ConsumerAction))
        ensures
            (next.0.deep_view(), next.1.deep_view()) == delivering(
                partition,
                offset,
                failed,
                actions.deep_view(),
                at as nat,
            ),
    {
        if at < actions.len() {
            let action: Action = actions[at].clone();
            assert(action.deep_view() == actions.deep_view()[at as int]);
            (
                Consumer::Applying { partition, offset, failed, actions, at },
                ConsumerAction::Deliver(action),
            )
        } else {
            (Consumer::Receiving, ConsumerAction::CommitAndReceive)
        }
    }

    /// Take in what came of the last action.
    pub fn step(self, event: ConsumerEvent) -> (next: (Consumer, ConsumerAction))
        requires
            consumer_wf(self.deep_view()),
            consumer_expects(self.deep_view(), event),
        ensures
            consumer_wf(next.0.deep_view()),
            (next.0.deep_view(), next.1.deep_view()) == consumer_stepped(self.deep_view(), event),
    {
        match (self, event) {
            (Consumer::Receiving, ConsumerEvent::Shutdown) => (
                Consumer::Stopped,
                ConsumerAction::Exit(Ok(())),
            ),
            (Consumer::Receiving, ConsumerEvent::Undecodable) => (
                Consumer::Receiving,
                ConsumerAction::CommitAndReceive,
            ),
            (Consumer::Receiving, ConsumerEvent::Fact { event, partition, offset }) => {
                Self::deliver(partition, offset, 0, plan(&event), 0)
            },
            (
                Consumer::Applying { partition, offset, failed, actions, at },
                ConsumerEvent::Delivered { accepted },
            ) => {
                assert(at < actions.len());
                if accepted {
                    return Self::deliver(partition, offset, failed, actions, at + 1);
                }
                match after_failure(failed + 1) {
                    AfterFailure::Retry { millis } => (
                        Consumer::Pausing { partition, offset, failed: failed + 1, actions },
                        ConsumerAction::Sleep { millis },
                    ),
                    AfterFailure::GiveUp => {
                        let mut message: String =
                            "agent session notification actions failed after ".to_owned();
                        message.append(decimal(MAX_ATTEMPTS as u64).as_str());
                        message.append(" attempts (partition ");
                        message.append(signed_decimal(partition as i64).as_str());
                        message.append(" offset ");
                        message.append(signed_decimal(offset).as_str());
                        message.append(")");
                        (Consumer::Stopped, ConsumerAction::Exit(Err(message)))
                    },
                }
            },
            (
                Consumer::Pausing { partition, offset, failed, actions },
                ConsumerEvent::Slept,
            ) => Self::deliver(partition, offset, failed, actions, 0),
            (consumer, _) => (consumer, ConsumerAction::Receive),
        }
    }
}

/// An offset is committed only for a record nobody can read, for a fact that
/// warrants nothing, or once the last of a fact's actions was accepted; a fact
/// whose actions keep failing ends the consumer with its offset uncommitted, so
/// that a restart redelivers it.
pub proof fn law_only_settled_records_are_committed(consumer: ConsumerView, event: ConsumerEvent)
    requires
        consumer_wf(consumer),
        consumer_expects(consumer, event),
    ensures
        consumer_stepped(consumer, event).1 is CommitAndReceive <==> {
            ||| consumer is Receiving && event is Undecodable
            ||| consumer is Receiving && (event matches ConsumerEvent::Fact { event: fact, .. }
                && plan_of(fact).len() == 0)
            ||| event == (ConsumerEvent::Delivered { accepted: true }) && (consumer matches
                ConsumerView::Applying { actions, at, .. } && at == actions.len() - 1)
        },
        consumer_stepped(consumer, event).1 matches ConsumerActionView::Exit(Err(_)) ==> (
        consumer matches ConsumerView::Applying { failed, .. } && failed == MAX_ATTEMPTS - 1),
{
}

/// A fact's actions are delivered in order, each only once the one before was
/// accepted, and every retry begins with the first.
pub proof fn law_actions_are_delivered_in_order(consumer: ConsumerView, event: ConsumerEvent)
    requires
        consumer_wf(consumer),
        consumer_expects(consumer, event),
        consumer_stepped(consumer, event).1 is Deliver,
    ensures
        ({
            let next = consumer_stepped(consumer, event);
            &&& next.0 matches ConsumerView::Applying { actions, at, .. } && next.1
                == ConsumerActionView::Deliver(actions[at as int])
            &&& next.0->Applying_at > 0 ==> event == (ConsumerEvent::Delivered { accepted: true })
                && consumer is Applying && consumer->Applying_at + 1 == next.0->Applying_at
                && consumer->Applying_actions == next.0->Applying_actions
            &&& consumer is Pausing ==> next.0->Applying_at == 0 && next.0->Applying_actions
                == consumer->Pausing_actions
        }),
{
}

} // verus!

//! The sessions of a process: opening, restoring, closing, stopping.

use crate::cursor::model::{CursorAgentId, CursorRunId, ListingView, RunListing, SessionId};
use crate::cursor::models::{
    effective_model, effective_model_of, lookup_of, model_lookup, CursorModel, McpServer,
    ModelChoice, ModelLookup, ServerView,
};
use crate::cursor::session::{blank_state, ErrorView, SessionError, SessionState, StateView};
use crate::decimal::{decimal, decimal_text, lemma_decimal_text_injective};
use crate::text::Text;
use vstd::prelude::*;

verus! {

/// The id a session minted by its counter carries.
pub open spec fn minted_name(number: nat) -> Text {
    "cursor-acp-"@ + decimal_text(number)
}

/// Different counters mint different ids.
pub proof fn lemma_minted_name_injective(left: nat, right: nat)
    requires
        minted_name(left) == minted_name(right),
    ensures
        left == right,
{
    let prefix = "cursor-acp-"@;
    assert(minted_name(left).skip(prefix.len() as int) =~= decimal_text(left));
    assert(minted_name(right).skip(prefix.len() as int) =~= decimal_text(right));
    lemma_decimal_text_injective(left, right);
}

/// One registered session.
#[derive(Debug)]
pub struct Registered<T> {
    /// Its id.
    pub id: SessionId,
    /// What the host keeps for it.
    pub value: T,
}

/// The sessions of a process, by id.
#[derive(Debug)]
pub struct SessionRegistry<T> {
    next: u64,
    sessions: Vec<Registered<T>>,
}

impl<T> SessionRegistry<T> {
    spec fn has(self, id: Text) -> bool {
        exists|i: int|
            0 <= i < self.sessions@.len() && (#[trigger] self.sessions@[i]).id.deep_view() == id
    }

    spec fn place(self, id: Text) -> int {
        choose|i: int|
            0 <= i < self.sessions@.len() && (#[trigger] self.sessions@[i]).id.deep_view() == id
    }

    /// The sessions by id.
    pub closed spec fn sessions(self) -> Map<Text, T> {
        Map::new(|id: Text| self.has(id), |id: Text| self.sessions@[self.place(id)].value)
    }

    /// How many sessions there are.
    pub closed spec fn count(self) -> nat {
        self.sessions@.len()
    }

    /// The id of the session at a place of the registry.
    pub closed spec fn id_at(self, place: int) -> Text {
        self.sessions@[place].id.deep_view()
    }

    /// The counter of the last minted id.
    pub closed spec fn minted(self) -> u64 {
        self.next
    }

    /// No id is registered twice.
    pub closed spec fn wf(self) -> bool {
        forall|i: int, j: int|
            0 <= i < j < self.sessions@.len() ==> (#[trigger] self.sessions@[i]).id.deep_view() != (
            #[trigger] self.sessions@[j]).id.deep_view()
    }

    proof fn lemma_at(self, i: int)
        requires
            self.wf(),
            0 <= i < self.sessions@.len(),
        ensures
            self.sessions().dom().contains(self.sessions@[i].id.deep_view()),
            self.sessions()[self.sessions@[i].id.deep_view()] == self.sessions@[i].value,
    {
        let id = self.sessions@[i].id.deep_view();
        let place = self.place(id);
        assert(self.sessions@[place].id.deep_view() == id);
        if place < i {
            assert(self.sessions@[place].id.deep_view() != self.sessions@[i].id.deep_view());
        } else if i < place {
            assert(self.sessions@[i].id.deep_view() != self.sessions@[place].id.deep_view());
        }
    }

    /// Walking the places of the registry meets every session exactly once:
    /// different places hold different ids, and an id is registered exactly
    /// when some place holds it.
    pub proof fn law_a_walk_meets_every_session_once(self)
        requires
            self.wf(),
        ensures
            forall|i: int, j: int|
                0 <= i < j < self.count() ==> #[trigger] self.id_at(i) != #[trigger] self.id_at(j),
            forall|id: Text| #[trigger]
                self.sessions().dom().contains(id) <==> exists|place: int|
                    0 <= place < self.count() && #[trigger] self.id_at(place) == id,
    {
        assert forall|id: Text| #[trigger]
            self.sessions().dom().contains(id) <==> exists|place: int|
                0 <= place < self.count() && #[trigger] self.id_at(place) == id by {
            if self.has(id) {
                assert(self.id_at(self.place(id)) == id);
            }
            if exists|place: int| 0 <= place < self.count() && #[trigger] self.id_at(place) == id {
                let place = choose|place: int|
                    0 <= place < self.count() && #[trigger] self.id_at(place) == id;
                self.lemma_at(place);
            }
        }
    }

    /// No sessions yet.
    pub fn new() -> (registry: SessionRegistry<T>)
        ensures
            registry.wf(),
            registry.sessions() == Map::<Text, T>::empty(),
            registry.count() == 0,
            registry.minted() == 0,
    {
        let registry = SessionRegistry { next: 0, sessions: Vec::new() };
        assert(registry.sessions() =~= Map::<Text, T>::empty());
        registry
    }

    fn find(&self, id: &SessionId) -> (at: Option<usize>)
        requires
            self.wf(),
        ensures
            match at {
                Some(at) => at < self.sessions@.len() && self.sessions@[at as int].id.deep_view()
                    == id.deep_view(),
                None => !self.sessions().dom().contains(id.deep_view()),
            },
    {
        let mut i: usize = 0;
        while i < self.sessions.len()
            invariant
                i <= self.sessions@.len(),
                forall|k: int|
                    0 <= k < i ==> (#[trigger] self.sessions@[k]).id.deep_view() != id.deep_view(),
            decreases self.sessions@.len() - i,
        {
            if self.sessions[i].id.same(id) {
                return Some(i);
            }
            i = i + 1;
        }
        None
    }

    /// Whether a session is live in this process.
    pub fn has_session(&self, id: &SessionId) -> (live: bool)
        requires
            self.wf(),
        ensures
            live == self.sessions().dom().contains(id.deep_view()),
    {
        match self.find(id) {
            Some(at) => {
                proof {
                    self.lemma_at(at as int);
                }
                true
            },
            None => false,
        }
    }

    /// A session's value, or the error that names the unknown id.
    pub fn session(&self, id: &SessionId) -> (found: Result<&T, SessionError>)
        requires
            self.wf(),
        ensures
            match found {
                Ok(value) => self.sessions().dom().contains(id.deep_view()) && *value
                    == self.sessions()[id.deep_view()],
                Err(error) => !self.sessions().dom().contains(id.deep_view())
                    && error.deep_view() == ErrorView::UnknownSession(id.deep_view()),
            },
    {
        match self.find(id) {
            Some(at) => {
                proof {
                    self.lemma_at(at as int);
                }
                Ok(&self.sessions[at].value)
            },
            None => Err(SessionError::UnknownSession(id.clone())),
        }
    }

    /// How many sessions there are.
    pub fn len(&self) -> (count: usize)
        ensures
            count == self.count(),
    {
        self.sessions.len()
    }

    /// Whether the counter can still mint an id for another session.
    pub fn has_room(&self) -> (room: bool)
        ensures
            room == (self.minted() + self.count() < u64::MAX),
    {
        (self.sessions.len() as u64) < u64::MAX - self.next
    }

    /// The session at a place of the registry.
    pub fn at(&self, place: usize) -> (session: &Registered<T>)
        requires
            self.wf(),
            place < self.count(),
        ensures
            session.id.deep_view() == self.id_at(place as int),
            self.sessions().dom().contains(session.id.deep_view()),
            self.sessions()[session.id.deep_view()] == session.value,
    {
        proof {
            self.lemma_at(place as int);
        }
        &self.sessions[place]
    }

    /// Drop a session, reporting whether it existed. Any active run keeps
    /// running: closing a session does not imply cancelling the work.
    pub fn close(&mut self, id: &SessionId) -> (existed: bool)
        requires
            old(self).wf(),
        ensures
            final(self).wf(),
            existed == old(self).sessions().dom().contains(id.deep_view()),
            final(self).sessions() == old(self).sessions().remove(id.deep_view()),
            final(self).minted() == old(self).minted(),
            final(self).count() == old(self).count() - if existed {
                1int
            } else {
                0
            },
    {
        match self.find(id) {
            None => {
                assert(self.sessions() =~= old(self).sessions().remove(id.deep_view()));
                false
            },
            Some(at) => {
                let ghost before = *self;
                proof {
                    self.lemma_at(at as int);
                }
                self.sessions.remove(at);
                proof {
                    let after = *self;
                    assert forall|i: int| 0 <= i < after.sessions@.len() implies #[trigger]
                        after.sessions@[i] == before.sessions@[if i < at {
                        i
                    } else {
                        i + 1
                    }] by {}
                    assert(after.wf()) by {
                        assert forall|i: int, j: int|
                            0 <= i < j < after.sessions@.len() implies (
                        #[trigger] after.sessions@[i]).id.deep_view() != (
                        #[trigger] after.sessions@[j]).id.deep_view() by {
                            let k = if i < at {
                                i
                            } else {
                                i + 1
                            };
                            let l = if j < at {
                                j
                            } else {
                                j + 1
                            };
                            assert(before.sessions@[k].id.deep_view()
                                != before.sessions@[l].id.deep_view());
                        }
                    }
                    assert forall|key: Text| #[trigger]
                        after.sessions().dom().contains(key) == before.sessions().remove(
                            id.deep_view(),
                        ).dom().contains(key) by {
                        if after.has(key) {
                            let i = after.place(key);
                            let k = if i < at {
                                i
                            } else {
                                i + 1
                            };
                            assert(after.sessions@[i] == before.sessions@[k]);
                            before.lemma_at(k);
                            if k < at {
                                assert(before.sessions@[k].id.deep_view()
                                    != before.sessions@[at as int].id.deep_view());
                            } else {
                                assert(before.sessions@[at as int].id.deep_view()
                                    != before.sessions@[k].id.deep_view());
                            }
                        }
                        if before.has(key) && key != id.deep_view() {
                            let k = before.place(key);
                            let i = if k < at {
                                k
                            } else {
                                k - 1
                            };
                            assert(after.sessions@[i] == before.sessions@[k]);
                            after.lemma_at(i);
                        }
                    }
                    assert forall|key: Text| #[trigger]
                        after.sessions().dom().contains(key) implies after.sessions()[key]
                        == before.sessions().remove(id.deep_view())[key] by {
                        let i = after.place(key);
                        let k = if i < at {
                            i
                        } else {
                            i + 1
                        };
                        assert(after.sessions@[i] == before.sessions@[k]);
                        after.lemma_at(i);
                        before.lemma_at(k);
                    }
                    assert(after.sessions() =~= before.sessions().remove(id.deep_view()));
                }
                true
            },
        }
    }

    proof fn lemma_pushed(before: SessionRegistry<T>, after: SessionRegistry<T>, added: Registered<T>)
        requires
            before.wf(),
            after.sessions@ == before.sessions@.push(added),
            !before.sessions().dom().contains(added.id.deep_view()),
        ensures
            after.wf(),
            after.sessions() == before.sessions().insert(added.id.deep_view(), added.value),
    {
        let id = added.id.deep_view();
        let count = before.sessions@.len() as int;
        assert(after.wf()) by {
            assert forall|i: int, j: int| 0 <= i < j < after.sessions@.len() implies (
            #[trigger] after.sessions@[i]).id.deep_view() != (
            #[trigger] after.sessions@[j]).id.deep_view() by {
                assert(after.sessions@[i] == before.sessions@[i]);
                if j == count {
                    before.lemma_at(i);
                } else {
                    assert(after.sessions@[j] == before.sessions@[j]);
                }
            }
        }
        after.lemma_at(count);
        assert forall|key: Text| key != id implies #[trigger] after.sessions().dom().contains(key)
            == before.sessions().dom().contains(key) by {
            if after.has(key) {
                let i = after.place(key);
                assert(after.sessions@[i] == before.sessions@[i]);
                before.lemma_at(i);
            }
            if before.has(key) {
                let i = before.place(key);
                assert(after.sessions@[i] == before.sessions@[i]);
                after.lemma_at(i);
            }
        }
        assert forall|key: Text|
            key != id && #[trigger] before.sessions().dom().contains(
                key,
            ) implies after.sessions()[key] == before.sessions()[key] by {
            let i = before.place(key);
            assert(after.sessions@[i] == before.sessions@[i]);
            after.lemma_at(i);
            before.lemma_at(i);
        }
        assert(after.sessions() =~= before.sessions().insert(id, added.value));
    }

    /// Seed a session a previous process created. Replaces any session already
    /// under the id: the restored fact wins.
    pub fn restore(&mut self, id: SessionId, value: T)
        requires
            old(self).wf(),
        ensures
            final(self).wf(),
            final(self).sessions() == old(self).sessions().insert(id.deep_view(), value),
            final(self).minted() == old(self).minted(),
            final(self).count() == old(self).count() + if old(self).sessions().dom().contains(
                id.deep_view(),
            ) {
                0int
            } else {
                1
            },
    {
        self.close(&id);
        let ghost before = *self;
        let registered = Registered { id, value };
        self.sessions.push(registered);
        proof {
            Self::lemma_pushed(before, *self, registered);
            assert(old(self).sessions().remove(id.deep_view()).insert(id.deep_view(), value)
                =~= old(self).sessions().insert(id.deep_view(), value));
        }
    }

    proof fn lemma_occupied(keys: Seq<Text>, start: nat, count: nat)
        requires
            forall|n: nat| start < n <= start + count ==> keys.contains(#[trigger] minted_name(n)),
        ensures
            count <= keys.len(),
        decreases count,
    {
        if count > 0 {
            let last = minted_name(start + count);
            let at = keys.index_of(last);
            let rest = keys.remove(at);
            assert forall|n: nat| start < n <= start + (count - 1) implies rest.contains(
                #[trigger] minted_name(n),
            ) by {
                let name = minted_name(n);
                if name == last {
                    lemma_minted_name_injective(n, start + count);
                }
                let i = keys.index_of(name);
                if i < at {
                    assert(rest[i] == name);
                } else {
                    assert(rest[i - 1] == name);
                }
            }
            Self::lemma_occupied(rest, start, (count - 1) as nat);
        }
    }

    /// Open a session under a freshly minted id.
    ///
    /// The counter restarts with each process, but restored sessions carry ids
    /// minted by earlier ones; those are skipped rather than silently
    /// replacing a live session.
    pub fn open(&mut self, value: T) -> (id: SessionId)
        requires
            old(self).wf(),
            old(self).minted() + old(self).count() < u64::MAX,
        ensures
            final(self).wf(),
            !old(self).sessions().dom().contains(id.deep_view()),
            final(self).sessions() == old(self).sessions().insert(id.deep_view(), value),
            final(self).count() == old(self).count() + 1,
            final(self).minted() > old(self).minted(),
            id.deep_view() == minted_name(final(self).minted() as nat),
            forall|n: nat|
                old(self).minted() < n < final(self).minted()
                    ==> old(self).sessions().dom().contains(#[trigger] minted_name(n)),
    {
        let ghost before = *self;
        let ghost start = self.next;
        let ghost keys = Seq::new(
            before.sessions@.len(),
            |i: int| before.sessions@[i].id.deep_view(),
        );
        loop
            invariant
                before == *old(self),
                self.sessions == before.sessions,
                before.wf(),
                start == before.next,
                keys == Seq::new(
                    before.sessions@.len(),
                    |i: int| before.sessions@[i].id.deep_view(),
                ),
                start + before.sessions@.len() < u64::MAX,
                start <= self.next <= start + before.sessions@.len(),
                forall|n: nat|
                    start < n <= self.next ==> before.sessions().dom().contains(
                        #[trigger] minted_name(n),
                    ),
            decreases start + before.sessions@.len() - self.next,
        {
            self.next = self.next + 1;
            let mut name: String = "cursor-acp-".to_owned();
            name.append(decimal(self.next).as_str());
            let candidate = SessionId { value: name };
            let ghost tried = self.next as nat;
            assert(candidate.deep_view() == minted_name(tried));
            let free: bool = match self.find(&candidate) {
                Some(at) => {
                    proof {
                        self.lemma_at(at as int);
                    }
                    false
                },
                None => true,
            };
            assert(self.sessions() =~= before.sessions());
            if free {
                let registered = Registered { id: candidate.clone(), value };
                self.sessions.push(registered);
                proof {
                    Self::lemma_pushed(before, *self, registered);
                }
                return candidate;
            }
            proof {
                assert forall|n: nat| start < n <= self.next implies keys.contains(
                    #[trigger] minted_name(n),
                ) by {
                    assert(before.sessions().dom().contains(minted_name(n)));
                    let i = before.place(minted_name(n));
                    assert(before.sessions@[i].id.deep_view() == minted_name(n));
                    assert(keys[i] == minted_name(n));
                }
                Self::lemma_occupied(keys, start as nat, (self.next - start) as nat);
            }
        }
    }
}

/// The state of a session this process opens.
pub open spec fn opened_state(mcp_servers: Seq<ServerView>) -> StateView {
    StateView { mcp_servers, ready_for_sync: true, fresh: true, ..blank_state() }
}

/// The state of a session an earlier process created. It must be loaded before
/// it syncs or takes a prompt.
pub open spec fn restored_state(agent: Option<Text>, last_run: Option<Text>) -> StateView {
    StateView { agent, last_run, ..blank_state() }
}

/// What a stop is sent to.
#[derive(Debug, PartialEq, Eq)]
pub enum CancelPlan {
    /// The session's first prompt is still creating its agent; the turn sends
    /// the stop as soon as the run has an id.
    Nothing,
    /// The run this process is streaming.
    Run {
        /// The agent.
        agent: CursorAgentId,
        /// The run.
        run: CursorRunId,
    },
    /// Whatever runs Cursor says are current.
    Current {
        /// The agent.
        agent: CursorAgentId,
    },
}

/// The mathematical model of [`CancelPlan`].
pub enum CancelView {
    Nothing,
    Run { agent: Text, run: Text },
    Current { agent: Text },
}

impl DeepView for CancelPlan {
    type V = CancelView;

    open spec fn deep_view(&self) -> CancelView {
        match self {
            CancelPlan::Nothing => CancelView::Nothing,
            CancelPlan::Run { agent, run } => CancelView::Run {
                agent: agent.deep_view(),
                run: run.deep_view(),
            },
            CancelPlan::Current { agent } => CancelView::Current { agent: agent.deep_view() },
        }
    }
}

/// What a stop is sent to, given the session's agent and active run.
pub open spec fn cancel_plan(state: StateView) -> CancelView {
    match state.agent {
        None => CancelView::Nothing,
        Some(agent) => match state.active_run {
            Some(run) => CancelView::Run { agent, run },
            None => CancelView::Current { agent },
        },
    }
}

/// Picks the runs still in progress.
pub open spec fn is_current() -> spec_fn(ListingView) -> bool {
    |listing: ListingView| listing.status.in_progress()
}

/// The runs of a list that are still in progress.
pub open spec fn current_ids(listings: Seq<ListingView>) -> Seq<Text> {
    listings.filter(is_current()).map_values(|listing: ListingView| listing.id)
}

/// The runs of a list that are still in progress. Every one of them is
/// cancelled, though Cursor documents one active run per agent.
pub fn current_runs(listings: &Vec<RunListing>) -> (runs: Vec<CursorRunId>)
    ensures
        runs.deep_view() == current_ids(listings.deep_view()),
{
    let ghost all = listings.deep_view();
    let mut runs: Vec<CursorRunId> = Vec::new();
    let mut i: usize = 0;
    proof {
        reveal(Seq::filter);
        assert(runs.deep_view() =~= current_ids(all.take(0)));
    }
    while i < listings.len()
        invariant
            i <= listings@.len(),
            all == listings.deep_view(),
            runs.deep_view() == current_ids(all.take(i as int)),
        decreases listings@.len() - i,
    {
        let ghost before = runs.deep_view();
        let ghost listing = listings@[i as int].deep_view();
        proof {
            reveal(Seq::filter);
            assert(all.take(i + 1).drop_last() =~= all.take(i as int));
            assert(all.take(i + 1).last() == listing);
        }
        if listings[i].status.in_progress() {
            runs.push(listings[i].id.clone());
            proof {
                let kept = all.take(i as int).filter(is_current());
                assert(runs.deep_view() =~= before.push(listing.id));
                assert(all.take(i + 1).filter(is_current()) == kept.push(listing));
                assert(kept.push(listing).map_values(|listing: ListingView| listing.id)
                    =~= kept.map_values(|listing: ListingView| listing.id).push(listing.id));
            }
        }
        i = i + 1;
    }
    assert(all.take(i as int) =~= all);
    runs
}

impl SessionState {
    /// The state of a session this process opens.
    pub fn opened(mcp_servers: Vec<McpServer>) -> (state: SessionState)
        ensures
            state.deep_view() == opened_state(mcp_servers.deep_view()),
    {
        let mut state: SessionState = SessionState::default();
        state.mcp_servers = mcp_servers;
        state.ready_for_sync = true;
        state.fresh = true;
        state
    }

    /// The state of a session an earlier process created.
    pub fn restored(agent: Option<CursorAgentId>, last_run: Option<CursorRunId>) -> (state:
        SessionState)
        ensures
            state.deep_view() == restored_state(agent.deep_view(), last_run.deep_view()),
    {
        let mut state: SessionState = SessionState::default();
        state.agent = agent;
        state.last_run = last_run;
        state
    }

    /// Replace the session's tool servers with the client's current list.
    pub fn set_mcp_servers(&mut self, mcp_servers: Vec<McpServer>)
        ensures
            final(self).deep_view() == (StateView {
                mcp_servers: mcp_servers.deep_view(),
                ..old(self).deep_view()
            }),
    {
        self.mcp_servers = mcp_servers;
    }

    /// Choose the model of the session's next run.
    pub fn set_model(&mut self, model: ModelChoice)
        ensures
            final(self).deep_view() == (StateView {
                model: Some(model.deep_view()),
                ..old(self).deep_view()
            }),
    {
        self.model = Some(model);
    }

    /// The model of the session's next run, and remember it: an explicit choice
    /// first, then what the session used before a restart, then what the
    /// deployment pins. What cannot be resolved is no opinion, and is looked up
    /// again the next time.
    pub fn settle_model(
        &mut self,
        restored: &Option<String>,
        default: &Option<String>,
        models: &Option<Vec<CursorModel>>,
    ) -> (choice: Option<ModelChoice>)
        ensures
            choice.deep_view() == effective_model_of(
                lookup_of(old(self).deep_view().model, restored.deep_view(), default.deep_view()),
                models.deep_view(),
            ),
            final(self).deep_view() == (StateView {
                model: if choice is Some {
                    choice.deep_view()
                } else {
                    old(self).deep_view().model
                },
                ..old(self).deep_view()
            }),
    {
        let lookup = model_lookup(&self.model, restored, default);
        let choice: Option<ModelChoice> = effective_model(lookup, models);
        if let Some(model) = &choice {
            self.set_model(model.clone());
        }
        choice
    }

    /// Whether the session's model cannot be told without the models Cursor
    /// offers, which are fetched once and reused.
    pub fn needs_models(
        &self,
        restored: &Option<String>,
        default: &Option<String>,
        models: &Option<Vec<CursorModel>>,
    ) -> (needed: bool)
        ensures
            needed == (models is None && lookup_of(
                self.deep_view().model,
                restored.deep_view(),
                default.deep_view(),
            ) is Resolve),
    {
        models.is_none() && matches!(
            model_lookup(&self.model, restored, default),
            ModelLookup::Resolve(_)
        )
    }

    /// Record that history begins with this process.
    pub fn history_begun(&mut self)
        ensures
            final(self).deep_view() == (StateView { fresh: false, ..old(self).deep_view() }),
    {
        self.fresh = false;
    }

    /// Stop the session's turn, and say what the stop is sent to. Idempotent:
    /// the turn may have ended while the stop was in flight.
    pub fn cancel(&mut self) -> (plan: CancelPlan)
        ensures
            final(self).deep_view() == (StateView { cancelled: true, ..old(self).deep_view() }),
            plan.deep_view() == cancel_plan(old(self).deep_view()),
    {
        self.cancelled = true;
        match &self.agent {
            None => CancelPlan::Nothing,
            Some(agent) => match &self.active_run {
                Some(run) => CancelPlan::Run { agent: agent.clone(), run: run.clone() },
                None => CancelPlan::Current { agent: agent.clone() },
            },
        }
    }

    /// The agent whose runs a background sync catches up, when the session
    /// takes background updates at all.
    pub fn sync_target(&self) -> (agent: Option<CursorAgentId>)
        ensures
            agent.deep_view() == (if self.deep_view().ready_for_sync
                && !self.deep_view().reload_pending {
                self.deep_view().agent
            } else {
                None
            }),
    {
        if self.ready_for_sync && !self.reload_pending {
            match &self.agent {
                Some(agent) => Some(agent.clone()),
                None => None,
            }
        } else {
            None
        }
    }
}

/// Stopping a session twice is stopping it once: the second stop finds the
/// same target.
pub proof fn law_a_stop_can_be_repeated(state: StateView)
    ensures
        cancel_plan(StateView { cancelled: true, ..state }) == cancel_plan(state),
{
}

} // verus!

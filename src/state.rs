use vstd::prelude::*;
use std::collections::HashMap;
use crate::gateway::Gateway;
use crate::query::QueryConfig;
use crate::route::QueryId;

verus! {

broadcast use vstd::std_specs::hash::group_hash_axioms;

/// The lifecycle state of a query, with what each stage holds.
#[derive(Debug)]
pub enum QueryState {
    /// The prepare request went out; the followers have not confirmed yet.
    Preparing(QueryConfig),
    /// All helpers agreed; the gateway is ready and inputs are awaited.
    AwaitingInputs(QueryConfig, Gateway),
    /// The protocol runs; its completion handle is held by the caller.
    Running,
    /// The result is being drained.
    AwaitingCompletion,
    Completed,
}

/// The observable stage of a query. `Empty` stands for a query that is not
/// registered.
#[derive(Debug, Clone, Copy, PartialEq, Eq, Structural)]
pub enum QueryStatus {
    Empty,
    Preparing,
    AwaitingInputs,
    Running,
    AwaitingCompletion,
    Completed,
}

/// Errors of the query registry.
#[derive(Debug, Clone, Copy, PartialEq, Eq, Structural)]
pub enum StateError {
    /// A query with this id is already registered.
    AlreadyRunning,
    /// The query cannot move from `from` to `to`.
    InvalidState { from: QueryStatus, to: QueryStatus },
}

/// The status a state shows.
pub open spec fn status_of(s: QueryState) -> QueryStatus {
    match s {
        QueryState::Preparing(_) => QueryStatus::Preparing,
        QueryState::AwaitingInputs(_, _) => QueryStatus::AwaitingInputs,
        QueryState::Running => QueryStatus::Running,
        QueryState::AwaitingCompletion => QueryStatus::AwaitingCompletion,
        QueryState::Completed => QueryStatus::Completed,
    }
}

/// Position of a status in the lifecycle order
/// `Empty < Preparing < AwaitingInputs < Running < AwaitingCompletion < Completed`.
pub open spec fn rank(s: QueryStatus) -> nat {
    match s {
        QueryStatus::Empty => 0,
        QueryStatus::Preparing => 1,
        QueryStatus::AwaitingInputs => 2,
        QueryStatus::Running => 3,
        QueryStatus::AwaitingCompletion => 4,
        QueryStatus::Completed => 5,
    }
}

/// The status of an optional registration; an absent query is `Empty`.
pub open spec fn status_or_empty(s: Option<QueryStatus>) -> QueryStatus {
    match s {
        Some(st) => st,
        None => QueryStatus::Empty,
    }
}

/// A transition is legal exactly when it moves one stage forward.
pub open spec fn legal_transition(from: QueryStatus, to: QueryStatus) -> bool {
    rank(to) == rank(from) + 1
}

/// The outcome of asking a query in status `from` to move to `to`.
pub open spec fn transition_outcome(from: QueryStatus, to: QueryStatus) -> Result<(), StateError> {
    if legal_transition(from, to) {
        Ok(())
    } else if to == QueryStatus::Preparing {
        Err(StateError::AlreadyRunning)
    } else {
        Err(StateError::InvalidState { from, to })
    }
}

/// What a state must satisfy to be held under `id`: a gateway belongs to
/// that query and is well formed.
pub open spec fn state_wf(id: u64, s: QueryState) -> bool {
    match s {
        QueryState::AwaitingInputs(_, g) => g.wf() && g.query().id == id,
        _ => true,
    }
}

impl QueryStatus {
    /// The status a state shows.
    pub fn of(s: &QueryState) -> (r: QueryStatus)
        ensures
            r == status_of(*s),
    {
        match s {
            QueryState::Preparing(_) => QueryStatus::Preparing,
            QueryState::AwaitingInputs(_, _) => QueryStatus::AwaitingInputs,
            QueryState::Running => QueryStatus::Running,
            QueryState::AwaitingCompletion => QueryStatus::AwaitingCompletion,
            QueryState::Completed => QueryStatus::Completed,
        }
    }

    /// Position of this status in the lifecycle order.
    pub fn order(&self) -> (r: u8)
        ensures
            r as nat == rank(*self),
    {
        match self {
            QueryStatus::Empty => 0,
            QueryStatus::Preparing => 1,
            QueryStatus::AwaitingInputs => 2,
            QueryStatus::Running => 3,
            QueryStatus::AwaitingCompletion => 4,
            QueryStatus::Completed => 5,
        }
    }
}

/// Decides whether a query in status `from` may move to `to`.
pub fn check_transition(from: QueryStatus, to: QueryStatus) -> (r: Result<(), StateError>)
    ensures
        r == transition_outcome(from, to),
{
    if to.order() == from.order() + 1 {
        Ok(())
    } else if to == QueryStatus::Preparing {
        Err(StateError::AlreadyRunning)
    } else {
        Err(StateError::InvalidState { from, to })
    }
}

/// The registry of the queries known to this helper, by id.
#[derive(Debug)]
pub struct RunningQueries {
    inner: HashMap<u64, QueryState>,
}

impl RunningQueries {
    /// The registered states, by query id.
    pub closed spec fn states(&self) -> Map<u64, QueryState> {
        self.inner@
    }

    /// The status of query `id`, `None` when it is not registered.
    pub open spec fn status_spec(&self, id: QueryId) -> Option<QueryStatus> {
        if self.states().contains_key(id.id) {
            Some(status_of(self.states()[id.id]))
        } else {
            None
        }
    }

    pub open spec fn wf(&self) -> bool {
        forall|k: u64| #[trigger] self.states().contains_key(k) ==> state_wf(k, self.states()[k])
    }

    /// An empty registry.
    pub fn new() -> (r: RunningQueries)
        ensures
            r.wf(),
            r.states() == Map::<u64, QueryState>::empty(),
    {
        RunningQueries { inner: HashMap::new() }
    }

    /// The status of query `id`.
    pub fn status(&self, id: QueryId) -> (r: Option<QueryStatus>)
        ensures
            r == self.status_spec(id),
    {
        match self.inner.get(&id.id) {
            Some(s) => Some(QueryStatus::of(s)),
            None => None,
        }
    }

    /// Moves query `id` to `new`, provided that is one stage forward from
    /// where it stands (an absent query stands at `Empty`). On success the
    /// state it left is handed back, if there was one; on failure nothing
    /// changes.
    pub fn replace_state(&mut self, id: QueryId, new: QueryState) -> (r: Result<
        Option<QueryState>,
        StateError,
    >)
        requires
            old(self).wf(),
            state_wf(id.id, new),
        ensures
            final(self).wf(),
            match transition_outcome(status_or_empty(old(self).status_spec(id)), status_of(new)) {
                Ok(_) => {
                    &&& final(self).states() == old(self).states().insert(id.id, new)
                    &&& r matches Ok(prev) && (old(self).states().contains_key(id.id) ==> prev
                        == Some(old(self).states()[id.id])) && (!old(self).states().contains_key(
                        id.id,
                    ) ==> prev is None)
                },
                Err(e) => {
                    &&& final(self).states() == old(self).states()
                    &&& r == Err::<Option<QueryState>, StateError>(e)
                },
            },
    {
        let from = match self.status(id) {
            Some(s) => s,
            None => QueryStatus::Empty,
        };
        let to = QueryStatus::of(&new);
        match check_transition(from, to) {
            Ok(()) => {
                let prev = self.inner.insert(id.id, new);
                proof {
                    assert forall|k: u64| #[trigger] self.states().contains_key(k) implies state_wf(
                        k,
                        self.states()[k],
                    ) by {
                        if k != id.id {
                            assert(old(self).states().contains_key(k));
                        }
                    }
                }
                Ok(prev)
            },
            Err(e) => Err(e),
        }
    }

    /// Moves query `id` to `new` when that is one stage forward; fails with
    /// `AlreadyRunning` when a registered query is asked to prepare again, and
    /// with `InvalidState` on any other skip or regression.
    pub fn set_state(&mut self, id: QueryId, new: QueryState) -> (r: Result<(), StateError>)
        requires
            old(self).wf(),
            state_wf(id.id, new),
        ensures
            final(self).wf(),
            r == transition_outcome(status_or_empty(old(self).status_spec(id)), status_of(new)),
            r is Ok ==> final(self).states() == old(self).states().insert(id.id, new),
            r is Err ==> final(self).states() == old(self).states(),
    {
        match self.replace_state(id, new) {
            Ok(_) => Ok(()),
            Err(e) => Err(e),
        }
    }
}

/// Transitions follow the lifecycle order and nothing else: a move is
/// accepted exactly when it goes one stage forward. Every skip ahead and every
/// move back or in place is refused, with `AlreadyRunning` when a registered
/// query is asked to prepare again and with `InvalidState { from, to }`
/// otherwise.
pub proof fn lemma_transitions_follow_order(from: QueryStatus, to: QueryStatus)
    ensures
        transition_outcome(from, to) is Ok <==> rank(to) == rank(from) + 1,
        rank(to) != rank(from) + 1 && to != QueryStatus::Preparing ==> transition_outcome(from, to)
            == Err::<(), StateError>(StateError::InvalidState { from, to }),
        rank(to) != rank(from) + 1 && to == QueryStatus::Preparing ==> transition_outcome(from, to)
            == Err::<(), StateError>(StateError::AlreadyRunning),
        from == QueryStatus::Empty ==> (transition_outcome(from, to) is Ok <==> to
            == QueryStatus::Preparing),
{
}

} // verus!

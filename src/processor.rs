use vstd::prelude::*;
use crate::gateway::{Gateway, GatewayConfig};
use crate::identity::{coordinator_table, HelperIdentity, Role, RoleAssignment};
use crate::query::{PrepareQuery, QueryConfig};
use crate::route::QueryId;
use crate::state::{
    rank, status_of, status_or_empty, transition_outcome, QueryState, QueryStatus,
    RunningQueries, StateError,
};

verus! {

/// How a transport operation failed.
#[derive(Debug, Clone, Copy, PartialEq, Eq, Structural)]
pub enum TransportErrorKind {
    /// The peer answered with a negative acknowledgement.
    Rejected,
    /// The connection broke before the peer acknowledged.
    ConnectionLost,
    /// The peer could not be reached.
    Unreachable,
}

/// A failed transport operation.
#[derive(Debug, Clone, Copy, PartialEq, Eq, Structural)]
pub struct TransportError {
    pub kind: TransportErrorKind,
}

/// Why starting a query as coordinator failed.
#[derive(Debug, Clone, Copy, PartialEq, Eq, Structural)]
pub enum NewQueryError {
    State(StateError),
    Transport(TransportError),
    /// The reply channel of the request was dropped.
    OneshotRecv,
}

/// Why a follower refused a prepare request.
#[derive(Debug, Clone, Copy, PartialEq, Eq, Structural)]
pub enum PrepareQueryError {
    /// This helper is the query coordinator and cannot answer prepare requests.
    WrongTarget,
    /// The query is already registered on this helper.
    AlreadyRunning,
    StateError { source: StateError },
}

/// Why the inputs of a query were refused.
#[derive(Debug, Clone, Copy, PartialEq, Eq, Structural)]
pub enum QueryInputError {
    NoSuchQuery(QueryId),
    StateError { source: StateError },
}

/// Why the result of a query cannot be drained.
#[derive(Debug, Clone, Copy, PartialEq, Eq, Structural)]
pub enum QueryCompletionError {
    NoSuchQuery(QueryId),
    StateError { source: StateError },
}

/// The id a coordinator gives to a new query: one query is active at a time.
pub open spec fn new_query_id() -> QueryId {
    QueryId { id: 0 }
}

/// No query moves back, and no registered query disappears.
pub open spec fn only_forward(before: Map<u64, QueryState>, after: Map<u64, QueryState>) -> bool {
    forall|q: u64| #[trigger]
        before.contains_key(q) ==> after.contains_key(q) && rank(status_of(after[q])) >= rank(
            status_of(before[q]),
        )
}

/// Every running query is still running.
pub open spec fn keeps_running(before: Map<u64, QueryState>, after: Map<u64, QueryState>) -> bool {
    forall|q: u64| #[trigger]
        before.contains_key(q) && status_of(before[q]) == QueryStatus::Running ==> after.contains_key(
            q,
        ) && status_of(after[q]) == QueryStatus::Running
}

/// Query `id` awaits inputs with `config`, over a fresh gateway for that
/// query with `roles`, on the helper that plays `role`.
pub open spec fn awaits_inputs(
    states: Map<u64, QueryState>,
    id: QueryId,
    config: QueryConfig,
    roles: RoleAssignment,
    role: Role,
) -> bool {
    &&& states.contains_key(id.id)
    &&& match states[id.id] {
        QueryState::AwaitingInputs(c, g) => {
            &&& c == config
            &&& g.wf()
            &&& g.query() == id
            &&& g.roles_spec() == roles
            &&& g.role_spec() == role
            &&& g.log().len() == 0
        },
        _ => false,
    }
}

/// Tells the compiler that a value may be shared between threads.
#[inline(always)]
pub fn ensure_sync<T: Sync>(thing: T) -> (r: T)
    ensures
        r == thing,
{
    thing
}

/// What [`Processor::new_query`] does: when no query is registered under the
/// new id, it registers one as `Preparing` and returns the prepare request of
/// the coordinator `identity`; otherwise it fails with `AlreadyRunning` and
/// changes nothing.
pub open spec fn new_query_outcome(
    before: Processor,
    req: QueryConfig,
    identity: HelperIdentity,
    after: Processor,
    r: Result<PrepareQuery, NewQueryError>,
) -> bool {
    &&& before.status_spec(new_query_id()) is None ==> {
        &&& r matches Ok(p) && p.query_id == new_query_id() && p.config == req
            && p.roles.table() == coordinator_table(identity)
        &&& after.states() == before.states().insert(
            new_query_id().id,
            QueryState::Preparing(req),
        )
    }
    &&& before.status_spec(new_query_id()) is Some ==> {
        &&& r == Err::<PrepareQuery, NewQueryError>(
            NewQueryError::State(StateError::AlreadyRunning),
        )
        &&& after.states() == before.states()
    }
}

/// What [`Processor::confirm_query`] does: a failed prepare exchange is
/// reported and changes nothing; after a successful one the query moves to
/// `AwaitingInputs` over a new gateway of the coordinator, provided it may
/// (it was `Preparing`), else the transition error is returned.
pub open spec fn confirm_outcome(
    before: Processor,
    request: PrepareQuery,
    acks: Result<(), TransportError>,
    after: Processor,
    r: Result<PrepareQuery, NewQueryError>,
) -> bool {
    &&& acks matches Err(e) ==> {
        &&& r == Err::<PrepareQuery, NewQueryError>(NewQueryError::Transport(e))
        &&& after.states() == before.states()
    }
    &&& acks is Ok ==> match transition_outcome(
        status_or_empty(before.status_spec(request.query_id)),
        QueryStatus::AwaitingInputs,
    ) {
        Ok(_) => {
            &&& r == Ok::<PrepareQuery, NewQueryError>(request)
            &&& awaits_inputs(
                after.states(),
                request.query_id,
                request.config,
                request.roles,
                Role::H1,
            )
            &&& after.states().remove(request.query_id.id) == before.states().remove(
                request.query_id.id,
            )
        },
        Err(e) => {
            &&& r == Err::<PrepareQuery, NewQueryError>(NewQueryError::State(e))
            &&& after.states() == before.states()
        },
    }
}

/// A second query started on a helper before the first one is gone fails
/// with `AlreadyRunning`, whatever became of the first one's prepare exchange.
pub proof fn lemma_second_new_query_rejected(
    p0: Processor,
    p1: Processor,
    p2: Processor,
    p3: Processor,
    req1: QueryConfig,
    req2: QueryConfig,
    identity: HelperIdentity,
    first: Result<PrepareQuery, NewQueryError>,
    second: Result<PrepareQuery, NewQueryError>,
)
    requires
        new_query_outcome(p0, req1, identity, p1, first),
        first is Ok,
        only_forward(p1.states(), p2.states()),
        new_query_outcome(p2, req2, identity, p3, second),
    ensures
        second == Err::<PrepareQuery, NewQueryError>(NewQueryError::State(StateError::AlreadyRunning)),
        p3.states() == p2.states(),
{
    assert(p1.states().contains_key(new_query_id().id));
}

/// A query whose start succeeded and whose followers both acknowledged the
/// prepare request awaits inputs.
pub proof fn lemma_new_query_then_confirm(
    p0: Processor,
    p1: Processor,
    p2: Processor,
    req: QueryConfig,
    identity: HelperIdentity,
    started: Result<PrepareQuery, NewQueryError>,
    confirmed: Result<PrepareQuery, NewQueryError>,
)
    requires
        new_query_outcome(p0, req, identity, p1, started),
        started is Ok,
        confirm_outcome(p1, started->Ok_0, Ok(()), p2, confirmed),
    ensures
        confirmed == started,
        p2.status_spec(new_query_id()) == Some(QueryStatus::AwaitingInputs),
{
}

/// The coordinator path never addresses a prepare request to itself: the
/// request goes to the helpers playing `H2` and `H3`, neither of which is the
/// coordinator, and each of them reads a follower role from it, so neither
/// answers `WrongTarget`.
pub proof fn lemma_prepare_never_to_self(p: PrepareQuery, c: HelperIdentity)
    requires
        p.roles.table() == coordinator_table(c),
    ensures
        p.roles.identity_of(Role::H2) != c,
        p.roles.identity_of(Role::H3) != c,
        p.roles.role_of(p.roles.identity_of(Role::H2)) == Role::H2,
        p.roles.role_of(p.roles.identity_of(Role::H3)) == Role::H3,
        p.roles.role_of(c) == Role::H1,
{
}

/// Accepts and tracks the queries of this helper. It makes sure a query is
/// agreed on by all three helpers before inputs are taken, and that each query
/// goes through its lifecycle in order:
/// `Preparing`, `AwaitingInputs`, `Running`, `AwaitingCompletion`, `Completed`.
///
/// Talking to the peers is left to the caller: the operations here return
/// what must be sent and take the outcome of sending it.
#[derive(Debug)]
pub struct Processor {
    queries: RunningQueries,
}

impl Processor {
    /// The registered states, by query id.
    pub closed spec fn states(&self) -> Map<u64, QueryState> {
        self.queries.states()
    }

    pub closed spec fn wf(&self) -> bool {
        self.queries.wf()
    }

    /// The status of query `id`, `None` when it is not registered.
    pub open spec fn status_spec(&self, id: QueryId) -> Option<QueryStatus> {
        if self.states().contains_key(id.id) {
            Some(status_of(self.states()[id.id]))
        } else {
            None
        }
    }

    pub fn new() -> (p: Processor)
        ensures
            p.wf(),
            p.states() == Map::<u64, QueryState>::empty(),
    {
        ensure_sync(Processor { queries: RunningQueries::new() })
    }

    /// The status of query `id`. Reading it changes nothing, so two reads with
    /// no transition between them agree.
    pub fn status(&self, query_id: QueryId) -> (r: Option<QueryStatus>)
        ensures
            r == self.status_spec(query_id),
    {
        self.queries.status(query_id)
    }

    /// Starts a query as its coordinator. The helper `identity` becomes `H1`,
    /// its right neighbour `H2` and its left neighbour `H3`; the query is
    /// registered as `Preparing` and the prepare request to send to both
    /// followers is returned. Fails with `AlreadyRunning` while a query is
    /// registered under the new id.
    pub fn new_query(&mut self, req: QueryConfig, identity: HelperIdentity) -> (r: Result<
        PrepareQuery,
        NewQueryError,
    >)
        requires
            old(self).wf(),
        ensures
            final(self).wf(),
            only_forward(old(self).states(), final(self).states()),
            keeps_running(old(self).states(), final(self).states()),
            new_query_outcome(*old(self), req, identity, *final(self), r),
    {
        let query_id = QueryId { id: 0 };
        match self.queries.set_state(query_id, QueryState::Preparing(req)) {
            Ok(()) => {},
            Err(e) => {
                return Err(NewQueryError::State(e));
            },
        }
        let others = identity.others();
        let roles = RoleAssignment::new([identity, others[0], others[1]]);
        proof {
            assert(roles.table() =~= coordinator_table(identity));
        }
        Ok(PrepareQuery { query_id, config: req, roles })
    }

    /// Completes a query started by [`Processor::new_query`] once both
    /// followers were asked to prepare, `acks` being the outcome of those
    /// requests. When either follower failed, the error is returned and the
    /// query stays `Preparing`. Otherwise the gateway of the query is built and
    /// the query moves on to `AwaitingInputs`.
    pub fn confirm_query(&mut self, request: PrepareQuery, acks: Result<(), TransportError>) -> (r:
        Result<PrepareQuery, NewQueryError>)
        requires
            old(self).wf(),
        ensures
            final(self).wf(),
            only_forward(old(self).states(), final(self).states()),
            keeps_running(old(self).states(), final(self).states()),
            confirm_outcome(*old(self), request, acks, *final(self), r),
    {
        if let Err(e) = acks {
            return Err(NewQueryError::Transport(e));
        }
        proof {
            use_type_invariant(&request.roles);
            request.roles.lemma_inv_wf();
        }
        let gateway = Gateway::new(
            request.query_id,
            GatewayConfig::default_config(),
            request.roles,
            Role::H1,
        );
        match self.queries.set_state(
            request.query_id,
            QueryState::AwaitingInputs(request.config, gateway),
        ) {
            Ok(()) => {
                proof {
                    assert(final(self).states().remove(request.query_id.id) =~= old(
                        self,
                    ).states().remove(request.query_id.id));
                }
                Ok(request)
            },
            Err(e) => Err(NewQueryError::State(e)),
        }
    }

    /// Takes part in a query as a follower. Fails with `WrongTarget`, changing
    /// nothing, when the request makes the helper `identity` the coordinator;
    /// with `AlreadyRunning` when the query is registered already. Otherwise
    /// the query's gateway is built and the query awaits inputs.
    pub fn prepare(&mut self, req: PrepareQuery, identity: HelperIdentity) -> (r: Result<
        (),
        PrepareQueryError,
    >)
        requires
            old(self).wf(),
        ensures
            final(self).wf(),
            only_forward(old(self).states(), final(self).states()),
            keeps_running(old(self).states(), final(self).states()),
            req.roles.role_of(identity) == Role::H1 ==> {
                &&& r == Err::<(), PrepareQueryError>(PrepareQueryError::WrongTarget)
                &&& final(self).states() == old(self).states()
            },
            req.roles.role_of(identity) != Role::H1 && old(self).status_spec(req.query_id) is Some
                ==> {
                &&& r == Err::<(), PrepareQueryError>(PrepareQueryError::AlreadyRunning)
                &&& final(self).states() == old(self).states()
            },
            req.roles.role_of(identity) != Role::H1 && old(self).status_spec(req.query_id) is None
                ==> {
                &&& r is Ok
                &&& awaits_inputs(
                    final(self).states(),
                    req.query_id,
                    req.config,
                    req.roles,
                    req.roles.role_of(identity),
                )
                &&& final(self).states().remove(req.query_id.id) == old(self).states().remove(
                    req.query_id.id,
                )
            },
    {
        let my_role = req.roles.role(identity);
        if my_role == Role::H1 {
            return Err(PrepareQueryError::WrongTarget);
        }
        if self.queries.status(req.query_id).is_some() {
            return Err(PrepareQueryError::AlreadyRunning);
        }
        proof {
            use_type_invariant(&req.roles);
            req.roles.lemma_inv_wf();
        }
        let gateway = Gateway::new(req.query_id, GatewayConfig::default_config(), req.roles, my_role);
        let ghost before = self.states();
        match self.queries.set_state(req.query_id, QueryState::Preparing(req.config)) {
            Ok(()) => {},
            Err(e) => {
                return Err(PrepareQueryError::StateError { source: e });
            },
        }
        match self.queries.set_state(req.query_id, QueryState::AwaitingInputs(req.config, gateway)) {
            Ok(()) => {},
            Err(e) => {
                proof {
                    assert(false);
                }
                return Err(PrepareQueryError::StateError { source: e });
            },
        }
        proof {
            assert(self.states().remove(req.query_id.id) =~= before.remove(req.query_id.id));
        }
        Ok(())
    }

    /// Takes the inputs of a query that awaits them: the query moves to
    /// `Running`, and its configuration and gateway are handed out to run the
    /// protocol. Fails with `NoSuchQuery` for an unknown query, and with
    /// `InvalidState { from, to: Running }` from any other status, changing
    /// nothing.
    pub fn receive_inputs(&mut self, query_id: QueryId) -> (r: Result<
        (QueryConfig, Gateway),
        QueryInputError,
    >)
        requires
            old(self).wf(),
        ensures
            final(self).wf(),
            only_forward(old(self).states(), final(self).states()),
            keeps_running(old(self).states(), final(self).states()),
            old(self).status_spec(query_id) is None ==> {
                &&& r == Err::<(QueryConfig, Gateway), QueryInputError>(
                    QueryInputError::NoSuchQuery(query_id),
                )
                &&& final(self).states() == old(self).states()
            },
            old(self).status_spec(query_id) == Some(QueryStatus::AwaitingInputs) ==> {
                &&& r matches Ok((c, g)) && old(self).states()[query_id.id]
                    == QueryState::AwaitingInputs(c, g) && g.wf() && g.query() == query_id
                &&& final(self).states() == old(self).states().insert(
                    query_id.id,
                    QueryState::Running,
                )
            },
            old(self).status_spec(query_id) matches Some(s) ==> s
                != QueryStatus::AwaitingInputs ==> {
                &&& r == Err::<(QueryConfig, Gateway), QueryInputError>(
                    QueryInputError::StateError {
                        source: StateError::InvalidState { from: s, to: QueryStatus::Running },
                    },
                )
                &&& final(self).states() == old(self).states()
            },
    {
        if self.queries.status(query_id).is_none() {
            return Err(QueryInputError::NoSuchQuery(query_id));
        }
        let ghost before = self.states();
        match self.queries.replace_state(query_id, QueryState::Running) {
            Ok(Some(QueryState::AwaitingInputs(config, gateway))) => {
                proof {
                    assert(state_wf_at(before, query_id.id));
                }
                Ok((config, gateway))
            },
            Ok(_) => {
                proof {
                    assert(false);
                }
                Err(QueryInputError::NoSuchQuery(query_id))
            },
            Err(e) => Err(QueryInputError::StateError { source: e }),
        }
    }

    /// Starts draining the result of a running query: it moves to
    /// `AwaitingCompletion`, and the caller awaits the protocol's completion.
    /// Fails with `NoSuchQuery` for an unknown query, and with
    /// `InvalidState { from, to: Running }` when it is not running, changing
    /// nothing.
    pub fn complete(&mut self, query_id: QueryId) -> (r: Result<(), QueryCompletionError>)
        requires
            old(self).wf(),
        ensures
            final(self).wf(),
            only_forward(old(self).states(), final(self).states()),
            old(self).status_spec(query_id) is None ==> {
                &&& r == Err::<(), QueryCompletionError>(QueryCompletionError::NoSuchQuery(query_id))
                &&& final(self).states() == old(self).states()
            },
            old(self).status_spec(query_id) == Some(QueryStatus::Running) ==> {
                &&& r is Ok
                &&& final(self).states() == old(self).states().insert(
                    query_id.id,
                    QueryState::AwaitingCompletion,
                )
            },
            old(self).status_spec(query_id) matches Some(s) ==> s != QueryStatus::Running ==> {
                &&& r == Err::<(), QueryCompletionError>(
                    QueryCompletionError::StateError {
                        source: StateError::InvalidState { from: s, to: QueryStatus::Running },
                    },
                )
                &&& final(self).states() == old(self).states()
            },
    {
        let from = match self.queries.status(query_id) {
            None => {
                return Err(QueryCompletionError::NoSuchQuery(query_id));
            },
            Some(s) => s,
        };
        if from != QueryStatus::Running {
            return Err(
                QueryCompletionError::StateError {
                    source: StateError::InvalidState { from, to: QueryStatus::Running },
                },
            );
        }
        match self.queries.set_state(query_id, QueryState::AwaitingCompletion) {
            Ok(()) => Ok(()),
            Err(e) => {
                proof {
                    assert(false);
                }
                Err(QueryCompletionError::StateError { source: e })
            },
        }
    }

    /// Records that the result of a query was handed out: it moves from
    /// `AwaitingCompletion` to `Completed`. Fails with `NoSuchQuery` for an
    /// unknown query, and with `InvalidState { from, to: Completed }` from any
    /// other status, changing nothing.
    pub fn mark_completed(&mut self, query_id: QueryId) -> (r: Result<(), QueryCompletionError>)
        requires
            old(self).wf(),
        ensures
            final(self).wf(),
            only_forward(old(self).states(), final(self).states()),
            keeps_running(old(self).states(), final(self).states()),
            old(self).status_spec(query_id) is None ==> {
                &&& r == Err::<(), QueryCompletionError>(QueryCompletionError::NoSuchQuery(query_id))
                &&& final(self).states() == old(self).states()
            },
            old(self).status_spec(query_id) == Some(QueryStatus::AwaitingCompletion) ==> {
                &&& r is Ok
                &&& final(self).states() == old(self).states().insert(
                    query_id.id,
                    QueryState::Completed,
                )
            },
            old(self).status_spec(query_id) matches Some(s) ==> s
                != QueryStatus::AwaitingCompletion ==> {
                &&& r == Err::<(), QueryCompletionError>(
                    QueryCompletionError::StateError {
                        source: StateError::InvalidState { from: s, to: QueryStatus::Completed },
                    },
                )
                &&& final(self).states() == old(self).states()
            },
    {
        if self.queries.status(query_id).is_none() {
            return Err(QueryCompletionError::NoSuchQuery(query_id));
        }
        match self.queries.set_state(query_id, QueryState::Completed) {
            Ok(()) => Ok(()),
            Err(e) => Err(QueryCompletionError::StateError { source: e }),
        }
    }
}

/// The state held under `k` in `m`, if any, is well formed for `k`.
spec fn state_wf_at(m: Map<u64, QueryState>, k: u64) -> bool {
    m.contains_key(k) ==> crate::state::state_wf(k, m[k])
}

} // verus!

use vstd::prelude::*;
use crate::identity::{Role, RoleAssignment, HelperIdentity};
use crate::route::{QueryId, RecordId, RouteId, Step};

verus! {

/// Which way a share exchange goes, seen from this helper.
#[derive(Debug, Clone, Copy, PartialEq, Eq, Structural)]
pub enum Flow {
    Send,
    Receive,
}

/// Batching parameters of the gateway's send channels.
#[derive(Debug, Clone, Copy, PartialEq, Eq, Structural)]
pub struct GatewayConfig {
    /// Number of records a send channel gathers before it emits a frame.
    pub items_in_batch: u32,
}

impl GatewayConfig {
    /// The batching used when nothing else is asked for: every record goes out
    /// in a frame of its own.
    pub fn default_config() -> (c: GatewayConfig)
        ensures
            c.items_in_batch == 1,
    {
        GatewayConfig { items_in_batch: 1 }
    }
}

/// One share exchange: with which peer, which way, on which step, for which record.
#[derive(Debug)]
pub struct Exchange {
    pub peer: Role,
    pub flow: Flow,
    pub step: Step,
    pub record_id: RecordId,
}

/// An exchange as a plain value.
pub type ExchangeView = (Role, Flow, Seq<char>, RecordId);

impl View for Exchange {
    type V = ExchangeView;

    open spec fn view(&self) -> ExchangeView {
        (self.peer, self.flow, self.step@, self.record_id)
    }
}

/// A send endpoint: record bytes for `dest` go out under the route
/// `(Records, query_id, step)`.
#[derive(Debug)]
pub struct SendChannel {
    pub dest: HelperIdentity,
    pub route: (RouteId, QueryId, Step),
}

/// A receive endpoint: record bytes from `from` come in under `(query_id, step)`.
#[derive(Debug)]
pub struct ReceiveChannel {
    pub from: HelperIdentity,
    pub route: (QueryId, Step),
}

/// Errors of the channel fabric.
#[derive(Debug, Clone, Copy, PartialEq, Eq, Structural)]
pub enum GatewayError {
    /// This `(peer, flow, step, record)` exchange was already made.
    DuplicateRecord { peer: Role, flow: Flow, record_id: RecordId },
}

/// The per-query multiplexer that turns addressed peer streams into
/// step-keyed record channels. It records each exchange made through it so
/// that no record is exchanged twice the same way with the same peer
/// on the same step.
#[derive(Debug)]
pub struct Gateway {
    query_id: QueryId,
    config: GatewayConfig,
    roles: RoleAssignment,
    role: Role,
    exchanges: Vec<Exchange>,
}

impl Gateway {
    pub closed spec fn query(&self) -> QueryId {
        self.query_id
    }

    pub closed spec fn roles_spec(&self) -> RoleAssignment {
        self.roles
    }

    pub closed spec fn config_spec(&self) -> GatewayConfig {
        self.config
    }

    /// The role this helper plays in the gateway's query.
    pub closed spec fn role_spec(&self) -> Role {
        self.role
    }

    /// The exchanges made so far, in order.
    pub closed spec fn log(&self) -> Seq<ExchangeView> {
        self.exchanges@.map_values(|e: Exchange| e@)
    }

    pub open spec fn wf(&self) -> bool {
        &&& self.roles_spec().wf()
        &&& self.log().no_duplicates()
    }

    /// A gateway for the query `query_id`, on the helper that plays `role`.
    pub fn new(query_id: QueryId, config: GatewayConfig, roles: RoleAssignment, role: Role) -> (g: Gateway)
        requires
            roles.wf(),
        ensures
            g.wf(),
            g.query() == query_id,
            g.config_spec() == config,
            g.roles_spec() == roles,
            g.role_spec() == role,
            g.log() == Seq::<ExchangeView>::empty(),
    {
        let g = Gateway { query_id, config, roles, role, exchanges: Vec::new() };
        proof {
            assert(g.log() =~= Seq::<ExchangeView>::empty());
        }
        g
    }

    pub fn query_id(&self) -> (q: QueryId)
        ensures
            q == self.query(),
    {
        self.query_id
    }

    pub fn role(&self) -> (r: Role)
        ensures
            r == self.role_spec(),
    {
        self.role
    }

    pub fn roles(&self) -> (r: RoleAssignment)
        ensures
            r == self.roles_spec(),
    {
        self.roles
    }

    pub fn config(&self) -> (c: GatewayConfig)
        ensures
            c == self.config_spec(),
    {
        self.config
    }

    /// Whether `(peer, flow, step, record_id)` was exchanged already.
    pub fn is_used(&self, peer: Role, flow: Flow, step: &Step, record_id: RecordId) -> (r: bool)
        ensures
            r == self.log().contains((peer, flow, step@, record_id)),
    {
        let ghost target: ExchangeView = (peer, flow, step@, record_id);
        let mut i: usize = 0;
        while i < self.exchanges.len()
            invariant
                0 <= i <= self.exchanges@.len(),
                target == (peer, flow, step@, record_id),
                forall|j: int| 0 <= j < i ==> self.log()[j] != target,
            decreases self.exchanges@.len() - i,
        {
            let e = &self.exchanges[i];
            proof {
                assert(self.log()[i as int] == self.exchanges@[i as int]@);
            }
            let same_step = e.step.same_as(step);
            if same_step && e.peer == peer && e.flow == flow && e.record_id == record_id {
                proof {
                    assert(self.log()[i as int] == target);
                }
                return true;
            }
            i = i + 1;
        }
        proof {
            if self.log().contains(target) {
                let j = choose|j: int| 0 <= j < self.log().len() && self.log()[j] == target;
                assert(self.log()[j] == target);
            }
        }
        false
    }

    /// Records the exchange `(peer, flow, step, record_id)`. Fails, and
    /// changes nothing, when it was made before.
    pub fn claim(&mut self, peer: Role, flow: Flow, step: &Step, record_id: RecordId) -> (r:
        Result<(), GatewayError>)
        requires
            old(self).wf(),
        ensures
            final(self).wf(),
            final(self).query() == old(self).query(),
            final(self).roles_spec() == old(self).roles_spec(),
            final(self).role_spec() == old(self).role_spec(),
            final(self).config_spec() == old(self).config_spec(),
            old(self).log().contains((peer, flow, step@, record_id)) ==> {
                &&& r == Err::<(), GatewayError>(
                    GatewayError::DuplicateRecord { peer, flow, record_id },
                )
                &&& final(self).log() == old(self).log()
            },
            !old(self).log().contains((peer, flow, step@, record_id)) ==> {
                &&& r is Ok
                &&& final(self).log() == old(self).log().push((peer, flow, step@, record_id))
            },
    {
        if self.is_used(peer, flow, step, record_id) {
            return Err(GatewayError::DuplicateRecord { peer, flow, record_id });
        }
        let ghost before = self.log();
        self.exchanges.push(Exchange { peer, flow, step: step.duplicate(), record_id });
        proof {
            let e = (peer, flow, step@, record_id);
            assert(self.log() =~= before.push(e));
            assert forall|a: int, b: int|
                0 <= a < self.log().len() && 0 <= b < self.log().len() && a != b implies self.log()[a]
                != self.log()[b] by {
                if a < before.len() && b < before.len() {
                } else if a == before.len() {
                    assert(!before.contains(e));
                    assert(self.log()[b] == before[b]);
                } else {
                    assert(!before.contains(e));
                    assert(self.log()[a] == before[a]);
                }
            }
        }
        Ok(())
    }

    /// The endpoint for sending records of `step` to the helper that plays `peer`.
    pub fn get_sender(&self, peer: Role, step: &Step) -> (c: SendChannel)
        ensures
            c.dest == self.roles_spec().identity_of(peer),
            c.route.0 == RouteId::Records,
            c.route.1 == self.query(),
            c.route.2@ == step@,
    {
        SendChannel {
            dest: self.roles.identity(peer),
            route: (RouteId::Records, self.query_id, step.duplicate()),
        }
    }

    /// The endpoint for receiving records of `step` from the helper that plays `peer`.
    pub fn get_receiver(&self, peer: Role, step: &Step) -> (c: ReceiveChannel)
        ensures
            c.from == self.roles_spec().identity_of(peer),
            c.route.0 == self.query(),
            c.route.1@ == step@,
    {
        ReceiveChannel { from: self.roles.identity(peer), route: (self.query_id, step.duplicate()) }
    }
}

/// On a gateway, which serves one query, each exchange
/// `(peer, flow, step, record)` is made at most once: two entries of its log
/// that name the same exchange are the same entry, and asking for a made one
/// again is refused.
pub proof fn lemma_exchange_at_most_once(g: Gateway, i: int, j: int)
    requires
        g.wf(),
        0 <= i < g.log().len(),
        0 <= j < g.log().len(),
        g.log()[i] == g.log()[j],
    ensures
        i == j,
{
}

/// Gathers the records written to one send channel into frames: a frame
/// goes out once `items_in_batch` records are in it, or when the channel is
/// flushed or closed with records pending. Bytes leave in the order written.
#[derive(Debug)]
pub struct SendBuffer {
    items_in_batch: u32,
    items: u32,
    pending: Vec<u8>,
}

impl SendBuffer {
    /// Number of records that fill a frame.
    pub closed spec fn batch(&self) -> nat {
        self.items_in_batch as nat
    }

    /// Number of records waiting in the current frame.
    pub closed spec fn items_spec(&self) -> nat {
        self.items as nat
    }

    /// Bytes of the records waiting in the current frame.
    pub closed spec fn pending_spec(&self) -> Seq<u8> {
        self.pending@
    }

    pub open spec fn wf(&self) -> bool {
        &&& self.batch() > 0
        &&& self.items_spec() < self.batch()
        &&& self.items_spec() == 0 ==> self.pending_spec().len() == 0
    }

    /// An empty buffer that emits a frame every `config.items_in_batch`
    /// records (every record when that is zero).
    pub fn new(config: GatewayConfig) -> (b: SendBuffer)
        ensures
            b.wf(),
            b.batch() == if config.items_in_batch == 0 {
                1
            } else {
                config.items_in_batch as nat
            },
            b.items_spec() == 0,
            b.pending_spec() == Seq::<u8>::empty(),
    {
        let items_in_batch = if config.items_in_batch == 0 {
            1
        } else {
            config.items_in_batch
        };
        SendBuffer { items_in_batch, items: 0, pending: Vec::new() }
    }

    /// Writes one record. When it completes a frame, the frame (the pending
    /// bytes followed by the record) is returned and the buffer starts over;
    /// otherwise the record waits.
    pub fn push(&mut self, record: &[u8]) -> (r: Option<Vec<u8>>)
        requires
            old(self).wf(),
            old(self).pending_spec().len() + record@.len() <= usize::MAX,
        ensures
            final(self).wf(),
            final(self).batch() == old(self).batch(),
            old(self).items_spec() + 1 == old(self).batch() ==> {
                &&& r matches Some(frame) && frame@ == old(self).pending_spec() + record@
                &&& final(self).items_spec() == 0
                &&& final(self).pending_spec() == Seq::<u8>::empty()
            },
            old(self).items_spec() + 1 < old(self).batch() ==> {
                &&& r is None
                &&& final(self).items_spec() == old(self).items_spec() + 1
                &&& final(self).pending_spec() == old(self).pending_spec() + record@
            },
    {
        let ghost before = self.pending@;
        let mut i: usize = 0;
        while i < record.len()
            invariant
                0 <= i <= record@.len(),
                self.pending@ == before + record@.subrange(0, i as int),
                self.items_in_batch == old(self).items_in_batch,
                self.items == old(self).items,
            decreases record@.len() - i,
        {
            self.pending.push(record[i]);
            i = i + 1;
            proof {
                assert(self.pending@ =~= before + record@.subrange(0, i as int));
            }
        }
        proof {
            assert(record@.subrange(0, record@.len() as int) =~= record@);
        }
        if self.items + 1 == self.items_in_batch {
            let mut frame = Vec::new();
            std::mem::swap(&mut frame, &mut self.pending);
            self.items = 0;
            Some(frame)
        } else {
            self.items = self.items + 1;
            None
        }
    }

    /// Emits the pending records as a short frame, if there are any, and
    /// starts over.
    pub fn flush(&mut self) -> (r: Option<Vec<u8>>)
        requires
            old(self).wf(),
        ensures
            final(self).wf(),
            final(self).batch() == old(self).batch(),
            final(self).items_spec() == 0,
            final(self).pending_spec() == Seq::<u8>::empty(),
            old(self).items_spec() == 0 ==> r is None,
            old(self).items_spec() > 0 ==> (r matches Some(frame) && frame@ == old(
                self,
            ).pending_spec()),
    {
        if self.items == 0 {
            self.pending = Vec::new();
            return None;
        }
        let mut frame = Vec::new();
        std::mem::swap(&mut frame, &mut self.pending);
        self.items = 0;
        Some(frame)
    }
}

} // verus!

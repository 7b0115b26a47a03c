use ipa_query::gateway::{Flow, Gateway, GatewayConfig, GatewayError, SendBuffer};
use ipa_query::identity::{Direction, HelperIdentity, Role, RoleAssignment};
use ipa_query::mul::{
    field_modulus, Accumulator, MaliciousReplicated, MulError, ProtocolContext, Replicated, SecureMul,
};
use ipa_query::query::{FieldType, PrepareQuery, QueryConfig, QueryType};
use ipa_query::route::{
    route_key, NoResourceIdentifier, QueryId, RecordId, RouteId, RouteKey, RouteParams, Step,
};
use ipa_query::state::{check_transition, QueryStatus, RunningQueries, StateError, QueryState};
use ipa_query::transport::TransportImpl;

const QUERY: QueryId = QueryId { id: 0 };

fn gateway_for(role: Role) -> Gateway {
    let roles = RoleAssignment::new(HelperIdentity::make_three());
    Gateway::new(QUERY, GatewayConfig::default_config(), roles, role)
}

fn context(role: Role) -> ProtocolContext {
    ProtocolContext { step: Step::root().narrow("mul"), role, field: FieldType::Fp31 }
}

fn reconstruct(shares: &[Replicated; 3]) -> u64 {
    (shares[0].left + shares[1].left + shares[2].left) % 31
}

/// Runs one multiplication among three helpers over Fp31 and returns the shares.
fn multiply_three(a: [Replicated; 3], b: [Replicated; 3], r: [u64; 3]) -> [Replicated; 3] {
    let roles = [Role::H1, Role::H2, Role::H3];
    let mut gateways = roles.map(gateway_for);
    let record = RecordId { index: 0 };
    // Helper i shares r[i] with its right peer and r[i - 1] with its left peer.
    let mut rounds = Vec::new();
    for i in 0..3 {
        let ctx = context(roles[i]);
        let randomness = (r[(i + 2) % 3], r[i]);
        rounds.push(ctx.multiply_send(&mut gateways[i], record, a[i], b[i], randomness).unwrap());
    }
    let mut out = Vec::new();
    for i in 0..3 {
        let ctx = context(roles[i]);
        let from_left = rounds[(i + 2) % 3].right_d;
        out.push(ctx.multiply_receive(&mut gateways[i], rounds[i], from_left).unwrap());
    }
    [out[0], out[1], out[2]]
}

#[test]
fn test_multiply() {
    // a = 4 = 1 + 2 + 1, b = 5 = 3 + 1 + 1, shared as (x_i, x_{i+1}).
    let a = [
        Replicated { left: 1, right: 2 },
        Replicated { left: 2, right: 1 },
        Replicated { left: 1, right: 1 },
    ];
    let b = [
        Replicated { left: 3, right: 1 },
        Replicated { left: 1, right: 1 },
        Replicated { left: 1, right: 3 },
    ];
    let result = multiply_three(a, b, [7, 11, 29]);
    assert_eq!(reconstruct(&result), 20);
    for i in 0..3 {
        assert_eq!(result[i].right, result[(i + 1) % 3].left);
    }
}

#[test]
fn multiply_wraps_modulo_field() {
    // a = 30 = 10 + 10 + 10, b = 30 = 20 + 5 + 5; 900 mod 31 = 1.
    let a = [
        Replicated { left: 10, right: 10 },
        Replicated { left: 10, right: 10 },
        Replicated { left: 10, right: 10 },
    ];
    let b = [
        Replicated { left: 20, right: 5 },
        Replicated { left: 5, right: 5 },
        Replicated { left: 5, right: 20 },
    ];
    let result = multiply_three(a, b, [0, 30, 15]);
    assert_eq!(reconstruct(&result), 1);
}

#[test]
fn send_term_exact_value() {
    let mut g = gateway_for(Role::H1);
    let ctx = context(Role::H1);
    let a = Replicated { left: 1, right: 2 };
    let b = Replicated { left: 3, right: 1 };
    let round = ctx.send_term(&mut g, RecordId { index: 3 }, a, b, (5, 6)).unwrap();
    // 1 * 1 + 2 * 3 - 5 = 2
    assert_eq!(round.right_d, 2);
    let share = ctx.receive_term(&mut g, round, 4).unwrap();
    // left: 1 * 3 + 4 + 5 = 12; right: 2 * 1 + 2 + 6 = 10
    assert_eq!(share, Replicated { left: 12, right: 10 });
}

#[test]
fn record_reused_on_a_step_is_refused() {
    let mut g = gateway_for(Role::H2);
    let ctx = context(Role::H2);
    let a = Replicated { left: 1, right: 1 };
    let record = RecordId { index: 9 };
    ctx.send_term(&mut g, record, a, a, (0, 0)).unwrap();
    assert_eq!(
        ctx.send_term(&mut g, record, a, a, (0, 0)),
        Err(MulError::Channel(GatewayError::DuplicateRecord {
            peer: Role::H3,
            flow: Flow::Send,
            record_id: record
        }))
    );
    // Another step may use the same record id.
    let sub = ctx.narrow("bit");
    assert!(sub.send_term(&mut g, record, a, a, (0, 0)).is_ok());
    // And another record on the same step is fine.
    assert!(ctx.send_term(&mut g, RecordId { index: 10 }, a, a, (0, 0)).is_ok());
}

#[test]
fn claim_each_exchange_once() {
    let mut g = gateway_for(Role::H1);
    let step = Step::root().narrow("x");
    let rec = RecordId { index: 1 };
    assert!(!g.is_used(Role::H2, Flow::Send, &step, rec));
    assert_eq!(g.claim(Role::H2, Flow::Send, &step, rec), Ok(()));
    assert!(g.is_used(Role::H2, Flow::Send, &step, rec));
    assert_eq!(g.claim(Role::H2, Flow::Receive, &step, rec), Ok(()));
    assert_eq!(g.claim(Role::H3, Flow::Send, &step, rec), Ok(()));
    assert_eq!(
        g.claim(Role::H2, Flow::Send, &step, rec),
        Err(GatewayError::DuplicateRecord { peer: Role::H2, flow: Flow::Send, record_id: rec })
    );
}

#[test]
fn values_outside_field_are_refused() {
    let mut g = gateway_for(Role::H1);
    let ctx = context(Role::H1);
    let bad = Replicated { left: 31, right: 0 };
    let ok = Replicated { left: 0, right: 0 };
    assert_eq!(ctx.send_term(&mut g, RecordId { index: 0 }, bad, ok, (0, 0)), Err(MulError::NotInField));
    // Nothing was recorded, so the record can still be used.
    assert!(ctx.send_term(&mut g, RecordId { index: 0 }, ok, ok, (0, 0)).is_ok());
    assert_eq!(field_modulus(FieldType::Fp31), 31);
    assert_eq!(field_modulus(FieldType::Fp32BitPrime), 4294967291);
}

#[test]
fn channels_address_the_right_peer() {
    let g = gateway_for(Role::H2);
    let step = Step::root().narrow("mul");
    let s = g.get_sender(Role::H2.peer(Direction::Right), &step);
    assert_eq!(s.dest, HelperIdentity::Three);
    assert_eq!(s.route.0, RouteId::Records);
    assert_eq!(s.route.1, QUERY);
    assert_eq!(s.route.2.as_str(), "/mul");
    let r = g.get_receiver(Role::H2.peer(Direction::Left), &step);
    assert_eq!(r.from, HelperIdentity::One);
    assert_eq!(r.route.0, QUERY);
}

#[test]
fn ring_directions() {
    assert_eq!(Role::H1.peer(Direction::Right), Role::H2);
    assert_eq!(Role::H3.peer(Direction::Right), Role::H1);
    assert_eq!(Role::H1.peer(Direction::Left), Role::H3);
    assert_eq!(Role::H2.peer(Direction::Left), Role::H1);
}

#[test]
fn role_assignment_from_pairs() {
    let ok = RoleAssignment::try_from_pairs([
        (HelperIdentity::Two, Role::H1),
        (HelperIdentity::Three, Role::H2),
        (HelperIdentity::One, Role::H3),
    ])
    .unwrap();
    assert_eq!(ok.identity(Role::H1), HelperIdentity::Two);
    assert_eq!(ok.role(HelperIdentity::One), Role::H3);
    assert!(RoleAssignment::try_from_pairs([
        (HelperIdentity::Two, Role::H1),
        (HelperIdentity::Three, Role::H1),
        (HelperIdentity::One, Role::H3),
    ])
    .is_none());
    assert!(RoleAssignment::try_from_pairs([
        (HelperIdentity::Two, Role::H1),
        (HelperIdentity::Two, Role::H2),
        (HelperIdentity::One, Role::H3),
    ])
    .is_none());
}

#[test]
fn transitions_follow_the_order() {
    let order = [
        QueryStatus::Empty,
        QueryStatus::Preparing,
        QueryStatus::AwaitingInputs,
        QueryStatus::Running,
        QueryStatus::AwaitingCompletion,
        QueryStatus::Completed,
    ];
    for i in 0..order.len() {
        for j in 0..order.len() {
            let r = check_transition(order[i], order[j]);
            if j == i + 1 {
                assert_eq!(r, Ok(()));
            } else if order[j] == QueryStatus::Preparing {
                assert_eq!(r, Err(StateError::AlreadyRunning));
            } else {
                assert_eq!(r, Err(StateError::InvalidState { from: order[i], to: order[j] }));
            }
        }
    }
}

#[test]
fn registry_refuses_skips() {
    let mut q = RunningQueries::new();
    let config = QueryConfig { field_type: FieldType::Fp31, query_type: QueryType::TestMultiply };
    assert_eq!(
        q.set_state(QUERY, QueryState::Running),
        Err(StateError::InvalidState { from: QueryStatus::Empty, to: QueryStatus::Running })
    );
    assert_eq!(q.status(QUERY), None);
    assert_eq!(q.set_state(QUERY, QueryState::Preparing(config)), Ok(()));
    assert_eq!(q.set_state(QUERY, QueryState::Preparing(config)), Err(StateError::AlreadyRunning));
    assert_eq!(
        q.set_state(QUERY, QueryState::Completed),
        Err(StateError::InvalidState { from: QueryStatus::Preparing, to: QueryStatus::Completed })
    );
    assert_eq!(q.status(QUERY), Some(QueryStatus::Preparing));
    // Another query id is tracked on its own.
    assert_eq!(q.status(QueryId { id: 5 }), None);
}

#[test]
fn route_keys_have_the_wire_shape() {
    let step = Step::root().narrow("a").narrow("b");
    assert_eq!(step.as_str(), "/a/b");
    let records = (RouteId::Records, QUERY, step.duplicate());
    let k: RouteKey = route_key(&records);
    assert!(k.is_sendable());
    assert!(!k.is_receivable());
    assert_eq!(records.extra(), "");

    let incoming = (QUERY, step.duplicate());
    let _: NoResourceIdentifier = incoming.resource_identifier();
    let k = route_key(&incoming);
    assert!(k.is_receivable());
    assert!(!k.is_sendable());

    let prepare = PrepareQuery {
        query_id: QUERY,
        config: QueryConfig { field_type: FieldType::Fp31, query_type: QueryType::TestMultiply },
        roles: RoleAssignment::new(HelperIdentity::make_three()),
    };
    let k = route_key(&prepare);
    assert_eq!(k.route_id, Some(RouteId::PrepareQuery));
    assert_eq!(k.query_id, Some(QUERY));
    assert!(k.step.is_none());
    assert!(k.is_sendable());

    let submit = QueryConfig { field_type: FieldType::Fp31, query_type: QueryType::TestMultiply };
    let k = route_key(&submit);
    assert_eq!(k.route_id, Some(RouteId::ReceiveQuery));
    assert!(k.query_id.is_none() && k.step.is_none());
    assert!(k.is_sendable());

    let bad = RouteKey { route_id: Some(RouteId::ReceiveQuery), query_id: Some(QUERY), step: None };
    assert!(!bad.is_sendable());
}

#[test]
fn transport_identity_is_stable() {
    let t = TransportImpl::InMemory(HelperIdentity::Two);
    assert_eq!(t.identity(), HelperIdentity::Two);
    assert_eq!(t.clone().identity(), HelperIdentity::Two);
    assert_eq!(TransportImpl::RealWorld(HelperIdentity::Three).identity(), HelperIdentity::Three);
}

#[test]
fn send_buffer_emits_full_frames_in_order() {
    let mut b = SendBuffer::new(GatewayConfig { items_in_batch: 2 });
    assert_eq!(b.push(&[1, 2]), None);
    assert_eq!(b.push(&[3]), Some(vec![1, 2, 3]));
    assert_eq!(b.push(&[4, 5]), None);
    assert_eq!(b.flush(), Some(vec![4, 5]));
    assert_eq!(b.flush(), None);
    assert_eq!(b.push(&[6]), None);
    assert_eq!(b.push(&[7]), Some(vec![6, 7]));
}

#[test]
fn send_buffer_with_zero_batch_sends_each_record() {
    let mut b = SendBuffer::new(GatewayConfig { items_in_batch: 0 });
    assert_eq!(b.push(&[9]), Some(vec![9]));
    let mut d = SendBuffer::new(GatewayConfig::default_config());
    assert_eq!(d.push(&[]), Some(vec![]));
}

#[test]
fn malicious_multiply_keeps_the_mac() {
    // x = 4, y = 5, key r = 3: r * x = 12 = 4 + 4 + 4.
    let sh = |v: [u64; 3], i: usize| Replicated { left: v[i], right: v[(i + 1) % 3] };
    let x = [1, 2, 1];
    let y = [3, 1, 1];
    let rx = [4, 4, 4];
    let roles = [Role::H1, Role::H2, Role::H3];
    let mut gateways = roles.map(gateway_for);
    let zero = Replicated { left: 0, right: 0 };
    let mut accs = [Accumulator { u: zero, w: zero }; 3];
    let record = RecordId { index: 2 };
    let r = [5u64, 8, 13];
    let rm = [2u64, 17, 30];
    let mut rounds = Vec::new();
    for i in 0..3 {
        let a = MaliciousReplicated { x: sh(x, i), rx: sh(rx, i) };
        let b = MaliciousReplicated { x: sh(y, i), rx: zero };
        let ctx = context(roles[i]);
        let round = ctx
            .malicious_send(&mut gateways[i], record, a, b, (r[(i + 2) % 3], r[i]), (rm[(i + 2) % 3], rm[i]))
            .unwrap();
        rounds.push(round);
    }
    let mut out = Vec::new();
    for i in 0..3 {
        let ctx = context(roles[i]);
        let from_left = rounds[(i + 2) % 3];
        let c = ctx
            .malicious_receive(
                &mut gateways[i],
                &mut accs[i],
                rounds[i],
                (from_left.value.right_d, from_left.mac.right_d),
                7,
            )
            .unwrap();
        out.push(c);
    }
    let xs = [out[0].x, out[1].x, out[2].x];
    let rxs = [out[0].rx, out[1].rx, out[2].rx];
    assert_eq!(reconstruct(&xs), 20);
    assert_eq!(reconstruct(&rxs), 60 % 31);
    let u = reconstruct(&[accs[0].u, accs[1].u, accs[2].u]);
    let w = reconstruct(&[accs[0].w, accs[1].w, accs[2].w]);
    assert_eq!(w, 7 * 20 % 31);
    assert_eq!(u, 3 * w % 31);
    // The same record cannot be multiplied again on this step.
    let a = MaliciousReplicated { x: sh(x, 0), rx: sh(rx, 0) };
    let b = MaliciousReplicated { x: sh(y, 0), rx: zero };
    assert!(matches!(
        context(Role::H1).malicious_send(&mut gateways[0], record, a, b, (0, 0), (0, 0)),
        Err(MulError::Channel(_))
    ));
}

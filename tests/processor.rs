use ipa_query::identity::{HelperIdentity, Role, RoleAssignment};
use ipa_query::processor::{
    NewQueryError, PrepareQueryError, Processor, QueryCompletionError, QueryInputError,
    TransportError, TransportErrorKind,
};
use ipa_query::query::{FieldType, IpaQueryConfig, PrepareQuery, QueryConfig, QueryType};
use ipa_query::route::QueryId;
use ipa_query::state::{QueryStatus, StateError};

fn test_config() -> QueryConfig {
    QueryConfig { field_type: FieldType::Fp32BitPrime, query_type: QueryType::TestMultiply }
}

fn prepare_query(identities: [HelperIdentity; 3]) -> PrepareQuery {
    PrepareQuery {
        query_id: QueryId { id: 0 },
        config: QueryConfig { field_type: FieldType::Fp31, query_type: QueryType::TestMultiply },
        roles: RoleAssignment::new(identities),
    }
}

const QUERY: QueryId = QueryId { id: 0 };

#[test]
fn new_query() {
    let mut processor = Processor::new();
    let request = test_config();
    let prepared = processor.new_query(request, HelperIdentity::One).unwrap();
    assert_eq!(Some(QueryStatus::Preparing), processor.status(QUERY));

    let qc = processor.confirm_query(prepared, Ok(())).unwrap();
    let expected_assignment = RoleAssignment::new(HelperIdentity::make_three());
    assert_eq!(
        PrepareQuery { query_id: QUERY, config: request, roles: expected_assignment },
        qc
    );
    assert_eq!(Some(QueryStatus::AwaitingInputs), processor.status(QUERY));
}

#[test]
fn rejects_duplicate_query_id() {
    let mut processor = Processor::new();
    let request = test_config();
    let prepared = processor.new_query(request, HelperIdentity::One).unwrap();
    let _qc = processor.confirm_query(prepared, Ok(())).unwrap();
    assert!(matches!(
        processor.new_query(request, HelperIdentity::One),
        Err(NewQueryError::State(StateError::AlreadyRunning)),
    ));
}

#[test]
fn prepare_rejected() {
    let mut processor = Processor::new();
    let prepared = processor.new_query(test_config(), HelperIdentity::One).unwrap();
    let failure = TransportError { kind: TransportErrorKind::Rejected };
    assert!(matches!(
        processor.confirm_query(prepared, Err(failure)),
        Err(NewQueryError::Transport(TransportError { kind: TransportErrorKind::Rejected }))
    ));
    assert_eq!(Some(QueryStatus::Preparing), processor.status(QUERY));
}

#[test]
fn happy_case() {
    let identities = HelperIdentity::make_three();
    let req = prepare_query(identities);
    let mut processor = Processor::new();

    assert_eq!(None, processor.status(QUERY));
    processor.prepare(req, identities[1]).unwrap();
    assert_eq!(Some(QueryStatus::AwaitingInputs), processor.status(QUERY));
}

#[test]
fn rejects_if_coordinator() {
    let identities = HelperIdentity::make_three();
    let req = prepare_query(identities);
    let mut processor = Processor::new();

    assert!(matches!(processor.prepare(req, identities[0]), Err(PrepareQueryError::WrongTarget)));
    assert_eq!(None, processor.status(QUERY));
}

#[test]
fn rejects_if_query_exists() {
    let identities = HelperIdentity::make_three();
    let req = prepare_query(identities);
    let mut processor = Processor::new();
    processor.prepare(req, identities[1]).unwrap();
    assert!(matches!(processor.prepare(req, identities[1]), Err(PrepareQueryError::AlreadyRunning)));
}

#[test]
fn coordinator_roles_follow_the_ring() {
    for (me, right, left) in [
        (HelperIdentity::One, HelperIdentity::Two, HelperIdentity::Three),
        (HelperIdentity::Two, HelperIdentity::Three, HelperIdentity::One),
        (HelperIdentity::Three, HelperIdentity::One, HelperIdentity::Two),
    ] {
        let mut processor = Processor::new();
        let prepared = processor.new_query(test_config(), me).unwrap();
        assert_eq!(me.others(), [right, left]);
        assert_eq!(prepared.roles.role(me), Role::H1);
        assert_eq!(prepared.roles.role(right), Role::H2);
        assert_eq!(prepared.roles.role(left), Role::H3);
        assert_eq!(prepared.followers(), [right, left]);
        assert!(!prepared.followers().contains(&me));
    }
}

#[test]
fn followers_accept_the_coordinator_request() {
    let mut coordinator = Processor::new();
    let prepared = coordinator.new_query(test_config(), HelperIdentity::Two).unwrap();
    for follower in prepared.followers() {
        let mut p = Processor::new();
        p.prepare(prepared, follower).unwrap();
        assert_eq!(Some(QueryStatus::AwaitingInputs), p.status(QUERY));
    }
    let mut own = Processor::new();
    assert_eq!(own.prepare(prepared, HelperIdentity::Two), Err(PrepareQueryError::WrongTarget));
}

#[test]
fn status_read_twice_agrees() {
    let mut processor = Processor::new();
    assert_eq!(processor.status(QUERY), processor.status(QUERY));
    processor.new_query(test_config(), HelperIdentity::One).unwrap();
    let first = processor.status(QUERY);
    let second = processor.status(QUERY);
    assert_eq!(first, second);
    assert_eq!(first, Some(QueryStatus::Preparing));
}

#[test]
fn full_lifecycle() {
    let mut processor = Processor::new();
    let prepared = processor.new_query(test_config(), HelperIdentity::One).unwrap();
    processor.confirm_query(prepared, Ok(())).unwrap();

    let (config, gateway) = processor.receive_inputs(QUERY).unwrap();
    assert_eq!(config, test_config());
    assert_eq!(gateway.query_id(), QUERY);
    assert_eq!(gateway.role(), Role::H1);
    assert_eq!(Some(QueryStatus::Running), processor.status(QUERY));

    // Nothing but `complete` moves a running query.
    assert!(processor.new_query(test_config(), HelperIdentity::One).is_err());
    assert!(processor.prepare(prepare_query(HelperIdentity::make_three()), HelperIdentity::Two).is_err());
    assert!(processor.confirm_query(prepared, Ok(())).is_err());
    assert!(processor.mark_completed(QUERY).is_err());
    assert_eq!(
        processor.receive_inputs(QUERY).err(),
        Some(QueryInputError::StateError {
            source: StateError::InvalidState { from: QueryStatus::Running, to: QueryStatus::Running }
        })
    );
    assert_eq!(Some(QueryStatus::Running), processor.status(QUERY));

    processor.complete(QUERY).unwrap();
    assert_eq!(Some(QueryStatus::AwaitingCompletion), processor.status(QUERY));
    processor.mark_completed(QUERY).unwrap();
    assert_eq!(Some(QueryStatus::Completed), processor.status(QUERY));
}

#[test]
fn inputs_for_unknown_query() {
    let mut processor = Processor::new();
    assert_eq!(processor.receive_inputs(QUERY).err(), Some(QueryInputError::NoSuchQuery(QUERY)));
    assert_eq!(processor.complete(QUERY), Err(QueryCompletionError::NoSuchQuery(QUERY)));
    assert_eq!(processor.mark_completed(QUERY), Err(QueryCompletionError::NoSuchQuery(QUERY)));
    assert_eq!(None, processor.status(QUERY));
}

#[test]
fn inputs_while_preparing() {
    let mut processor = Processor::new();
    processor.new_query(test_config(), HelperIdentity::One).unwrap();
    assert_eq!(
        processor.receive_inputs(QUERY).err(),
        Some(QueryInputError::StateError {
            source: StateError::InvalidState {
                from: QueryStatus::Preparing,
                to: QueryStatus::Running
            }
        })
    );
    assert_eq!(Some(QueryStatus::Preparing), processor.status(QUERY));
}

#[test]
fn complete_requires_running() {
    let identities = HelperIdentity::make_three();
    let mut processor = Processor::new();
    processor.prepare(prepare_query(identities), identities[2]).unwrap();
    assert_eq!(
        processor.complete(QUERY),
        Err(QueryCompletionError::StateError {
            source: StateError::InvalidState {
                from: QueryStatus::AwaitingInputs,
                to: QueryStatus::Running
            }
        })
    );
    assert_eq!(Some(QueryStatus::AwaitingInputs), processor.status(QUERY));
}

#[test]
fn second_concurrent_query_fails() {
    let mut processor = Processor::new();
    let first = processor.new_query(test_config(), HelperIdentity::One);
    let ipa = QueryConfig {
        field_type: FieldType::Fp31,
        query_type: QueryType::Ipa(IpaQueryConfig {
            num_multi_bits: 3,
            per_user_credit_cap: 3,
            max_breakdown_key: 3,
            attribution_window_seconds: 0,
        }),
    };
    let second = processor.new_query(ipa, HelperIdentity::One);
    assert!(first.is_ok());
    assert_eq!(second, Err(NewQueryError::State(StateError::AlreadyRunning)));
    assert_eq!(Some(QueryStatus::Preparing), processor.status(QUERY));
}

use vstd::prelude::*;
use crate::identity::{HelperIdentity, Role, RoleAssignment};
use crate::route::{NoQueryId, NoStep, QueryId, RouteId, RouteParams, RouteView};

verus! {

/// The field in which a query's secret shares live.
#[derive(Debug, Clone, Copy, PartialEq, Eq, Structural)]
pub enum FieldType {
    Fp31,
    Fp32BitPrime,
}

/// Tuning of an Interactive Private Aggregation query.
#[derive(Debug, Clone, Copy, PartialEq, Eq, Structural)]
pub struct IpaQueryConfig {
    pub num_multi_bits: u32,
    pub per_user_credit_cap: u32,
    pub max_breakdown_key: u32,
    pub attribution_window_seconds: u32,
}

/// The protocol a query runs, with its parameters.
#[derive(Debug, Clone, Copy, PartialEq, Eq, Structural)]
pub enum QueryType {
    TestMultiply,
    Ipa(IpaQueryConfig),
}

/// What a report collector asks for when it submits a query.
#[derive(Debug, Clone, Copy, PartialEq, Eq, Structural)]
pub struct QueryConfig {
    pub field_type: FieldType,
    pub query_type: QueryType,
}

/// The request a coordinator sends to both followers of a new query.
#[derive(Debug, Clone, Copy, PartialEq, Eq, Structural)]
pub struct PrepareQuery {
    pub query_id: QueryId,
    pub config: QueryConfig,
    pub roles: RoleAssignment,
}

impl PrepareQuery {
    /// The two helpers that must accept this request: those playing `H2` and `H3`.
    pub fn followers(&self) -> (r: [HelperIdentity; 2])
        ensures
            r[0] == self.roles.identity_of(Role::H2),
            r[1] == self.roles.identity_of(Role::H3),
    {
        [self.roles.identity(Role::H2), self.roles.identity(Role::H3)]
    }
}

/// A query submitted by a report collector travels under `ReceiveQuery`, with
/// no query id and no step: the coordinator allocates the id.
impl RouteParams<RouteId, NoQueryId, NoStep> for QueryConfig {
    open spec fn route_view(&self) -> RouteView {
        (Some(RouteId::ReceiveQuery), None, None)
    }

    open spec fn extra_view(&self) -> Seq<char> {
        Seq::empty()
    }

    fn resource_identifier(&self) -> (r: RouteId) {
        RouteId::ReceiveQuery
    }

    fn query_id(&self) -> (r: NoQueryId) {
        NoQueryId
    }

    fn step(&self) -> (r: NoStep) {
        NoStep
    }

    fn extra(&self) -> (r: String) {
        String::new()
    }
}

/// A prepare request travels under `(PrepareQuery, query_id)`, with no step.
impl RouteParams<RouteId, QueryId, NoStep> for PrepareQuery {
    open spec fn route_view(&self) -> RouteView {
        (Some(RouteId::PrepareQuery), Some(self.query_id), None)
    }

    open spec fn extra_view(&self) -> Seq<char> {
        Seq::empty()
    }

    fn resource_identifier(&self) -> (r: RouteId) {
        RouteId::PrepareQuery
    }

    fn query_id(&self) -> (r: QueryId) {
        self.query_id
    }

    fn step(&self) -> (r: NoStep) {
        NoStep
    }

    fn extra(&self) -> (r: String) {
        String::new()
    }
}

} // verus!

use vstd::prelude::*;
use vstd::string::StringExecFns;

verus! {

/// Identifier of a query on this helper network.
#[derive(Debug, Clone, Copy, PartialEq, Eq, Structural, Hash)]
pub struct QueryId {
    pub id: u64,
}

/// Index of one share exchange within a step.
#[derive(Debug, Clone, Copy, PartialEq, Eq, Structural, Hash)]
pub struct RecordId {
    pub index: u32,
}

/// A location within a protocol: a path of segments joined by `/`.
/// Two sub-protocols that run side by side use distinct steps.
#[derive(Debug, Clone)]
pub struct Step {
    id: String,
}

impl View for Step {
    type V = Seq<char>;

    closed spec fn view(&self) -> Seq<char> {
        self.id@
    }
}

impl PartialEq for Step {
    fn eq(&self, o: &Step) -> (r: bool) {
        self.same_as(o)
    }
}

impl vstd::std_specs::cmp::PartialEqSpecImpl for Step {
    open spec fn obeys_eq_spec() -> bool {
        true
    }

    open spec fn eq_spec(&self, o: &Step) -> bool {
        self@ == o@
    }
}

impl Step {
    /// The root step of a protocol, with an empty path.
    pub fn root() -> (s: Step)
        ensures
            s@ == Seq::<char>::empty(),
    {
        Step { id: String::new() }
    }

    /// The sub-step `segment` below this one.
    pub fn narrow(&self, segment: &str) -> (s: Step)
        ensures
            s@ == self@ + seq!['/'] + segment@,
    {
        proof {
            reveal_strlit("/");
        }
        let id = self.id.clone().concat("/").concat(segment);
        Step { id }
    }

    /// Whether two steps name the same location.
    pub fn same_as(&self, o: &Step) -> (r: bool)
        ensures
            r == (self@ == o@),
    {
        self.id == o.id
    }

    /// A copy of this step.
    pub fn duplicate(&self) -> (s: Step)
        ensures
            s@ == self@,
    {
        Step { id: self.id.clone() }
    }

    /// The path of this step as text.
    pub fn as_str(&self) -> (r: &str)
        ensures
            r@ == self@,
    {
        self.id.as_str()
    }
}

/// What a peer message is about.
#[derive(Debug, Clone, Copy, PartialEq, Eq, Structural)]
pub enum RouteId {
    /// Record bytes of one step of a running query.
    Records,
    /// A new query submitted by a report collector.
    ReceiveQuery,
    /// A coordinator asking a follower to take part in a query.
    PrepareQuery,
}

/// Marks a route that names no resource.
#[derive(Debug)]
pub struct NoResourceIdentifier;

/// Marks a route that carries no query id.
#[derive(Debug)]
pub struct NoQueryId;

/// Marks a route that carries no step.
#[derive(Debug)]
pub struct NoStep;

/// The resource coordinate of a route: a [`RouteId`], or its absence.
pub trait ResourceIdentifier: Sized {
    spec fn resource_view(&self) -> Option<RouteId>;

    fn into_route_id(self) -> (r: Option<RouteId>)
        ensures
            r == self.resource_view(),
    ;
}

/// The query coordinate of a route: a [`QueryId`], or its absence.
pub trait QueryIdBinding: Sized {
    spec fn query_id_view(&self) -> Option<QueryId>;

    fn into_query_id(self) -> (r: Option<QueryId>)
        ensures
            r == self.query_id_view(),
    ;
}

/// The step coordinate of a route: a [`Step`], or its absence.
pub trait StepBinding: Sized {
    spec fn step_view(&self) -> Option<Seq<char>>;

    fn into_step(self) -> (r: Option<Step>)
        ensures
            r matches Some(s) ==> self.step_view() == Some(s@),
            r is None ==> self.step_view() is None,
    ;
}

impl ResourceIdentifier for NoResourceIdentifier {
    open spec fn resource_view(&self) -> Option<RouteId> {
        None
    }

    fn into_route_id(self) -> (r: Option<RouteId>) {
        None
    }
}

impl ResourceIdentifier for RouteId {
    open spec fn resource_view(&self) -> Option<RouteId> {
        Some(*self)
    }

    fn into_route_id(self) -> (r: Option<RouteId>) {
        Some(self)
    }
}

impl QueryIdBinding for NoQueryId {
    open spec fn query_id_view(&self) -> Option<QueryId> {
        None
    }

    fn into_query_id(self) -> (r: Option<QueryId>) {
        None
    }
}

impl QueryIdBinding for QueryId {
    open spec fn query_id_view(&self) -> Option<QueryId> {
        Some(*self)
    }

    fn into_query_id(self) -> (r: Option<QueryId>) {
        Some(self)
    }
}

impl StepBinding for NoStep {
    open spec fn step_view(&self) -> Option<Seq<char>> {
        None
    }

    fn into_step(self) -> (r: Option<Step>) {
        None
    }
}

impl StepBinding for Step {
    open spec fn step_view(&self) -> Option<Seq<char>> {
        Some(self@)
    }

    fn into_step(self) -> (r: Option<Step>) {
        Some(self)
    }
}

/// The coordinates of a route as plain values: resource, query and step.
pub type RouteView = (Option<RouteId>, Option<QueryId>, Option<Seq<char>>);

/// A value that addresses a peer message by resource, query and step, each of
/// which may be absent by type.
pub trait RouteParams<R: ResourceIdentifier, Q: QueryIdBinding, S: StepBinding> {
    spec fn route_view(&self) -> RouteView;

    spec fn extra_view(&self) -> Seq<char>;

    fn resource_identifier(&self) -> (r: R)
        ensures
            r.resource_view() == self.route_view().0,
    ;

    fn query_id(&self) -> (r: Q)
        ensures
            r.query_id_view() == self.route_view().1,
    ;

    fn step(&self) -> (r: S)
        ensures
            r.step_view() == self.route_view().2,
    ;

    /// Free-form text that travels with the message.
    fn extra(&self) -> (r: String)
        ensures
            r@ == self.extra_view(),
    ;
}

/// The key under which record bytes of one step are received.
impl RouteParams<NoResourceIdentifier, QueryId, Step> for (QueryId, Step) {
    open spec fn route_view(&self) -> RouteView {
        (None, Some(self.0), Some(self.1@))
    }

    open spec fn extra_view(&self) -> Seq<char> {
        Seq::empty()
    }

    fn resource_identifier(&self) -> (r: NoResourceIdentifier) {
        NoResourceIdentifier
    }

    fn query_id(&self) -> (r: QueryId) {
        self.0
    }

    fn step(&self) -> (r: Step) {
        self.1.duplicate()
    }

    fn extra(&self) -> (r: String) {
        String::new()
    }
}

/// The key under which record bytes of one step are sent.
impl RouteParams<RouteId, QueryId, Step> for (RouteId, QueryId, Step) {
    open spec fn route_view(&self) -> RouteView {
        (Some(self.0), Some(self.1), Some(self.2@))
    }

    open spec fn extra_view(&self) -> Seq<char> {
        Seq::empty()
    }

    fn resource_identifier(&self) -> (r: RouteId) {
        self.0
    }

    fn query_id(&self) -> (r: QueryId) {
        self.1
    }

    fn step(&self) -> (r: Step) {
        self.2.duplicate()
    }

    fn extra(&self) -> (r: String) {
        String::new()
    }
}

/// The coordinates of a route as plain values, as they travel in a message header.
#[derive(Debug)]
pub struct RouteKey {
    pub route_id: Option<RouteId>,
    pub query_id: Option<QueryId>,
    pub step: Option<Step>,
}

/// The shape a message header must have: a query id exactly for records and
/// prepare requests, a step exactly for records.
pub open spec fn header_shape_ok(
    route_id: RouteId,
    has_query: bool,
    has_step: bool,
) -> bool {
    &&& has_query == (route_id == RouteId::Records || route_id == RouteId::PrepareQuery)
    &&& has_step == (route_id == RouteId::Records)
}

/// Takes a route apart into its coordinates.
pub fn route_key<R: ResourceIdentifier, Q: QueryIdBinding, S: StepBinding, P: RouteParams<R, Q, S>>(
    route: &P,
) -> (k: RouteKey)
    ensures
        k.route_id == route.route_view().0,
        k.query_id == route.route_view().1,
        k.step matches Some(s) ==> route.route_view().2 == Some(s@),
        k.step is None ==> route.route_view().2 is None,
{
    RouteKey {
        route_id: route.resource_identifier().into_route_id(),
        query_id: route.query_id().into_query_id(),
        step: route.step().into_step(),
    }
}

impl RouteKey {
    /// Whether this key may head a message sent to a peer: it names a resource
    /// and carries exactly the coordinates that resource calls for.
    pub fn is_sendable(&self) -> (r: bool)
        ensures
            r <==> (self.route_id matches Some(id) && header_shape_ok(
                id,
                self.query_id is Some,
                self.step is Some,
            )),
    {
        match self.route_id {
            None => false,
            Some(id) => {
                let needs_query = match id {
                    RouteId::Records => true,
                    RouteId::PrepareQuery => true,
                    RouteId::ReceiveQuery => false,
                };
                let needs_step = match id {
                    RouteId::Records => true,
                    _ => false,
                };
                self.query_id.is_some() == needs_query && self.step.is_some() == needs_step
            },
        }
    }

    /// Whether this key may be used to receive record bytes: no resource, a
    /// query id and a step.
    pub fn is_receivable(&self) -> (r: bool)
        ensures
            r <==> (self.route_id is None && self.query_id is Some && self.step is Some),
    {
        self.route_id.is_none() && self.query_id.is_some() && self.step.is_some()
    }
}

} // verus!

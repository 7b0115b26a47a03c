use vstd::prelude::*;

verus! {

/// One of the three helper parties of the network.
#[derive(Debug, Clone, Copy, PartialEq, Eq, Structural)]
pub enum HelperIdentity {
    One,
    Two,
    Three,
}

/// The role a helper plays in one query. `H1` coordinates the query.
#[derive(Debug, Clone, Copy, PartialEq, Eq, Structural)]
pub enum Role {
    H1,
    H2,
    H3,
}

/// A side of the ring, seen from one role.
#[derive(Debug, Clone, Copy, PartialEq, Eq, Structural)]
pub enum Direction {
    Left,
    Right,
}

/// The role on side `d` of role `r`: `H1`, `H2`, `H3` follow each other to the
/// right, and `H3` is followed by `H1`.
pub open spec fn peer_of(r: Role, d: Direction) -> Role {
    match d {
        Direction::Right => role_at((role_index(r) + 1) % 3),
        Direction::Left => role_at((role_index(r) + 2) % 3),
    }
}

impl Role {
    /// The role on side `d` of this one.
    pub fn peer(&self, d: Direction) -> (r: Role)
        ensures
            r == peer_of(*self, d),
            r != *self,
    {
        match (self, d) {
            (Role::H1, Direction::Right) => Role::H2,
            (Role::H2, Direction::Right) => Role::H3,
            (Role::H3, Direction::Right) => Role::H1,
            (Role::H1, Direction::Left) => Role::H3,
            (Role::H2, Direction::Left) => Role::H1,
            (Role::H3, Direction::Left) => Role::H2,
        }
    }
}

/// Position of a helper on the ring, counted from zero.
pub open spec fn ring_index(id: HelperIdentity) -> int {
    match id {
        HelperIdentity::One => 0,
        HelperIdentity::Two => 1,
        HelperIdentity::Three => 2,
    }
}

/// The helper at the given ring position (taken modulo three).
pub open spec fn helper_at(i: int) -> HelperIdentity {
    let k = i % 3;
    if k == 0 {
        HelperIdentity::One
    } else if k == 1 {
        HelperIdentity::Two
    } else {
        HelperIdentity::Three
    }
}

/// The helper that follows `id` on the ring.
pub open spec fn right_of(id: HelperIdentity) -> HelperIdentity {
    helper_at(ring_index(id) + 1)
}

/// The helper that precedes `id` on the ring.
pub open spec fn left_of(id: HelperIdentity) -> HelperIdentity {
    helper_at(ring_index(id) + 2)
}

impl HelperIdentity {
    /// The three helpers in ring order.
    pub fn make_three() -> (r: [HelperIdentity; 3])
        ensures
            r@ == seq![HelperIdentity::One, HelperIdentity::Two, HelperIdentity::Three],
    {
        [HelperIdentity::One, HelperIdentity::Two, HelperIdentity::Three]
    }

    /// The two other helpers, as `[right, left]`.
    pub fn others(&self) -> (r: [HelperIdentity; 2])
        ensures
            r[0] == right_of(*self),
            r[1] == left_of(*self),
            r[0] != *self,
            r[1] != *self,
            r[0] != r[1],
    {
        match self {
            HelperIdentity::One => [HelperIdentity::Two, HelperIdentity::Three],
            HelperIdentity::Two => [HelperIdentity::Three, HelperIdentity::One],
            HelperIdentity::Three => [HelperIdentity::One, HelperIdentity::Two],
        }
    }
}


/// Index of a role in an assignment table.
pub open spec fn role_index(r: Role) -> int {
    match r {
        Role::H1 => 0,
        Role::H2 => 1,
        Role::H3 => 2,
    }
}

/// The role at the given table index.
pub open spec fn role_at(i: int) -> Role {
    if i == 0 {
        Role::H1
    } else if i == 1 {
        Role::H2
    } else {
        Role::H3
    }
}

/// Three identities with no repetition: each helper appears exactly once.
pub open spec fn all_distinct(ids: Seq<HelperIdentity>) -> bool {
    &&& ids.len() == 3
    &&& ids[0] != ids[1]
    &&& ids[0] != ids[2]
    &&& ids[1] != ids[2]
}

/// The assignment a coordinator `c` makes: itself as `H1`, its right
/// neighbour as `H2`, its left neighbour as `H3`.
pub open spec fn coordinator_table(c: HelperIdentity) -> Seq<HelperIdentity> {
    seq![c, right_of(c), left_of(c)]
}

/// A bijection between helpers and roles, valid for the lifetime of one query.
#[derive(Debug, Clone, Copy, PartialEq, Eq, Structural)]
pub struct RoleAssignment {
    h1: HelperIdentity,
    h2: HelperIdentity,
    h3: HelperIdentity,
}

impl RoleAssignment {
    /// The helpers by role, `H1` first.
    pub closed spec fn table(&self) -> Seq<HelperIdentity> {
        seq![self.h1, self.h2, self.h3]
    }

    /// The helper that plays role `r`.
    pub open spec fn identity_of(&self, r: Role) -> HelperIdentity {
        self.table()[role_index(r)]
    }

    /// The role played by helper `id` (meaningful on a well-formed assignment).
    pub open spec fn role_of(&self, id: HelperIdentity) -> Role {
        if self.table()[0] == id {
            Role::H1
        } else if self.table()[1] == id {
            Role::H2
        } else {
            Role::H3
        }
    }

    pub open spec fn wf(&self) -> bool {
        all_distinct(self.table())
    }

    /// Every assignment value is a bijection.
    #[verifier::type_invariant]
    pub closed spec fn inv(&self) -> bool {
        all_distinct(seq![self.h1, self.h2, self.h3])
    }

    pub proof fn lemma_inv_wf(&self)
        requires
            self.inv(),
        ensures
            self.wf(),
    {
    }

    /// Builds the assignment that gives role `H1` to `helper_roles[0]`, `H2` to
    /// `helper_roles[1]` and `H3` to `helper_roles[2]`.
    pub fn new(helper_roles: [HelperIdentity; 3]) -> (r: RoleAssignment)
        requires
            all_distinct(helper_roles@),
        ensures
            r.table() == helper_roles@,
            r.wf(),
    {
        RoleAssignment { h1: helper_roles[0], h2: helper_roles[1], h3: helper_roles[2] }
    }

    /// Builds an assignment from `(helper, role)` pairs. Fails unless every
    /// role and every helper occurs exactly once.
    pub fn try_from_pairs(pairs: [(HelperIdentity, Role); 3]) -> (r: Option<RoleAssignment>)
        ensures
            r is Some <==> pairs_form_bijection(pairs@),
            r matches Some(a) ==> a.wf() && forall|i: int|
                0 <= i < 3 ==> #[trigger] a.identity_of(pairs@[i].1) == pairs@[i].0,
    {
        let r0 = pairs[0].1;
        let r1 = pairs[1].1;
        let r2 = pairs[2].1;
        if r0 == r1 || r0 == r2 || r1 == r2 {
            return None;
        }
        let i0 = pairs[0].0;
        let i1 = pairs[1].0;
        let i2 = pairs[2].0;
        if i0 == i1 || i0 == i2 || i1 == i2 {
            return None;
        }
        let pick = |want: Role| -> (id: HelperIdentity)
            ensures
                want == r0 ==> id == i0,
                want == r1 ==> id == i1,
                want == r2 ==> id == i2,
            {
                if want == r0 {
                    i0
                } else if want == r1 {
                    i1
                } else {
                    i2
                }
            };
        let r = RoleAssignment { h1: pick(Role::H1), h2: pick(Role::H2), h3: pick(Role::H3) };
        Some(r)
    }

    /// The role played by helper `id` in this query.
    pub fn role(&self, id: HelperIdentity) -> (r: Role)
        ensures
            r == self.role_of(id),
            self.identity_of(r) == id,
    {
        proof {
            use_type_invariant(self);
            lemma_distinct_covers_all(self.table(), id);
        }
        if self.h1 == id {
            Role::H1
        } else if self.h2 == id {
            Role::H2
        } else {
            Role::H3
        }
    }

    /// The helper that plays role `r` in this query.
    pub fn identity(&self, r: Role) -> (id: HelperIdentity)
        ensures
            id == self.identity_of(r),
    {
        match r {
            Role::H1 => self.h1,
            Role::H2 => self.h2,
            Role::H3 => self.h3,
        }
    }
}

/// Every role appears once and every helper appears once among `pairs`.
pub open spec fn pairs_form_bijection(pairs: Seq<(HelperIdentity, Role)>) -> bool {
    &&& pairs.len() == 3
    &&& pairs[0].1 != pairs[1].1
    &&& pairs[0].1 != pairs[2].1
    &&& pairs[1].1 != pairs[2].1
    &&& all_distinct(seq![pairs[0].0, pairs[1].0, pairs[2].0])
}

/// Three distinct helpers are all the helpers there are.
proof fn lemma_distinct_covers_all(ids: Seq<HelperIdentity>, id: HelperIdentity)
    requires
        all_distinct(ids),
    ensures
        ids[0] == id || ids[1] == id || ids[2] == id,
{
}

/// The coordinator's table lists three distinct helpers.
pub proof fn lemma_coordinator_table_distinct(c: HelperIdentity)
    ensures
        all_distinct(coordinator_table(c)),
{
}

/// Reading roles back from an assignment gives each helper the role it was
/// assigned, and the helper of each role plays that role.
pub proof fn lemma_role_round_trip(a: RoleAssignment, id: HelperIdentity, r: Role)
    requires
        a.wf(),
    ensures
        a.identity_of(a.role_of(id)) == id,
        a.role_of(a.identity_of(r)) == r,
{
    lemma_distinct_covers_all(a.table(), id);
}

/// On an assignment built by coordinator `c`, every helper reads back the role
/// the coordinator meant for it: `c` is `H1`, its right neighbour `H2` and its
/// left neighbour `H3`.
pub proof fn lemma_coordinator_roles(a: RoleAssignment, c: HelperIdentity)
    requires
        a.table() == coordinator_table(c),
    ensures
        a.wf(),
        a.role_of(c) == Role::H1,
        a.role_of(right_of(c)) == Role::H2,
        a.role_of(left_of(c)) == Role::H3,
{
}

} // verus!

use vstd::prelude::*;
use crate::gateway::{ExchangeView, Flow, Gateway, GatewayError};
use crate::identity::{peer_of, Direction, Role};
use crate::query::FieldType;
use crate::route::{RecordId, Step};
use vstd::arithmetic::div_mod::{lemma_fundamental_div_mod, lemma_mod_multiples_vanish, lemma_mod_pos_bound};

verus! {

/// The prime modulus of a field.
pub open spec fn modulus(f: FieldType) -> nat {
    match f {
        FieldType::Fp31 => 31,
        FieldType::Fp32BitPrime => 4294967291,
    }
}

/// The prime modulus of a field.
pub fn field_modulus(f: FieldType) -> (p: u64)
    ensures
        p as nat == modulus(f),
{
    match f {
        FieldType::Fp31 => 31,
        FieldType::Fp32BitPrime => 4294967291,
    }
}

/// A replicated share: the two of the three additive pieces of a secret that
/// one helper holds, the one it shares with its left peer and the one it
/// shares with its right peer.
#[derive(Debug, Clone, Copy, PartialEq, Eq, Structural)]
pub struct Replicated {
    pub left: u64,
    pub right: u64,
}

/// Both pieces of `s` are field elements of `f`.
pub open spec fn share_in_field(s: Replicated, f: FieldType) -> bool {
    s.left < modulus(f) && s.right < modulus(f)
}

/// The term a helper sends to its right peer when it multiplies `a` by `b`,
/// masked with the randomness `s0` it shares with its left peer.
pub open spec fn right_term(p: nat, a: Replicated, b: Replicated, s0: nat) -> nat {
    ((a.left * b.right + a.right * b.left + p - s0) % (p as int)) as nat
}

/// The share of the product, from the local products, the term sent right
/// (`right_d`), the term received from the left (`left_d`) and the randomness
/// shared with the left (`s0`) and right (`s1`) peers.
pub open spec fn product_share(
    p: nat,
    a: Replicated,
    b: Replicated,
    s0: nat,
    s1: nat,
    right_d: nat,
    left_d: nat,
) -> Replicated {
    Replicated {
        left: ((a.left * b.left + left_d + s0) % (p as int)) as u64,
        right: ((a.right * b.right + right_d + s1) % (p as int)) as u64,
    }
}

/// Errors of a multiplication.
#[derive(Debug, Clone, Copy, PartialEq, Eq, Structural)]
pub enum MulError {
    /// The record was already multiplied on this step.
    Channel(GatewayError),
    /// A value is not an element of the context's field.
    NotInField,
}

/// A multiplication between its two halves: the term to send to the right
/// peer has been computed and must be delivered on `(query, step, record_id)`.
#[derive(Debug, Clone, Copy, PartialEq, Eq, Structural)]
pub struct MulRound {
    pub record_id: RecordId,
    pub a: Replicated,
    pub b: Replicated,
    pub s0: u64,
    pub s1: u64,
    /// The term for the right peer.
    pub right_d: u64,
}

/// Secure multiplication of secret shares. It needs one exchange with the
/// peers, so it comes in two halves: [`SecureMul::multiply_send`] yields the
/// term for the right peer, and [`SecureMul::multiply_receive`] combines the
/// term received from the left peer into the share of the product.
pub trait SecureMul {
    type Share;

    fn multiply_send(
        &self,
        gateway: &mut Gateway,
        record_id: RecordId,
        a: Self::Share,
        b: Self::Share,
        randomness: (u64, u64),
    ) -> (r: Result<MulRound, MulError>)
        requires
            old(gateway).wf(),
        ensures
            final(gateway).wf(),
            final(gateway).query() == old(gateway).query(),
    ;

    fn multiply_receive(&self, gateway: &mut Gateway, round: MulRound, left_d: u64) -> (r: Result<
        Self::Share,
        MulError,
    >)
        requires
            old(gateway).wf(),
        ensures
            final(gateway).wf(),
            final(gateway).query() == old(gateway).query(),
    ;
}

/// The context a protocol step runs in, for semi-honest security with
/// replicated shares: the step whose channels it uses, the role of this helper
/// and the field of the query.
#[derive(Debug)]
pub struct ProtocolContext {
    pub step: Step,
    pub role: Role,
    pub field: FieldType,
}

impl ProtocolContext {
    /// What the first half of a multiplication does, from the gateway log
    /// `before` to the log `after`: values outside the field are refused;
    /// otherwise the send to the right peer is recorded and the pending
    /// multiplication returned, unless that send was made before.
    pub open spec fn send_outcome(
        &self,
        before: Seq<ExchangeView>,
        after: Seq<ExchangeView>,
        record_id: RecordId,
        a: Replicated,
        b: Replicated,
        randomness: (u64, u64),
        r: Result<MulRound, MulError>,
    ) -> bool {
        &&& (!(share_in_field(a, self.field) && share_in_field(b, self.field) && randomness.0
            < modulus(self.field) && randomness.1 < modulus(self.field)) ==> {
            &&& r == Err::<MulRound, MulError>(MulError::NotInField)
            &&& after == before
        })
        &&& (share_in_field(a, self.field) && share_in_field(b, self.field) && randomness.0
            < modulus(self.field) && randomness.1 < modulus(self.field) ==> {
            let e = (peer_of(self.role, Direction::Right), Flow::Send, self.step@, record_id);
            &&& before.contains(e) ==> {
                &&& r == Err::<MulRound, MulError>(
                    MulError::Channel(
                        GatewayError::DuplicateRecord { peer: e.0, flow: e.1, record_id },
                    ),
                )
                &&& after == before
            }
            &&& !before.contains(e) ==> {
                &&& after == before.push(e)
                &&& r == Ok::<MulRound, MulError>(
                    MulRound {
                        record_id,
                        a,
                        b,
                        s0: randomness.0,
                        s1: randomness.1,
                        right_d: right_term(
                            modulus(self.field),
                            a,
                            b,
                            randomness.0 as nat,
                        ) as u64,
                    },
                )
            }
        })
    }

    /// What the second half of a multiplication does, from the gateway log
    /// `before` to the log `after`: values outside the field are refused;
    /// otherwise the receipt from the left peer is recorded and the share of
    /// the product returned, unless that receipt was made before.
    pub open spec fn receive_outcome(
        &self,
        before: Seq<ExchangeView>,
        after: Seq<ExchangeView>,
        round: MulRound,
        left_d: u64,
        r: Result<Replicated, MulError>,
    ) -> bool {
        &&& (!round_in_field(round, left_d, self.field) ==> {
            &&& r == Err::<Replicated, MulError>(MulError::NotInField)
            &&& after == before
        })
        &&& (round_in_field(round, left_d, self.field) ==> {
            let e = (peer_of(self.role, Direction::Left), Flow::Receive, self.step@, round.record_id);
            &&& before.contains(e) ==> {
                &&& r == Err::<Replicated, MulError>(
                    MulError::Channel(
                        GatewayError::DuplicateRecord {
                            peer: e.0,
                            flow: e.1,
                            record_id: round.record_id,
                        },
                    ),
                )
                &&& after == before
            }
            &&& !before.contains(e) ==> {
                &&& after == before.push(e)
                &&& r == Ok::<Replicated, MulError>(
                    product_share(
                        modulus(self.field),
                        round.a,
                        round.b,
                        round.s0 as nat,
                        round.s1 as nat,
                        round.right_d as nat,
                        left_d as nat,
                    ),
                )
            }
        })
    }
}

impl ProtocolContext {
    /// The context of step `segment` below this one.
    pub fn narrow(&self, segment: &str) -> (c: ProtocolContext)
        ensures
            c.step@ == self.step@ + seq!['/'] + segment@,
            c.role == self.role,
            c.field == self.field,
    {
        ProtocolContext { step: self.step.narrow(segment), role: self.role, field: self.field }
    }

    /// First half of a multiplication of `a` by `b` for `record_id`, with the
    /// randomness `(s0, s1)` this helper shares with its left and right peers.
    /// Records the send to the right peer; fails when the record was sent on
    /// this step before, or a value is outside the field.
    pub fn send_term(
        &self,
        gateway: &mut Gateway,
        record_id: RecordId,
        a: Replicated,
        b: Replicated,
        randomness: (u64, u64),
    ) -> (r: Result<MulRound, MulError>)
        requires
            old(gateway).wf(),
        ensures
            final(gateway).wf(),
            final(gateway).query() == old(gateway).query(),
            final(gateway).role_spec() == old(gateway).role_spec(),
            final(gateway).roles_spec() == old(gateway).roles_spec(),
            self.send_outcome(old(gateway).log(), final(gateway).log(), record_id, a, b, randomness, r),
    {
        let p = field_modulus(self.field);
        let (s0, s1) = randomness;
        if !(a.left < p && a.right < p && b.left < p && b.right < p && s0 < p && s1 < p) {
            return Err(MulError::NotInField);
        }
        let right = self.role.peer(Direction::Right);
        match gateway.claim(right, Flow::Send, &self.step, record_id) {
            Ok(()) => {},
            Err(e) => {
                return Err(MulError::Channel(e));
            },
        }
        proof {
            assert(a.left * b.right < 0x1_0000_0000_0000_0000) by (nonlinear_arith)
                requires
                    a.left < 4294967292,
                    b.right < 4294967292,
            ;
            assert(a.right * b.left < 0x1_0000_0000_0000_0000) by (nonlinear_arith)
                requires
                    a.right < 4294967292,
                    b.left < 4294967292,
            ;
        }
        let sum: u128 = (a.left as u128) * (b.right as u128) + (a.right as u128) * (b.left as u128)
            + (p as u128) - (s0 as u128);
        let right_d = (sum % (p as u128)) as u64;
        Ok(MulRound { record_id, a, b, s0, s1, right_d })
    }

    /// Second half of a multiplication: combines the term `left_d` received
    /// from the left peer into this helper's share of the product. Records the
    /// receipt from the left peer; fails when the record was received on this
    /// step before, or a value is outside the field.
    pub fn receive_term(&self, gateway: &mut Gateway, round: MulRound, left_d: u64) -> (r: Result<
        Replicated,
        MulError,
    >)
        requires
            old(gateway).wf(),
        ensures
            final(gateway).wf(),
            final(gateway).query() == old(gateway).query(),
            final(gateway).role_spec() == old(gateway).role_spec(),
            final(gateway).roles_spec() == old(gateway).roles_spec(),
            self.receive_outcome(old(gateway).log(), final(gateway).log(), round, left_d, r),
    {
        let p = field_modulus(self.field);
        let a = round.a;
        let b = round.b;
        if !(a.left < p && a.right < p && b.left < p && b.right < p && round.s0 < p && round.s1 < p
            && round.right_d < p && left_d < p) {
            return Err(MulError::NotInField);
        }
        let left = self.role.peer(Direction::Left);
        match gateway.claim(left, Flow::Receive, &self.step, round.record_id) {
            Ok(()) => {},
            Err(e) => {
                return Err(MulError::Channel(e));
            },
        }
        proof {
            assert(a.left * b.left < 0x1_0000_0000_0000_0000) by (nonlinear_arith)
                requires
                    a.left < 4294967292,
                    b.left < 4294967292,
            ;
            assert(a.right * b.right < 0x1_0000_0000_0000_0000) by (nonlinear_arith)
                requires
                    a.right < 4294967292,
                    b.right < 4294967292,
            ;
        }
        let lhs: u128 = (a.left as u128) * (b.left as u128) + (left_d as u128) + (round.s0 as u128);
        let rhs: u128 = (a.right as u128) * (b.right as u128) + (round.right_d as u128) + (
        round.s1 as u128);
        let pp = p as u128;
        Ok(Replicated { left: (lhs % pp) as u64, right: (rhs % pp) as u64 })
    }
}

/// Every value of a pending multiplication, and the received term, are
/// elements of field `f`.
pub open spec fn round_in_field(round: MulRound, left_d: u64, f: FieldType) -> bool {
    &&& share_in_field(round.a, f)
    &&& share_in_field(round.b, f)
    &&& round.s0 < modulus(f)
    &&& round.s1 < modulus(f)
    &&& round.right_d < modulus(f)
    &&& left_d < modulus(f)
}

impl SecureMul for ProtocolContext {
    type Share = Replicated;

    fn multiply_send(
        &self,
        gateway: &mut Gateway,
        record_id: RecordId,
        a: Replicated,
        b: Replicated,
        randomness: (u64, u64),
    ) -> (r: Result<MulRound, MulError>)
        ensures
            self.send_outcome(old(gateway).log(), final(gateway).log(), record_id, a, b, randomness, r),
    {
        self.send_term(gateway, record_id, a, b, randomness)
    }

    fn multiply_receive(&self, gateway: &mut Gateway, round: MulRound, left_d: u64) -> (r: Result<
        Replicated,
        MulError,
    >)
        ensures
            self.receive_outcome(old(gateway).log(), final(gateway).log(), round, left_d, r),
    {
        self.receive_term(gateway, round, left_d)
    }
}

/// A share for malicious security: the share of a value `x` and the share of
/// `r * x`, where `r` is a secret key no helper knows.
#[derive(Debug, Clone, Copy, PartialEq, Eq, Structural)]
pub struct MaliciousReplicated {
    pub x: Replicated,
    pub rx: Replicated,
}

/// The running check values of a malicious context: the sums `u` of the
/// weighted `r * x` shares and `w` of the weighted `x` shares of every
/// product, from which `u == r * w` is verified at the end.
#[derive(Debug, Clone, Copy, PartialEq, Eq, Structural)]
pub struct Accumulator {
    pub u: Replicated,
    pub w: Replicated,
}

/// A malicious multiplication between its two halves: the multiplication of
/// the values and that of the keyed values.
#[derive(Debug, Clone, Copy, PartialEq, Eq, Structural)]
pub struct MaliciousMulRound {
    pub value: MulRound,
    pub mac: MulRound,
}

/// `s + rho * t` in field `p`, piece by piece.
pub open spec fn weighted_add(p: nat, s: Replicated, rho: nat, t: Replicated) -> Replicated {
    Replicated {
        left: ((s.left + rho * t.left) % (p as int)) as u64,
        right: ((s.right + rho * t.right) % (p as int)) as u64,
    }
}

/// The step on which the keyed values of a step are multiplied.
pub open spec fn mac_step(step: Seq<char>) -> Seq<char> {
    step + seq!['/'] + seq!['m', 'a', 'c']
}

/// What a log holds after one more entry.
proof fn lemma_push_contains<A>(s: Seq<A>, a: A, b: A)
    ensures
        s.push(a).contains(b) <==> (s.contains(b) || a == b),
{
    if s.contains(b) {
        let j = choose|j: int| 0 <= j < s.len() && s[j] == b;
        assert(s.push(a)[j] == b);
    }
    if a == b {
        assert(s.push(a)[s.len() as int] == b);
    }
    if s.push(a).contains(b) {
        let j = choose|j: int| 0 <= j < s.push(a).len() && s.push(a)[j] == b;
        if j < s.len() {
            assert(s[j] == b);
        }
    }
}

/// Field elements `s` and `t`, scaled and added in `u128`.
fn weighted_piece(p: u64, s: u64, rho: u64, t: u64) -> (r: u64)
    requires
        0 < p <= 4294967291,
        s < p,
        rho < p,
        t < p,
    ensures
        r == (s + rho * t) % (p as int),
{
    proof {
        assert(rho * t < 0x1_0000_0000_0000_0000) by (nonlinear_arith)
            requires
                rho < 4294967292,
                t < 4294967292,
        ;
    }
    let v: u128 = (s as u128) + (rho as u128) * (t as u128);
    (v % (p as u128)) as u64
}

impl ProtocolContext {
    /// The context that multiplies the keyed values of this one.
    pub fn mac_context(&self) -> (c: ProtocolContext)
        ensures
            c.step@ == mac_step(self.step@),
            c.role == self.role,
            c.field == self.field,
    {
        let c = self.narrow("mac");
        proof {
            reveal_strlit("mac");
        }
        c
    }

    /// First half of a malicious multiplication of `a` by `b`: the values are
    /// multiplied on this step and the keyed values `r * a` by `b` on the MAC
    /// step, each with its own randomness. Succeeds exactly when every value
    /// is in the field and neither send was made before; then both sends are
    /// recorded.
    pub fn malicious_send(
        &self,
        gateway: &mut Gateway,
        record_id: RecordId,
        a: MaliciousReplicated,
        b: MaliciousReplicated,
        randomness: (u64, u64),
        mac_randomness: (u64, u64),
    ) -> (r: Result<MaliciousMulRound, MulError>)
        requires
            old(gateway).wf(),
        ensures
            final(gateway).wf(),
            final(gateway).query() == old(gateway).query(),
            ({
                let p = modulus(self.field);
                let right = peer_of(self.role, Direction::Right);
                let e1 = (right, Flow::Send, self.step@, record_id);
                let e2 = (right, Flow::Send, mac_step(self.step@), record_id);
                let ok = share_in_field(a.x, self.field) && share_in_field(a.rx, self.field)
                    && share_in_field(b.x, self.field) && randomness.0 < p && randomness.1 < p
                    && mac_randomness.0 < p && mac_randomness.1 < p;
                &&& !ok ==> r == Err::<MaliciousMulRound, MulError>(MulError::NotInField)
                &&& (r is Ok <==> ok && !old(gateway).log().contains(e1) && !old(
                    gateway,
                ).log().contains(e2))
                &&& r matches Ok(round) ==> {
                    &&& final(gateway).log() == old(gateway).log().push(e1).push(e2)
                    &&& round.value == MulRound {
                        record_id,
                        a: a.x,
                        b: b.x,
                        s0: randomness.0,
                        s1: randomness.1,
                        right_d: right_term(p, a.x, b.x, randomness.0 as nat) as u64,
                    }
                    &&& round.mac == MulRound {
                        record_id,
                        a: a.rx,
                        b: b.x,
                        s0: mac_randomness.0,
                        s1: mac_randomness.1,
                        right_d: right_term(p, a.rx, b.x, mac_randomness.0 as nat) as u64,
                    }
                }
            }),
    {
        let p = field_modulus(self.field);
        if !(a.rx.left < p && a.rx.right < p && mac_randomness.0 < p && mac_randomness.1 < p) {
            return Err(MulError::NotInField);
        }
        let mac_ctx = self.mac_context();
        proof {
            assert(mac_step(self.step@).len() == self.step@.len() + 4);
        }
        let value = match self.send_term(gateway, record_id, a.x, b.x, randomness) {
            Ok(round) => round,
            Err(e) => {
                return Err(e);
            },
        };
        proof {
            let right = peer_of(self.role, Direction::Right);
            lemma_push_contains(
                old(gateway).log(),
                (right, Flow::Send, self.step@, record_id),
                (right, Flow::Send, mac_step(self.step@), record_id),
            );
        }
        let mac = match mac_ctx.send_term(gateway, record_id, a.rx, b.x, mac_randomness) {
            Ok(round) => round,
            Err(e) => {
                return Err(e);
            },
        };
        Ok(MaliciousMulRound { value, mac })
    }

    /// Second half of a malicious multiplication: combines the terms received
    /// from the left peer (`left_d.0` for the values, `left_d.1` for the keyed
    /// values) into the share of the product, and folds the product into
    /// `acc` weighted by the random constant `rho` drawn for the record.
    /// Succeeds exactly when every value is in the field and neither receipt
    /// was made before; otherwise `acc` is left as it was.
    pub fn malicious_receive(
        &self,
        gateway: &mut Gateway,
        acc: &mut Accumulator,
        round: MaliciousMulRound,
        left_d: (u64, u64),
        rho: u64,
    ) -> (r: Result<MaliciousReplicated, MulError>)
        requires
            old(gateway).wf(),
            share_in_field(old(acc).u, self.field),
            share_in_field(old(acc).w, self.field),
        ensures
            final(gateway).wf(),
            final(gateway).query() == old(gateway).query(),
            share_in_field(final(acc).u, self.field),
            share_in_field(final(acc).w, self.field),
            ({
                let p = modulus(self.field);
                let left = peer_of(self.role, Direction::Left);
                let e1 = (left, Flow::Receive, self.step@, round.value.record_id);
                let e2 = (left, Flow::Receive, mac_step(self.step@), round.mac.record_id);
                let ok = round_in_field(round.value, left_d.0, self.field) && round_in_field(
                    round.mac,
                    left_d.1,
                    self.field,
                ) && rho < p;
                &&& !ok ==> r == Err::<MaliciousReplicated, MulError>(MulError::NotInField)
                &&& (r is Ok <==> ok && !old(gateway).log().contains(e1) && !old(
                    gateway,
                ).log().contains(e2))
                &&& r is Err ==> *final(acc) == *old(acc)
                &&& r matches Ok(c) ==> {
                    &&& final(gateway).log() == old(gateway).log().push(e1).push(e2)
                    &&& c.x == product_share(
                        p,
                        round.value.a,
                        round.value.b,
                        round.value.s0 as nat,
                        round.value.s1 as nat,
                        round.value.right_d as nat,
                        left_d.0 as nat,
                    )
                    &&& c.rx == product_share(
                        p,
                        round.mac.a,
                        round.mac.b,
                        round.mac.s0 as nat,
                        round.mac.s1 as nat,
                        round.mac.right_d as nat,
                        left_d.1 as nat,
                    )
                    &&& final(acc).u == weighted_add(p, old(acc).u, rho as nat, c.rx)
                    &&& final(acc).w == weighted_add(p, old(acc).w, rho as nat, c.x)
                }
            }),
    {
        let p = field_modulus(self.field);
        if !(rho < p) {
            return Err(MulError::NotInField);
        }
        let v = round.mac;
        if !(v.a.left < p && v.a.right < p && v.b.left < p && v.b.right < p && v.s0 < p && v.s1 < p
            && v.right_d < p && left_d.1 < p) {
            return Err(MulError::NotInField);
        }
        let mac_ctx = self.mac_context();
        proof {
            assert(mac_step(self.step@).len() == self.step@.len() + 4);
        }
        let x = match self.receive_term(gateway, round.value, left_d.0) {
            Ok(share) => share,
            Err(e) => {
                return Err(e);
            },
        };
        proof {
            let left = peer_of(self.role, Direction::Left);
            lemma_push_contains(
                old(gateway).log(),
                (left, Flow::Receive, self.step@, round.value.record_id),
                (left, Flow::Receive, mac_step(self.step@), round.mac.record_id),
            );
        }
        let rx = match mac_ctx.receive_term(gateway, round.mac, left_d.1) {
            Ok(share) => share,
            Err(e) => {
                return Err(e);
            },
        };
        proof {
            lemma_mod_pos_bound(x.left as int, p as int);
        }
        let u = Replicated {
            left: weighted_piece(p, acc.u.left, rho, rx.left),
            right: weighted_piece(p, acc.u.right, rho, rx.right),
        };
        let w = Replicated {
            left: weighted_piece(p, acc.w.left, rho, x.left),
            right: weighted_piece(p, acc.w.right, rho, x.right),
        };
        proof {
            lemma_mod_pos_bound(acc.u.left + rho * rx.left, p as int);
            lemma_mod_pos_bound(acc.u.right + rho * rx.right, p as int);
            lemma_mod_pos_bound(acc.w.left + rho * x.left, p as int);
            lemma_mod_pos_bound(acc.w.right + rho * x.right, p as int);
        }
        *acc = Accumulator { u, w };
        Ok(MaliciousReplicated { x, rx })
    }
}

/// `v % p`, written as `v` less a multiple of `p`.
proof fn lemma_mod_as_difference(v: int, p: int) -> (k: int)
    requires
        0 <= v,
        0 < p,
    ensures
        v % p == v - p * k,
        0 <= v % p < p,
{
    lemma_fundamental_div_mod(v, p);
    lemma_mod_pos_bound(v, p);
    v / p
}

/// Semi-honest multiplication is correct. Let three helpers hold consistent
/// replicated shares `a0, a1, a2` of `x` and `b0, b1, b2` of `y` (each
/// helper's right piece is its right peer's left piece), and let `r0` be the
/// randomness shared by helpers 0 and 1, `r1` by 1 and 2, `r2` by 2 and 0.
/// When each helper sends its term to the right and combines the term of its
/// left peer, the shares that come out are again consistent, and they
/// reconstruct to `x * y` in the field.
pub proof fn lemma_multiply_reconstructs(
    f: FieldType,
    a0: Replicated,
    a1: Replicated,
    a2: Replicated,
    b0: Replicated,
    b1: Replicated,
    b2: Replicated,
    r0: u64,
    r1: u64,
    r2: u64,
)
    requires
        a0.right == a1.left && a1.right == a2.left && a2.right == a0.left,
        b0.right == b1.left && b1.right == b2.left && b2.right == b0.left,
        share_in_field(a0, f) && share_in_field(a1, f) && share_in_field(a2, f),
        share_in_field(b0, f) && share_in_field(b1, f) && share_in_field(b2, f),
        r0 < modulus(f) && r1 < modulus(f) && r2 < modulus(f),
    ensures
        ({
            let p = modulus(f);
            let d0 = right_term(p, a0, b0, r2 as nat);
            let d1 = right_term(p, a1, b1, r0 as nat);
            let d2 = right_term(p, a2, b2, r1 as nat);
            let c0 = product_share(p, a0, b0, r2 as nat, r0 as nat, d0, d2);
            let c1 = product_share(p, a1, b1, r0 as nat, r1 as nat, d1, d0);
            let c2 = product_share(p, a2, b2, r1 as nat, r2 as nat, d2, d1);
            &&& c0.right == c1.left && c1.right == c2.left && c2.right == c0.left
            &&& (c0.left + c1.left + c2.left) % (p as int) == ((a0.left + a1.left + a2.left) * (
            b0.left + b1.left + b2.left)) % (p as int)
        }),
{
    let p = modulus(f) as int;
    let (x0, x1, x2) = (a0.left as int, a1.left as int, a2.left as int);
    let (y0, y1, y2) = (b0.left as int, b1.left as int, b2.left as int);
    let (s0, s1, s2) = (r0 as int, r1 as int, r2 as int);
    assert(x0 * y1 >= 0 && x1 * y0 >= 0 && x1 * y2 >= 0 && x2 * y1 >= 0 && x2 * y0 >= 0 && x0 * y2
        >= 0 && x0 * y0 >= 0 && x1 * y1 >= 0 && x2 * y2 >= 0) by (nonlinear_arith)
        requires
            x0 >= 0 && x1 >= 0 && x2 >= 0 && y0 >= 0 && y1 >= 0 && y2 >= 0,
    ;
    // The terms sent right, before and after reduction.
    let e0 = x0 * y1 + x1 * y0 + p - s2;
    let e1 = x1 * y2 + x2 * y1 + p - s0;
    let e2 = x2 * y0 + x0 * y2 + p - s1;
    let q0 = lemma_mod_as_difference(e0, p);
    let q1 = lemma_mod_as_difference(e1, p);
    let q2 = lemma_mod_as_difference(e2, p);
    let d0 = e0 % p;
    let d1 = e1 % p;
    let d2 = e2 % p;
    assert(right_term(p as nat, a0, b0, r2 as nat) == d0);
    assert(right_term(p as nat, a1, b1, r0 as nat) == d1);
    assert(right_term(p as nat, a2, b2, r1 as nat) == d2);
    // The left pieces of the results, before and after reduction.
    let l0 = x0 * y0 + d2 + s2;
    let l1 = x1 * y1 + d0 + s0;
    let l2 = x2 * y2 + d1 + s1;
    let k0 = lemma_mod_as_difference(l0, p);
    let k1 = lemma_mod_as_difference(l1, p);
    let k2 = lemma_mod_as_difference(l2, p);
    assert((x0 + x1 + x2) * (y0 + y1 + y2) == x0 * y0 + x1 * y1 + x2 * y2 + (x0 * y1 + x1 * y0) + (
    x1 * y2 + x2 * y1) + (x2 * y0 + x0 * y2)) by (nonlinear_arith);
    let sum = l0 % p + l1 % p + l2 % p;
    let prod = (x0 + x1 + x2) * (y0 + y1 + y2);
    let n = 3 - q0 - q1 - q2 - k0 - k1 - k2;
    assert(p * n == 3 * p - p * q0 - p * q1 - p * q2 - p * k0 - p * k1 - p * k2) by (nonlinear_arith)
        requires
            n == 3 - q0 - q1 - q2 - k0 - k1 - k2,
    ;
    assert(sum == p * n + prod);
    lemma_mod_multiples_vanish(n, prod, p);
}

} // verus!

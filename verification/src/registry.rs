//! The correlation registry: request identifiers and the one-shot slots
//! that wait for their results.

use std::collections::HashMap;
use tokio::sync::oneshot::error::RecvError;
use tokio::sync::oneshot::{Receiver, Sender};
use vstd::prelude::*;

verus! {

/// The sending half of a one-shot slot.
#[verifier::external_type_specification]
#[verifier::external_body]
#[verifier::reject_recursive_types(T)]
pub struct ExSender<T>(Sender<T>);

/// The receiving half of a one-shot slot.
#[verifier::external_type_specification]
#[verifier::external_body]
#[verifier::reject_recursive_types(T)]
pub struct ExReceiver<T>(Receiver<T>);

/// What awaiting a receiver gives when its sender was dropped unused.
/// Nothing here handles a value of it: it is declared because the receiver
/// is a future whose output names it, and the receiver cannot be declared
/// without it.
#[verifier::external_type_specification]
#[verifier::external_body]
pub struct ExRecvError(RecvError);

/// `tokio::sync::oneshot::channel` makes a fresh one-shot channel and
/// returns its two halves. Nothing is claimed of them.
#[verifier::external_body]
fn open_slot() -> (halves: (Sender<String>, Receiver<String>)) {
    tokio::sync::oneshot::channel::<String>()
}

/// `Sender::send` hands `payload` to the slot's receiving half and
/// consumes the sender. Whether a receiver was still there to take the
/// value is not looked at; nothing is claimed of the call.
#[verifier::external_body]
fn fulfil(slot: Sender<String>, payload: String) {
    let _ = slot.send(payload);
}

/// What a registry is, as a mathematical value.
pub struct RegistryView {
    /// The identifier that the next registration will get; every
    /// identifier below it has been issued.
    pub next_id: nat,
    /// The identifiers whose slot still waits for a result.
    pub pending: Set<u64>,
    /// Every payload that was handed to a slot, oldest first, with the
    /// identifier of the slot.
    pub delivered: Seq<(u64, Seq<char>)>,
}

impl RegistryView {
    /// The registry before any registration.
    pub open spec fn empty() -> RegistryView {
        RegistryView { next_id: 0, pending: Set::empty(), delivered: Seq::empty() }
    }

    /// Pending identifiers have been issued, an identifier with a delivery
    /// has been issued and is no longer pending, and no identifier has two
    /// deliveries.
    pub open spec fn wf(self) -> bool {
        &&& self.next_id <= u64::MAX
        &&& forall|id: u64| self.pending.contains(id) ==> (id as nat) < self.next_id
        &&& forall|i: int|
            0 <= i < self.delivered.len() ==> {
                &&& (#[trigger] self.delivered[i]).0 < self.next_id
                &&& !self.pending.contains(self.delivered[i].0)
            }
        &&& forall|i: int, j: int|
            0 <= i < j < self.delivered.len() ==> (#[trigger] self.delivered[i]).0 != (
            #[trigger] self.delivered[j]).0
    }

    /// Whether one more identifier can be issued.
    pub open spec fn has_room(self) -> bool {
        self.next_id < u64::MAX
    }

    /// The registry after one registration.
    pub open spec fn register(self) -> RegistryView {
        RegistryView {
            next_id: self.next_id + 1,
            pending: self.pending.insert(self.next_id as u64),
            delivered: self.delivered,
        }
    }

    /// The registry after an identifier was issued without a slot.
    pub open spec fn skip(self) -> RegistryView {
        RegistryView {
            next_id: self.next_id + 1,
            pending: self.pending,
            delivered: self.delivered,
        }
    }

    /// The registry after `resolve(id, payload)`: where `id` is pending its
    /// slot gets the payload and the entry goes, else nothing changes.
    pub open spec fn resolve(self, id: u64, payload: Seq<char>) -> RegistryView {
        if self.pending.contains(id) {
            RegistryView {
                next_id: self.next_id,
                pending: self.pending.remove(id),
                delivered: self.delivered.push((id, payload)),
            }
        } else {
            self
        }
    }

    /// The registry after `expire(id)`: the entry goes, nothing is delivered.
    pub open spec fn expire(self, id: u64) -> RegistryView {
        RegistryView {
            next_id: self.next_id,
            pending: self.pending.remove(id),
            delivered: self.delivered,
        }
    }

    /// Whether some payload was delivered to the slot of `id`.
    pub open spec fn has_delivery(self, id: u64) -> bool {
        exists|i: int| 0 <= i < self.delivered.len() && (#[trigger] self.delivered[i]).0 == id
    }
}

/// One operation on a registry.
pub enum RegistryOp {
    /// Issue an identifier with a slot.
    Register,
    /// Issue an identifier without a slot.
    Skip,
    /// Hand a payload to the slot of an identifier.
    Resolve(u64, Seq<char>),
    /// Remove the slot of an identifier.
    Expire(u64),
}

impl RegistryOp {
    /// Whether the operation is a `resolve` or an `expire` of `id`.
    pub open spec fn settles(self, id: u64) -> bool {
        match self {
            RegistryOp::Resolve(target, _) => target == id,
            RegistryOp::Expire(target) => target == id,
            _ => false,
        }
    }
}

impl RegistryView {
    /// The registry after `op`.
    pub open spec fn apply(self, op: RegistryOp) -> RegistryView {
        match op {
            RegistryOp::Register => self.register(),
            RegistryOp::Skip => self.skip(),
            RegistryOp::Resolve(id, payload) => self.resolve(id, payload),
            RegistryOp::Expire(id) => self.expire(id),
        }
    }

    /// Whether `op` may be applied: issuing an identifier needs room.
    pub open spec fn admits(self, op: RegistryOp) -> bool {
        match op {
            RegistryOp::Register => self.has_room(),
            RegistryOp::Skip => self.has_room(),
            _ => true,
        }
    }

    /// Whether `op` has an effect: a `resolve` or an `expire` has one
    /// exactly when the slot is there, the other operations always.
    pub open spec fn affected_by(self, op: RegistryOp) -> bool {
        match op {
            RegistryOp::Resolve(id, _) => self.pending.contains(id),
            RegistryOp::Expire(id) => self.pending.contains(id),
            _ => true,
        }
    }

    /// Whether each of `ops` may be applied in its turn.
    pub open spec fn admits_all(self, ops: Seq<RegistryOp>) -> bool
        decreases ops.len(),
    {
        ops.len() == 0 || (self.admits(ops[0]) && self.apply(ops[0]).admits_all(
            ops.drop_first(),
        ))
    }

    /// The registry after `ops`, applied in order.
    pub open spec fn apply_all(self, ops: Seq<RegistryOp>) -> RegistryView
        decreases ops.len(),
    {
        if ops.len() == 0 {
            self
        } else {
            self.apply(ops[0]).apply_all(ops.drop_first())
        }
    }

    /// How many of `ops`, applied in order, are a `resolve` or an `expire`
    /// of `id` that has an effect.
    pub open spec fn settlements(self, ops: Seq<RegistryOp>, id: u64) -> nat
        decreases ops.len(),
    {
        if ops.len() == 0 {
            0
        } else {
            let here: nat = if ops[0].settles(id) && self.affected_by(ops[0]) {
                1
            } else {
                0
            };
            here + self.apply(ops[0]).settlements(ops.drop_first(), id)
        }
    }

    /// Whether a `resolve` or an `expire` of `id` can still have an effect:
    /// the slot is there, or the identifier was not issued yet.
    pub open spec fn open_to(self, id: u64) -> bool {
        self.pending.contains(id) || id >= self.next_id
    }
}

/// Every operation keeps the invariant.
pub proof fn law_invariant_kept(registry: RegistryView, op: RegistryOp)
    requires
        registry.wf(),
        registry.admits(op),
    ensures
        registry.apply(op).wf(),
{
    match op {
        RegistryOp::Resolve(id, payload) => {
            if registry.pending.contains(id) {
                let after = registry.resolve(id, payload);
                assert forall|i: int| 0 <= i < after.delivered.len() implies {
                    &&& (#[trigger] after.delivered[i]).0 < after.next_id
                    &&& !after.pending.contains(after.delivered[i].0)
                } by {
                    if i < registry.delivered.len() {
                        assert(after.delivered[i] == registry.delivered[i]);
                    }
                }
                assert forall|i: int, j: int| 0 <= i < j < after.delivered.len() implies (
                #[trigger] after.delivered[i]).0 != (#[trigger] after.delivered[j]).0 by {
                    assert(after.delivered[i] == registry.delivered[i]);
                    if j < registry.delivered.len() {
                        assert(after.delivered[j] == registry.delivered[j]);
                    }
                }
            }
        },
        _ => {},
    }
}

/// A payload is handed to a slot at most once: no identifier has two
/// deliveries.
pub proof fn law_one_delivery(registry: RegistryView, i: int, j: int)
    requires
        registry.wf(),
        0 <= i < registry.delivered.len(),
        0 <= j < registry.delivered.len(),
        registry.delivered[i].0 == registry.delivered[j].0,
    ensures
        i == j,
{
    if i < j {
        assert(registry.delivered[i].0 != registry.delivered[j].0);
    } else if j < i {
        assert(registry.delivered[j].0 != registry.delivered[i].0);
    }
}

/// Once the slot of `id` was resolved or expired, a further `resolve` or
/// `expire` of `id` finds no slot and changes nothing.
pub proof fn law_settled_once(registry: RegistryView, id: u64, first: Seq<char>, later: Seq<char>)
    ensures
        !registry.resolve(id, first).pending.contains(id),
        !registry.expire(id).pending.contains(id),
        registry.resolve(id, first).resolve(id, later) == registry.resolve(id, first),
        registry.resolve(id, first).expire(id) == registry.resolve(id, first),
        registry.expire(id).resolve(id, later) == registry.expire(id),
        registry.expire(id).expire(id) == registry.expire(id),
{
    let resolved = registry.resolve(id, first);
    let expired = registry.expire(id);
    assert(resolved.pending.remove(id) =~= resolved.pending);
    assert(expired.pending.remove(id) =~= expired.pending);
}

/// Where the slot of `id` is there, `resolve` hands it the payload, as the
/// newest delivery, and a later `expire` takes nothing back. Where `expire`
/// came first, a later `resolve` delivers nothing.
pub proof fn law_first_wins(registry: RegistryView, id: u64, payload: Seq<char>)
    requires
        registry.wf(),
    ensures
        registry.pending.contains(id) ==> registry.resolve(id, payload).delivered
            == registry.delivered.push((id, payload)),
        registry.resolve(id, payload).expire(id).delivered == registry.resolve(
            id,
            payload,
        ).delivered,
        registry.expire(id).resolve(id, payload).delivered == registry.delivered,
        !registry.expire(id).resolve(id, payload).has_delivery(id) || registry.has_delivery(id),
{
}

/// A request leaves nothing behind: once its slot was resolved or expired,
/// the slots that wait are those that waited before it was registered.
pub proof fn law_slot_is_released(registry: RegistryView, payload: Seq<char>)
    requires
        registry.wf(),
        registry.has_room(),
    ensures
        registry.register().resolve(registry.next_id as u64, payload).pending == registry.pending,
        registry.register().expire(registry.next_id as u64).pending == registry.pending,
{
    let id = registry.next_id as u64;
    assert(!registry.pending.contains(id));
    assert(registry.pending.insert(id).remove(id) =~= registry.pending);
}

/// Taking the slot of one request away leaves the slot of every other
/// request where it was, with the sender it had: what is resolved or
/// expired for `id` neither closes nor fulfils the slot of `other`.
pub proof fn law_other_slots_untouched(held: Map<u64, Sender<String>>, id: u64, other: u64)
    requires
        other != id,
    ensures
        held.remove(id).contains_key(other) == held.contains_key(other),
        held.contains_key(other) ==> held.remove(id)[other] == held[other],
{
}

/// Over any run of operations, at most one `resolve` or `expire` of a given
/// identifier has an effect, and none has where the identifier was issued
/// and its slot is gone.
pub proof fn law_at_most_one_settlement(registry: RegistryView, ops: Seq<RegistryOp>, id: u64)
    requires
        registry.wf(),
        registry.admits_all(ops),
    ensures
        registry.settlements(ops, id) <= 1,
        !registry.open_to(id) ==> registry.settlements(ops, id) == 0,
    decreases ops.len(),
{
    if ops.len() > 0 {
        let op = ops[0];
        let next = registry.apply(op);
        law_invariant_kept(registry, op);
        law_at_most_one_settlement(next, ops.drop_first(), id);
        if op.settles(id) && registry.affected_by(op) {
            assert(!next.open_to(id));
        } else if !registry.open_to(id) {
            assert(!next.open_to(id));
        }
    }
}

/// Correlates execution requests with the results that arrive for them later.
pub struct Registry {
    next_id: u64,
    slots: HashMap<u64, Sender<String>>,
    delivered: Ghost<Seq<(u64, Seq<char>)>>,
}

impl View for Registry {
    type V = RegistryView;

    closed spec fn view(&self) -> RegistryView {
        RegistryView {
            next_id: self.next_id as nat,
            pending: self.slots@.dom(),
            delivered: self.delivered@,
        }
    }
}

impl Registry {
    /// The invariant of a registry.
    pub open spec fn wf(&self) -> bool {
        self@.wf()
    }

    /// The slots that wait for a result, each under its identifier: the
    /// sending half that was installed when the identifier was issued.
    pub closed spec fn held(&self) -> Map<u64, Sender<String>> {
        self.slots@
    }

    /// The identifiers of the slots that are held are those that are pending.
    pub proof fn lemma_held_keys(&self)
        ensures
            self.held().dom() == self@.pending,
    {
    }

    /// A registry with nothing issued.
    pub fn new() -> (registry: Registry)
        ensures
            registry.wf(),
            registry@ == RegistryView::empty(),
            registry.held() == Map::<u64, Sender<String>>::empty(),
    {
        let registry = Registry { next_id: 0, slots: HashMap::new(), delivered: Ghost(Seq::empty()) };
        assert(registry@.pending =~= Set::empty());
        registry
    }

    /// The identifier that the next registration will get, which is also the
    /// number of identifiers issued so far.
    pub fn issued(&self) -> (n: u64)
        ensures
            n == self@.next_id,
    {
        self.next_id
    }

    /// Whether one more identifier can be issued.
    pub fn has_room(&self) -> (room: bool)
        ensures
            room == self@.has_room(),
    {
        self.next_id < u64::MAX
    }

    /// Whether the slot of `id` still waits for a result.
    pub fn is_pending(&self, id: u64) -> (pending: bool)
        ensures
            pending == self@.pending.contains(id),
    {
        broadcast use vstd::std_specs::hash::group_hash_axioms;

        self.slots.contains_key(&id)
    }

    /// The number of slots that wait for a result.
    pub fn pending_count(&self) -> (n: usize)
        ensures
            n == self@.pending.len(),
    {
        broadcast use vstd::std_specs::hash::group_hash_axioms;

        self.slots.len()
    }

    /// Allocates the next identifier and installs an empty slot for it.
    /// Returns the identifier and the half on which the result will arrive.
    pub fn register(&mut self) -> (issued: (u64, Receiver<String>))
        requires
            old(self).wf(),
            old(self)@.has_room(),
        ensures
            final(self).wf(),
            final(self)@ == old(self)@.register(),
            issued.0 == old(self)@.next_id,
            !old(self)@.pending.contains(issued.0),
            !old(self)@.has_delivery(issued.0),
            final(self).held().contains_key(issued.0),
            final(self).held().remove(issued.0) == old(self).held(),
    {
        broadcast use vstd::std_specs::hash::group_hash_axioms;

        let id = self.next_id;
        let (slot, receiver) = open_slot();
        self.slots.insert(id, slot);
        self.next_id = id + 1;
        assert(self@.pending =~= old(self)@.pending.insert(id));
        assert(self@.delivered == old(self)@.delivered);
        assert(self.held().remove(id) =~= old(self).held());
        (id, receiver)
    }

    /// Allocates the next identifier without a slot, for a use that awaits
    /// no result.
    pub fn skip(&mut self) -> (id: u64)
        requires
            old(self).wf(),
            old(self)@.has_room(),
        ensures
            final(self).wf(),
            final(self)@ == old(self)@.skip(),
            final(self).held() == old(self).held(),
            id == old(self)@.next_id,
    {
        let id = self.next_id;
        self.next_id = id + 1;
        assert(self@.pending == old(self)@.pending);
        assert(self@.delivered == old(self)@.delivered);
        id
    }

    /// Takes the slot of `id` out of the registry, if it is there.
    fn take(&mut self, id: u64) -> (slot: Option<Sender<String>>)
        requires
            old(self).wf(),
        ensures
            final(self).wf(),
            final(self)@ == old(self)@.expire(id),
            final(self).held() == old(self).held().remove(id),
            slot is Some == old(self)@.pending.contains(id),
            slot matches Some(taken) ==> taken == old(self).held()[id],
    {
        broadcast use vstd::std_specs::hash::group_hash_axioms;

        let slot = self.slots.remove(&id);
        assert(self@.pending =~= old(self)@.pending.remove(id));
        assert(self@.delivered == old(self)@.delivered);
        slot
    }

    /// Hands `payload` to the slot of `id` and removes the entry. Returns
    /// whether the entry existed; where it did not, nothing happens. Every
    /// other slot stays as it is.
    pub fn resolve(&mut self, id: u64, payload: String) -> (existed: bool)
        requires
            old(self).wf(),
        ensures
            final(self).wf(),
            final(self)@ == old(self)@.resolve(id, payload@),
            final(self).held() == old(self).held().remove(id),
            existed == old(self)@.pending.contains(id),
    {
        match self.take(id) {
            Some(slot) => {
                proof {
                    self.delivered@ = self.delivered@.push((id, payload@));
                }
                fulfil(slot, payload);
                true
            },
            None => {
                assert(self@.pending =~= old(self)@.pending);
                false
            },
        }
    }

    /// Removes the entry of `id` without a result, so that a late result
    /// finds no slot. Every other slot stays as it is.
    pub fn expire(&mut self, id: u64)
        requires
            old(self).wf(),
        ensures
            final(self).wf(),
            final(self)@ == old(self)@.expire(id),
            final(self).held() == old(self).held().remove(id),
    {
        let _ = self.take(id);
    }
}

} // verus!

//! Identities of users and programs.

use vstd::prelude::*;
use crate::num::U256;
use crate::table::{swap_removed, Table};

verus! {

/// The 256-bit identity of a user or a program.
#[derive(Clone, Copy, Debug, PartialEq, Eq, Structural, Hash)]
pub struct ActorId {
    pub value: U256,
}

impl ActorId {
    /// The identity made of the given number.
    pub fn new(value: U256) -> (id: ActorId)
        ensures
            id.value == value,
    {
        ActorId { value }
    }

    /// The zero identity, which stands for nobody.
    pub fn zero() -> (id: ActorId)
        ensures
            id == Self::spec_zero(),
    {
        ActorId { value: U256 { w0: 0, w1: 0, w2: 0, w3: 0 } }
    }

    /// The zero identity.
    pub open spec fn spec_zero() -> ActorId {
        ActorId { value: U256 { w0: 0, w1: 0, w2: 0, w3: 0 } }
    }

    /// Whether this is the zero identity.
    pub fn is_zero(&self) -> (r: bool)
        ensures
            r == (*self == Self::spec_zero()),
    {
        self.value.w0 == 0 && self.value.w1 == 0 && self.value.w2 == 0 && self.value.w3 == 0
    }

    /// Whether `self` and `other` are the same identity.
    pub fn same(&self, other: &ActorId) -> (r: bool)
        ensures
            r == (*self == *other),
    {
        self.value.w0 == other.value.w0 && self.value.w1 == other.value.w1 && self.value.w2
            == other.value.w2 && self.value.w3 == other.value.w3
    }
}

/// A set of identities, kept in the order in which they joined.
pub struct ActorSet {
    table: Table<()>,
}

impl ActorSet {
    /// The set's inner table is in order.
    pub closed spec fn wf(&self) -> bool {
        self.table.wf()
    }

    /// The identities in the set.
    pub closed spec fn members(&self) -> Set<ActorId> {
        Set::new(|a: ActorId| self.table.entries().contains_key(a.value))
    }

    /// The identities in the order in which they stand.
    pub closed spec fn order(&self) -> Seq<ActorId> {
        Seq::new(self.table.order().len(), |i: int| ActorId { value: self.table.order()[i] })
    }

    /// The order lists every member exactly once.
    pub proof fn lemma_order(&self)
        requires
            self.wf(),
        ensures
            self.order().no_duplicates(),
            forall|i: int|
                0 <= i < self.order().len() ==> self.members().contains(#[trigger] self.order()[i]),
            forall|a: ActorId| #[trigger] self.members().contains(a) ==> self.order().contains(a),
    {
        self.table.lemma_order();
        assert forall|a: ActorId| #[trigger] self.members().contains(a) implies self.order().contains(
            a,
        ) by {
            let i = choose|i: int|
                0 <= i < self.table.order().len() && self.table.order()[i] == a.value;
            assert(self.order()[i] == a);
        }
    }

    /// The empty set.
    pub fn new() -> (set: ActorSet)
        ensures
            set.wf(),
            set.members() == Set::<ActorId>::empty(),
            set.order() == Seq::<ActorId>::empty(),
    {
        let set = ActorSet { table: Table::new() };
        assert(set.members() =~= Set::<ActorId>::empty());
        assert(set.order() =~= Seq::<ActorId>::empty());
        set
    }

    /// The number of members.
    pub fn len(&self) -> (n: usize)
        requires
            self.wf(),
        ensures
            n == self.order().len(),
    {
        self.table.len()
    }

    /// Whether `actor` is in the set.
    pub fn contains(&self, actor: &ActorId) -> (found: bool)
        requires
            self.wf(),
        ensures
            found == self.members().contains(*actor),
    {
        self.table.contains_key(&actor.value)
    }

    /// The member at place `i`.
    pub fn at(&self, i: usize) -> (actor: ActorId)
        requires
            self.wf(),
            i < self.order().len(),
        ensures
            actor == self.order()[i as int],
    {
        ActorId { value: self.table.key_at(i) }
    }

    /// Adds `actor`. A member stays where it is; a new one goes to the end.
    pub fn insert(&mut self, actor: ActorId)
        requires
            old(self).wf(),
        ensures
            final(self).wf(),
            final(self).members() == old(self).members().insert(actor),
            old(self).members().contains(actor) ==> final(self).order() == old(self).order(),
            !old(self).members().contains(actor) ==> final(self).order() == old(self).order().push(
                actor,
            ),
    {
        self.table.insert(actor.value, ());
        assert(self.members() =~= old(self).members().insert(actor)) by {
            assert forall|a: ActorId| self.members().contains(a) == old(self).members().insert(
                actor,
            ).contains(a) by {
                if a.value == actor.value {
                    assert(a == actor);
                }
            }
        }
        assert(old(self).members().contains(actor) ==> self.order() =~= old(self).order());
        assert(!old(self).members().contains(actor) ==> self.order() =~= old(self).order().push(
            actor,
        ));
    }

    /// Takes `actor` out; nothing changes where it was no member. The last
    /// member moves into the place that falls free.
    pub fn remove(&mut self, actor: &ActorId)
        requires
            old(self).wf(),
        ensures
            final(self).wf(),
            final(self).members() == old(self).members().remove(*actor),
            old(self).members().contains(*actor) ==> final(self).order() == swap_removed(
                old(self).order(),
                old(self).order().index_of(*actor),
            ),
            !old(self).members().contains(*actor) ==> final(self).order() == old(self).order(),
    {
        proof {
            old(self).lemma_order();
            old(self).table.lemma_order();
        }
        let _ = self.table.remove(&actor.value);
        assert(self.members() =~= old(self).members().remove(*actor)) by {
            assert forall|a: ActorId| self.members().contains(a) == old(self).members().remove(
                *actor,
            ).contains(a) by {
                if a.value == actor.value {
                    assert(a == *actor);
                }
            }
        }
        proof {
            if old(self).members().contains(*actor) {
                let keys = old(self).table.order();
                let i = keys.index_of(actor.value);
                keys.index_of_first_ensures(actor.value);
                old(self).order().index_of_first_ensures(*actor);
                let j = old(self).order().index_of(*actor);
                assert(old(self).order()[j] == *actor);
                assert(keys[j] == actor.value);
                assert(i == j);
                assert(self.order() =~= swap_removed(old(self).order(), j));
            } else {
                assert(self.order() =~= old(self).order());
            }
        }
    }
}

} // verus!

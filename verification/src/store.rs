//! The entity store: an arena in which every entity keeps the slot it was
//! born in.
//!
//! A slot is never handed out twice, so an identifier stays good for as long
//! as its entity lives and is recognisably stale afterwards.

use crate::entity::Entity;
use vstd::prelude::*;

verus! {

/// The stable name of an entity: the number of its slot.
#[derive(Clone, Copy, Debug, PartialEq, Eq, Hash)]
pub struct EntityId {
    pub index: usize,
}

/// All entities of a world, dead slots included.
#[derive(Debug, PartialEq, Eq)]
pub struct Store {
    slots: Vec<Option<Entity>>,
}

/// What the slot named by `id` holds; nothing if there is no such slot.
pub open spec fn lookup(slots: Seq<Option<Entity>>, id: EntityId) -> Option<Entity> {
    if id.index < slots.len() {
        slots[id.index as int]
    } else {
        None
    }
}

/// The slots with `entity` put in place of a living one; unchanged if `id`
/// names no living entity.
pub open spec fn replaced(slots: Seq<Option<Entity>>, id: EntityId, entity: Entity) -> Seq<
    Option<Entity>,
> {
    if lookup(slots, id) is Some {
        slots.update(id.index as int, Some(entity))
    } else {
        slots
    }
}

/// The slots with the one named by `id` emptied; unchanged if `id` names no
/// living entity.
pub open spec fn vacated(slots: Seq<Option<Entity>>, id: EntityId) -> Seq<Option<Entity>> {
    if lookup(slots, id) is Some {
        slots.update(id.index as int, None)
    } else {
        slots
    }
}

/// The identifiers of the living among the first `n` slots, in slot order.
pub open spec fn living(slots: Seq<Option<Entity>>, n: nat) -> Seq<EntityId>
    decreases n,
{
    if n == 0 || n > slots.len() {
        Seq::empty()
    } else {
        let before = living(slots, (n - 1) as nat);
        if slots[n - 1] is Some {
            before.push(EntityId { index: (n - 1) as usize })
        } else {
            before
        }
    }
}

impl View for Store {
    type V = Seq<Option<Entity>>;

    closed spec fn view(&self) -> Seq<Option<Entity>> {
        self.slots@
    }
}

impl Store {
    /// An empty store.
    pub fn new() -> (store: Store)
        ensures
            store@ == Seq::<Option<Entity>>::empty(),
    {
        Store { slots: Vec::new() }
    }

    /// Number of slots, living and dead.
    pub fn len(&self) -> (n: usize)
        ensures
            n == self@.len(),
    {
        self.slots.len()
    }

    /// Registers an entity in a new slot and returns its identifier.
    pub fn spawn(&mut self, entity: Entity) -> (id: EntityId)
        ensures
            final(self)@ == old(self)@.push(Some(entity)),
            id.index == old(self)@.len(),
    {
        let index = self.slots.len();
        self.slots.push(Some(entity));
        EntityId { index }
    }

    /// The entity named by `id`, if it lives.
    pub fn get(&self, id: EntityId) -> (found: Option<Entity>)
        ensures
            found == lookup(self@, id),
    {
        if id.index < self.slots.len() {
            self.slots[id.index]
        } else {
            None
        }
    }

    /// Puts `entity` in the place of the living entity named by `id` and says
    /// whether there was one; a stale identifier changes nothing.
    pub fn replace(&mut self, id: EntityId, entity: Entity) -> (done: bool)
        ensures
            final(self)@ == replaced(old(self)@, id, entity),
            done == (lookup(old(self)@, id) is Some),
    {
        if id.index < self.slots.len() && self.slots[id.index].is_some() {
            self.slots.set(id.index, Some(entity));
            true
        } else {
            false
        }
    }

    /// Removes the entity named by `id` for good and returns it; a stale
    /// identifier changes nothing.
    pub fn remove(&mut self, id: EntityId) -> (gone: Option<Entity>)
        ensures
            final(self)@ == vacated(old(self)@, id),
            gone == lookup(old(self)@, id),
    {
        if id.index < self.slots.len() {
            let gone = self.slots[id.index];
            self.slots.set(id.index, None);
            gone
        } else {
            None
        }
    }

    /// The identifiers of all living entities, in slot order.
    pub fn ids(&self) -> (ids: Vec<EntityId>)
        ensures
            ids@ == living(self@, self@.len()),
    {
        let mut ids: Vec<EntityId> = Vec::new();
        let mut i: usize = 0;
        while i < self.slots.len()
            invariant
                i <= self.slots.len(),
                ids@ == living(self@, i as nat),
            decreases self.slots.len() - i,
        {
            if self.slots[i].is_some() {
                ids.push(EntityId { index: i });
            }
            i = i + 1;
        }
        ids
    }
}

} // verus!

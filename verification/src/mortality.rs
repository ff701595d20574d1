//! The mortality sweep: whatever has no health left is removed, for good.

use crate::entity::Entity;
use crate::store::EntityId;
use crate::store::Store;
use vstd::prelude::*;

verus! {

/// An entity with no health left is dead. Zero counts: food that has been
/// eaten is gone.
pub open spec fn is_dead(entity: Entity) -> bool {
    entity.spec_health() <= 0
}

/// A slot after the sweep.
pub open spec fn swept_slot(slot: Option<Entity>) -> Option<Entity> {
    match slot {
        Some(entity) => if is_dead(entity) {
            None
        } else {
            slot
        },
        None => None,
    }
}

/// All slots after the sweep.
pub open spec fn swept(slots: Seq<Option<Entity>>) -> Seq<Option<Entity>> {
    Seq::new(slots.len(), |i: int| swept_slot(slots[i]))
}

/// The identifiers of the dead among the first `n` slots, in slot order.
pub open spec fn casualties(slots: Seq<Option<Entity>>, n: nat) -> Seq<EntityId>
    decreases n,
{
    if n == 0 || n > slots.len() {
        Seq::empty()
    } else {
        let before = casualties(slots, (n - 1) as nat);
        match slots[n - 1] {
            Some(entity) => if is_dead(entity) {
                before.push(EntityId { index: (n - 1) as usize })
            } else {
                before
            },
            None => before,
        }
    }
}

/// Whether an entity is dead.
pub fn dead(entity: Entity) -> (r: bool)
    ensures
        r == is_dead(entity),
{
    entity.health() <= 0
}

/// Removes every dead entity from the store and returns the identifiers of
/// the removed, in slot order, for whoever mirrors the store.
pub fn sweep(store: &mut Store) -> (removed: Vec<EntityId>)
    ensures
        final(store)@ == swept(old(store)@),
        removed@ == casualties(old(store)@, old(store)@.len()),
{
    let mut removed: Vec<EntityId> = Vec::new();
    let n = store.len();
    let mut i: usize = 0;
    while i < n
        invariant
            i <= n,
            n == old(store)@.len(),
            store@.len() == n,
            forall|j: int| 0 <= j < i ==> store@[j] == swept_slot(old(store)@[j]),
            forall|j: int| i <= j < n ==> store@[j] == old(store)@[j],
            removed@ == casualties(old(store)@, i as nat),
        decreases n - i,
    {
        let id = EntityId { index: i };
        match store.get(id) {
            Some(entity) => {
                if dead(entity) {
                    store.remove(id);
                    removed.push(id);
                }
            },
            None => {},
        }
        i = i + 1;
    }
    removed
}

/// After a sweep nothing dead is left, nothing alive has been touched, and
/// nothing has come back.
pub proof fn lemma_sweep_outcome(slots: Seq<Option<Entity>>, i: int)
    requires
        0 <= i < slots.len(),
    ensures
        swept(slots).len() == slots.len(),
        swept(slots)[i] matches Some(entity) ==> entity.spec_health() > 0,
        slots[i] matches Some(entity) ==> (swept(slots)[i] is None <==> entity.spec_health() <= 0),
        swept(slots)[i] is Some ==> swept(slots)[i] == slots[i],
        slots[i] is None ==> swept(slots)[i] is None,
{
}

/// A second sweep finds nothing to do.
pub proof fn lemma_sweep_twice(slots: Seq<Option<Entity>>)
    ensures
        swept(swept(slots)) == swept(slots),
        casualties(swept(slots), slots.len()) == Seq::<EntityId>::empty(),
{
    assert(swept(swept(slots)) =~= swept(slots));
    lemma_no_casualties(swept(slots), slots.len());
}

proof fn lemma_no_casualties(slots: Seq<Option<Entity>>, n: nat)
    requires
        n <= slots.len(),
        forall|i: int|
            0 <= i < slots.len() ==> (#[trigger] slots[i] matches Some(entity) ==> !is_dead(
                entity,
            )),
    ensures
        casualties(slots, n) == Seq::<EntityId>::empty(),
    decreases n,
{
    if n > 0 {
        lemma_no_casualties(slots, (n - 1) as nat);
    }
}

} // verus!

//! The resolver: what contacts between entities do.
//!
//! When a critter touches food, the critter takes all the health the food
//! still holds and the food is left with none. Every other contact, and every
//! contact that names an entity no longer alive, does nothing.

use crate::critters::Critter;
use crate::entity::Entity;
use crate::fixed::clamp;
use crate::fixed::plus;
use crate::food::Food;
use crate::store::lookup;
use crate::store::EntityId;
use crate::store::Store;
use vstd::prelude::*;

verus! {

/// What the contact detection reports about a pair of entities.
#[derive(Clone, Copy, Debug, PartialEq, Eq)]
pub enum ContactEvent {
    /// The two have begun to overlap.
    Started(EntityId, EntityId),
    /// The two have ceased to overlap. Nothing follows from this.
    Stopped(EntityId, EntityId),
}

/// `id` names a living critter.
pub open spec fn is_critter(slots: Seq<Option<Entity>>, id: EntityId) -> bool {
    lookup(slots, id) matches Some(Entity::Critter(_))
}

/// `id` names a living food item.
pub open spec fn is_food(slots: Seq<Option<Entity>>, id: EntityId) -> bool {
    lookup(slots, id) matches Some(Entity::Food(_))
}

/// The health of the entity named by `id`.
pub open spec fn health_of(slots: Seq<Option<Entity>>, id: EntityId) -> i64 {
    lookup(slots, id)->0.spec_health()
}

/// The slots after the critter `eater` has taken what the food `meal` holds.
pub open spec fn fed(slots: Seq<Option<Entity>>, eater: EntityId, meal: EntityId) -> Seq<
    Option<Entity>,
> {
    let gain = health_of(slots, meal);
    let critter = lookup(slots, eater)->0;
    let food = lookup(slots, meal)->0;
    slots.update(
        eater.index as int,
        Some(critter.with_health(clamp(critter.spec_health() + gain))),
    ).update(meal.index as int, Some(food.with_health(0)))
}

/// The slots after `a` and `b` have begun to touch.
pub open spec fn touched(slots: Seq<Option<Entity>>, a: EntityId, b: EntityId) -> Seq<
    Option<Entity>,
> {
    if is_critter(slots, a) && is_food(slots, b) {
        fed(slots, a, b)
    } else if is_food(slots, a) && is_critter(slots, b) {
        fed(slots, b, a)
    } else {
        slots
    }
}

/// The slots after one reported event.
pub open spec fn resolved_one(slots: Seq<Option<Entity>>, event: ContactEvent) -> Seq<
    Option<Entity>,
> {
    match event {
        ContactEvent::Started(a, b) => touched(slots, a, b),
        ContactEvent::Stopped(_, _) => slots,
    }
}

/// The slots after a batch of events, taken in the order reported.
pub open spec fn resolved(slots: Seq<Option<Entity>>, events: Seq<ContactEvent>) -> Seq<
    Option<Entity>,
>
    decreases events.len(),
{
    if events.len() == 0 {
        slots
    } else {
        resolved_one(resolved(slots, events.drop_last()), events.last())
    }
}

/// Resolves the contact of `a` and `b`: if one is a living critter and the
/// other living food, the critter takes the food's health and the food keeps
/// none; anything else changes nothing.
pub fn touch(store: &mut Store, a: EntityId, b: EntityId)
    ensures
        final(store)@ == touched(old(store)@, a, b),
{
    match (store.get(a), store.get(b)) {
        (Some(Entity::Critter(critter)), Some(Entity::Food(food))) => {
            feed(store, a, critter, b, food);
        },
        (Some(Entity::Food(food)), Some(Entity::Critter(critter))) => {
            feed(store, b, critter, a, food);
        },
        _ => {},
    }
}

fn feed(store: &mut Store, eater: EntityId, critter: Critter, meal: EntityId, food: Food)
    requires
        lookup(old(store)@, eater) == Some(Entity::Critter(critter)),
        lookup(old(store)@, meal) == Some(Entity::Food(food)),
    ensures
        final(store)@ == fed(old(store)@, eater, meal),
{
    let health = plus(critter.health, food.health);
    store.replace(eater, Entity::Critter(Critter { health, ..critter }));
    store.replace(meal, Entity::Food(Food { health: 0, ..food }));
}

/// Resolves a batch of events in the order reported. Only events that report
/// the start of a contact have any effect.
pub fn resolve(store: &mut Store, events: &Vec<ContactEvent>)
    ensures
        final(store)@ == resolved(old(store)@, events@),
{
    let mut i: usize = 0;
    while i < events.len()
        invariant
            i <= events.len(),
            store@ == resolved(old(store)@, events@.take(i as int)),
        decreases events.len() - i,
    {
        proof {
            assert(events@.take(i + 1).drop_last() =~= events@.take(i as int));
        }
        match events[i] {
            ContactEvent::Started(a, b) => {
                touch(store, a, b);
            },
            ContactEvent::Stopped(_, _) => {},
        }
        i = i + 1;
    }
    proof {
        assert(events@.take(events@.len() as int) =~= events@);
    }
}

/// The pair has nothing to transfer: if the two are critter and food, the
/// food holds no health.
pub open spec fn spent(slots: Seq<Option<Entity>>, a: EntityId, b: EntityId) -> bool {
    &&& is_critter(slots, a) && is_food(slots, b) ==> health_of(slots, b) == 0
    &&& is_food(slots, a) && is_critter(slots, b) ==> health_of(slots, a) == 0
}

/// A transfer gives the critter exactly what the food held and leaves the
/// food with nothing, whichever of the two is named first.
pub proof fn lemma_transfer(slots: Seq<Option<Entity>>, eater: EntityId, meal: EntityId)
    requires
        is_critter(slots, eater),
        is_food(slots, meal),
    ensures
        touched(slots, meal, eater) == touched(slots, eater, meal),
        health_of(touched(slots, eater, meal), eater) == clamp(
            health_of(slots, eater) + health_of(slots, meal),
        ),
        health_of(touched(slots, eater, meal), meal) == 0,
        is_critter(touched(slots, eater, meal), eater),
        is_food(touched(slots, eater, meal), meal),
        spent(touched(slots, eater, meal), eater, meal),
        spent(touched(slots, eater, meal), meal, eater),
{
}

/// A contact of a pair that has nothing to transfer changes nothing.
pub proof fn lemma_spent_is_idle(slots: Seq<Option<Entity>>, a: EntityId, b: EntityId)
    requires
        spent(slots, a, b),
    ensures
        touched(slots, a, b) == slots,
{
    assert(touched(slots, a, b) =~= slots);
}

/// Whatever contact is resolved, its pair has nothing to transfer afterwards.
pub proof fn lemma_touch_spends(slots: Seq<Option<Entity>>, a: EntityId, b: EntityId)
    ensures
        spent(touched(slots, a, b), a, b),
        spent(touched(slots, a, b), b, a),
{
    if is_critter(slots, a) && is_food(slots, b) {
        lemma_transfer(slots, a, b);
    } else if is_food(slots, a) && is_critter(slots, b) {
        lemma_transfer(slots, b, a);
    }
}

/// A pair that has nothing to transfer still has nothing to transfer after
/// any other event: food never gains health.
pub proof fn lemma_spent_stays(
    slots: Seq<Option<Entity>>,
    event: ContactEvent,
    a: EntityId,
    b: EntityId,
)
    requires
        spent(slots, a, b),
    ensures
        spent(resolved_one(slots, event), a, b),
{
    lemma_resolved_one_shape(slots, event);
}

/// A second report of a contact, straight after the first and in either
/// order, changes nothing: the critter has gained the food's health once.
pub proof fn lemma_touch_again(slots: Seq<Option<Entity>>, a: EntityId, b: EntityId)
    ensures
        touched(touched(slots, a, b), a, b) == touched(slots, a, b),
        touched(touched(slots, a, b), b, a) == touched(slots, a, b),
{
    lemma_touch_spends(slots, a, b);
    lemma_spent_is_idle(touched(slots, a, b), a, b);
    lemma_spent_is_idle(touched(slots, a, b), b, a);
}

/// Once a batch has reported the start of a contact of `a` and `b`, the pair
/// has nothing to transfer at the end of the batch.
pub proof fn lemma_reported_is_spent(
    slots: Seq<Option<Entity>>,
    events: Seq<ContactEvent>,
    k: int,
    a: EntityId,
    b: EntityId,
)
    requires
        0 <= k < events.len(),
        events[k] == ContactEvent::Started(a, b) || events[k] == ContactEvent::Started(b, a),
    ensures
        spent(resolved(slots, events), a, b),
        spent(resolved(slots, events), b, a),
    decreases events.len(),
{
    let before = resolved(slots, events.drop_last());
    if k == events.len() - 1 {
        lemma_touch_spends(before, a, b);
        lemma_touch_spends(before, b, a);
    } else {
        lemma_reported_is_spent(slots, events.drop_last(), k, a, b);
        lemma_spent_stays(before, events.last(), a, b);
        lemma_spent_stays(before, events.last(), b, a);
    }
}

/// A duplicate report is harmless wherever it comes: if a batch has reported
/// the start of a contact of `a` and `b`, in either order, one more such
/// report at its end changes nothing. Food is eaten once per batch.
pub proof fn lemma_duplicate_report(
    slots: Seq<Option<Entity>>,
    events: Seq<ContactEvent>,
    k: int,
    a: EntityId,
    b: EntityId,
)
    requires
        0 <= k < events.len(),
        events[k] == ContactEvent::Started(a, b) || events[k] == ContactEvent::Started(b, a),
    ensures
        resolved(slots, events.push(ContactEvent::Started(a, b))) == resolved(slots, events),
{
    let longer = events.push(ContactEvent::Started(a, b));
    assert(longer.drop_last() =~= events);
    lemma_reported_is_spent(slots, events, k, a, b);
    lemma_spent_is_idle(resolved(slots, events), a, b);
}

/// Resolving contacts never adds, removes or re-roles a slot.
pub proof fn lemma_resolved_one_shape(slots: Seq<Option<Entity>>, event: ContactEvent)
    ensures
        resolved_one(slots, event).len() == slots.len(),
        forall|i: int|
            0 <= i < slots.len() ==> (#[trigger] resolved_one(slots, event)[i] is Some
                <==> slots[i] is Some),
        forall|i: int|
            0 <= i < slots.len() && slots[i] is Some ==> (#[trigger] resolved_one(
                slots,
                event,
            )[i])->0.spec_kind() == slots[i]->0.spec_kind(),
{
}

/// Resolving a batch never adds, removes or re-roles a slot: the resolver
/// changes health and nothing else.
pub proof fn lemma_resolved_shape(slots: Seq<Option<Entity>>, events: Seq<ContactEvent>)
    ensures
        resolved(slots, events).len() == slots.len(),
        forall|i: int|
            0 <= i < slots.len() ==> (#[trigger] resolved(slots, events)[i] is Some
                <==> slots[i] is Some),
        forall|i: int|
            0 <= i < slots.len() && slots[i] is Some ==> (#[trigger] resolved(
                slots,
                events,
            )[i])->0.spec_kind() == slots[i]->0.spec_kind(),
    decreases events.len(),
{
    if events.len() > 0 {
        lemma_resolved_shape(slots, events.drop_last());
        lemma_resolved_one_shape(resolved(slots, events.drop_last()), events.last());
    }
}

} // verus!

//! A world from start to tick: generation once, then integrator, resolver
//! and sweep in strict sequence.

use crate::args::Args;
use crate::contact::lemma_resolved_shape;
use crate::contact::resolve;
use crate::contact::resolved;
use crate::contact::ContactEvent;
use crate::entity::inside;
use crate::entity::Bounds;
use crate::entity::Entity;
use crate::mortality::casualties;
use crate::mortality::sweep;
use crate::mortality::swept;
use crate::motion::integrated;
use crate::motion::move_all;
use crate::store::EntityId;
use crate::store::Store;
use crate::stream::entity_state;
use crate::stream::is_fixed;
use crate::stream::ranged_draw;
use vstd::prelude::*;

verus! {

/// Why a world could not be started.
#[derive(Clone, Copy, Debug, PartialEq, Eq)]
pub enum StartError {
    /// Nobody could say how large the world is.
    MissingBounds,
    /// The world is too small to place anything in.
    DegenerateBounds,
}

/// The slots of a freshly started world: the critters, then the food.
pub open spec fn initial(args: Args, bounds: Bounds) -> Seq<Option<Entity>> {
    crate::critters::population(args, bounds, args.critters as nat) + crate::food::population(
        args,
        bounds,
        args.food.count as nat,
    )
}

/// The slots as they stand when integrator and resolver have run and the
/// sweep is about to.
pub open spec fn before_sweep(
    slots: Seq<Option<Entity>>,
    args: Args,
    bounds: Bounds,
    dt: u64,
    events: Seq<ContactEvent>,
) -> Seq<Option<Entity>> {
    resolved(integrated(slots, dt, bounds, args.health.per_vel), events)
}

/// Two configurations ask for the same populations: they agree on the seed,
/// the counts and the health ranges.
pub open spec fn same_populations(first: Args, second: Args) -> bool {
    &&& first.seed == second.seed
    &&& first.critters == second.critters
    &&& first.health.init_min == second.health.init_min
    &&& first.health.init_max == second.health.init_max
    &&& first.food.init_min == second.food.init_min
    &&& first.food.init_max == second.food.init_max
    &&& first.food.count == second.food.count
}

/// Generation is repeatable: two runs that agree on the seed, the counts, the
/// health ranges and the bounds fill the same slots with the same entities,
/// attribute for attribute.
pub proof fn lemma_generation_repeats(first: Args, second: Args, bounds: Bounds)
    requires
        same_populations(first, second),
    ensures
        initial(first, bounds) == initial(second, bounds),
{
    assert(crate::critters::population(first, bounds, first.critters as nat)
        =~= crate::critters::population(second, bounds, second.critters as nat));
    assert(crate::food::population(first, bounds, first.food.count as nat)
        =~= crate::food::population(second, bounds, second.food.count as nat));
}

/// Streams are isolated: how many critters or food items a run asks for has
/// no bearing on any one of them. The `i`-th critter and the `j`-th food item
/// of two runs are the same whenever the runs agree on the seed, the health
/// ranges and the bounds, whatever the two counts are.
pub proof fn lemma_counts_do_not_matter(first: Args, second: Args, bounds: Bounds, i: int, j: int)
    requires
        first.seed == second.seed,
        first.health.init_min == second.health.init_min,
        first.health.init_max == second.health.init_max,
        first.food.init_min == second.food.init_min,
        first.food.init_max == second.food.init_max,
        0 <= i < first.critters,
        i < second.critters,
        0 <= j < first.food.count,
        j < second.food.count,
    ensures
        initial(first, bounds)[i] == initial(second, bounds)[i],
        initial(first, bounds)[first.critters + j] == initial(second, bounds)[second.critters + j],
{
}

/// Asking for one critter more leaves every critter generated before it, and
/// every food item, as it was; only the slots of the food move up by one.
pub proof fn lemma_one_more_critter(args: Args, more: Args, bounds: Bounds)
    requires
        more == (Args { critters: (args.critters + 1) as u32, ..args }),
        args.critters < u32::MAX,
    ensures
        crate::critters::population(more, bounds, more.critters as nat).take(
            args.critters as int,
        ) == crate::critters::population(args, bounds, args.critters as nat),
        crate::food::population(more, bounds, more.food.count as nat) == crate::food::population(
            args,
            bounds,
            args.food.count as nat,
        ),
{
    assert(crate::critters::population(more, bounds, more.critters as nat).take(
        args.critters as int,
    ) =~= crate::critters::population(args, bounds, args.critters as nat));
    assert(crate::food::population(more, bounds, more.food.count as nat)
        =~= crate::food::population(args, bounds, args.food.count as nat));
}

/// With a fixed health range every critter starts with exactly the upper
/// end, and its private stream is still untouched when the heading is drawn.
pub proof fn lemma_fixed_health(args: Args, bounds: Bounds, i: int)
    requires
        is_fixed(args.health.init_min, args.health.init_max),
        0 <= i < args.critters,
    ensures
        initial(args, bounds)[i] matches Some(Entity::Critter(critter)) && critter.health
            == args.health.init_max,
        ranged_draw(entity_state(args.seed, i as nat), args.health.init_min, args.health.init_max)
            == (args.health.init_max, entity_state(args.seed, i as nat)),
{
}

/// With a fixed health range every food item starts with exactly the upper
/// end.
pub proof fn lemma_fixed_worth(args: Args, bounds: Bounds, j: int)
    requires
        is_fixed(args.food.init_min, args.food.init_max),
        0 <= j < args.food.count,
    ensures
        initial(args, bounds)[args.critters + j] matches Some(Entity::Food(food)) && food.health
            == args.food.init_max,
{
}

/// Removal is final: a tick never adds a slot and never brings a dead slot
/// back to life, and what lives after it has health left.
pub proof fn lemma_tick_outcome(
    slots: Seq<Option<Entity>>,
    args: Args,
    bounds: Bounds,
    dt: u64,
    events: Seq<ContactEvent>,
    i: int,
)
    requires
        0 <= i < slots.len(),
    ensures
        swept(before_sweep(slots, args, bounds, dt, events)).len() == slots.len(),
        slots[i] is None ==> swept(before_sweep(slots, args, bounds, dt, events))[i] is None,
        swept(before_sweep(slots, args, bounds, dt, events))[i] matches Some(entity)
            ==> entity.spec_health() > 0 && entity.spec_kind() == slots[i]->0.spec_kind(),
{
    lemma_resolved_shape(integrated(slots, dt, bounds, args.health.per_vel), events);
}

/// Starts a world: establishes the bounds, then generates both populations
/// into a new store. Without usable bounds nothing is generated.
pub fn start(args: &Args, window: Option<Bounds>) -> (r: Result<Store, StartError>)
    requires
        args.wf(),
    ensures
        match window {
            None => r == Err::<Store, StartError>(StartError::MissingBounds),
            Some(bounds) => if bounds.wf() {
                r matches Ok(store) && store@ == initial(*args, bounds) && forall|j: int|
                    0 <= j < store@.len() ==> inside(bounds, #[trigger] store@[j])
            } else {
                r == Err::<Store, StartError>(StartError::DegenerateBounds)
            },
        },
{
    match window {
        None => Err(StartError::MissingBounds),
        Some(bounds) => {
            if bounds.width >= Bounds::MIN_EXTENT && bounds.height >= Bounds::MIN_EXTENT {
                let mut store = Store::new();
                crate::critters::startup(&mut store, args, &bounds);
                crate::food::startup(&mut store, args, &bounds);
                Ok(store)
            } else {
                Err(StartError::DegenerateBounds)
            }
        },
    }
}

/// One tick: the integrator runs to the end, then the contacts reported for
/// the tick are resolved, then the dead are swept out. Returns the
/// identifiers of the removed.
pub fn tick(
    store: &mut Store,
    args: &Args,
    bounds: &Bounds,
    dt: u64,
    events: &Vec<ContactEvent>,
) -> (removed: Vec<EntityId>)
    ensures
        final(store)@ == swept(before_sweep(old(store)@, *args, *bounds, dt, events@)),
        removed@ == casualties(
            before_sweep(old(store)@, *args, *bounds, dt, events@),
            old(store)@.len(),
        ),
{
    move_all(store, args, bounds, dt);
    resolve(store, events);
    proof {
        lemma_resolved_shape(integrated(old(store)@, dt, *bounds, args.health.per_vel), events@);
    }
    sweep(store)
}

} // verus!

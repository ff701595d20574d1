//! The food: stationary entities whose health is what they are worth.

use crate::args::Args;
use crate::entity::inside;
use crate::entity::Bounds;
use crate::entity::Entity;
use crate::entity::Tint;
use crate::entity::Vector;
use crate::entity::HUE_END;
use crate::entity::LIGHTNESS_END;
use crate::entity::LIGHTNESS_START;
use crate::store::Store;
use crate::stream::draw_between;
use crate::stream::draw_ranged;
use crate::stream::driver_state;
use crate::stream::entity_state;
use crate::stream::fork;
use crate::stream::range_draw;
use crate::stream::ranged_draw;
use crate::stream::seed_stream;
use crate::stream::stream_state;
use rand::rngs::SmallRng;
use vstd::prelude::*;

verus! {

/// Edge of the square a food item is drawn in.
pub const SIZE: i64 = 5_000_000;

/// Radius of a food item's contact disc.
pub const RADIUS: i64 = 2_500_000;

/// A food item.
#[derive(Clone, Copy, Debug, PartialEq, Eq)]
pub struct Food {
    pub position: Vector,
    pub health: i64,
    pub tint: Tint,
}

/// Food is placed within this distance of the centre, on each axis.
pub open spec fn half(extent: i64) -> i64 {
    (extent / 2) as i64
}

/// The food item that a private stream in the given state brings forth. The
/// draws come in a fixed order: health, place, colour.
pub open spec fn food_from(state: Seq<u64>, food: crate::args::Food, bounds: Bounds) -> Food {
    let worth = ranged_draw(state, food.init_min, food.init_max);
    let x = range_draw(worth.1, (-half(bounds.width)) as i64, half(bounds.width));
    let y = range_draw(x.1, (-half(bounds.height)) as i64, half(bounds.height));
    let hue = range_draw(y.1, 0, HUE_END);
    let lightness = range_draw(hue.1, LIGHTNESS_START, LIGHTNESS_END);
    Food {
        position: Vector { x: x.0, y: y.0 },
        health: worth.0,
        tint: Tint { hue: hue.0, lightness: lightness.0 },
    }
}

/// The slots that the first `n` food items of a run fill, in order.
pub open spec fn population(args: Args, bounds: Bounds, n: nat) -> Seq<Option<Entity>> {
    Seq::new(
        n,
        |i: int|
            Some(Entity::Food(food_from(entity_state(args.seed, i as nat), args.food, bounds))),
    )
}

impl Food {
    /// Draws a food item from its private stream.
    pub fn random(rng: &mut SmallRng, food: &crate::args::Food, bounds: &Bounds) -> (item: Food)
        requires
            food.wf(),
            bounds.wf(),
        ensures
            item == food_from(stream_state(*old(rng)), *food, *bounds),
            bounds.holds(item.position),
    {
        let worth = draw_ranged(rng, food.init_min, food.init_max);
        let x = draw_between(rng, -(bounds.width / 2), bounds.width / 2);
        let y = draw_between(rng, -(bounds.height / 2), bounds.height / 2);
        let hue = draw_between(rng, 0, HUE_END);
        let lightness = draw_between(rng, LIGHTNESS_START, LIGHTNESS_END);
        Food { position: Vector { x, y }, health: worth, tint: Tint { hue, lightness } }
    }
}

/// Generates the food of a run and registers it in the store, in order. Each
/// item comes from a private stream forked off one driver, which is seeded
/// with the master seed.
pub fn startup(store: &mut Store, args: &Args, bounds: &Bounds)
    requires
        args.food.wf(),
        bounds.wf(),
    ensures
        final(store)@ == old(store)@ + population(*args, *bounds, args.food.count as nat),
        forall|j: int|
            old(store)@.len() <= j < final(store)@.len() ==> inside(
                *bounds,
                #[trigger] final(store)@[j],
            ),
{
    let mut driver = seed_stream(args.seed);
    let mut i: u32 = 0;
    while i < args.food.count
        invariant
            i <= args.food.count,
            args.food.wf(),
            bounds.wf(),
            stream_state(driver) == driver_state(args.seed, i as nat),
            store@ == old(store)@ + population(*args, *bounds, i as nat),
            forall|j: int|
                old(store)@.len() <= j < store@.len() ==> inside(*bounds, #[trigger] store@[j]),
        decreases args.food.count - i,
    {
        let mut rng = fork(&mut driver);
        let item = Food::random(&mut rng, &args.food, bounds);
        store.spawn(Entity::Food(item));
        i = i + 1;
    }
}

} // verus!

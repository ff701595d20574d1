//! The critters: mobile entities that pay for moving with their health.

use crate::angle::cos;
use crate::angle::cosine;
use crate::angle::lemma_sine_bounds;
use crate::angle::sin;
use crate::angle::sine;
use crate::angle::TAU;
use crate::args::Args;
use crate::args::Health;
use crate::entity::inside;
use crate::entity::Bounds;
use crate::entity::Entity;
use crate::entity::Tint;
use crate::entity::Vector;
use crate::entity::HUE_END;
use crate::entity::LIGHTNESS_END;
use crate::entity::LIGHTNESS_START;
use crate::fixed::product;
use crate::fixed::scaled_product;
use crate::fixed::SCALE;
use crate::fixed::times;
use crate::store::Store;
use crate::stream::draw_between;
use crate::stream::draw_ranged;
use crate::stream::driver_state;
use crate::stream::entity_state;
use crate::stream::fork;
use crate::stream::range_draw;
use crate::stream::ranged_draw;
use crate::stream::seed_stream;
use crate::stream::stream_state;
use rand::rngs::SmallRng;
use vstd::prelude::*;

verus! {

/// Edge of the square a critter is drawn in.
pub const SIZE: i64 = 20_000_000;

/// Radius of a critter's contact disc.
pub const RADIUS: i64 = 10_000_000;

/// Slowest a critter starts out.
pub const SPEED_START: i64 = 10_000_000;

/// A critter starts out slower than this.
pub const SPEED_END: i64 = 40_000_000;

/// A critter.
#[derive(Clone, Copy, Debug, PartialEq, Eq)]
pub struct Critter {
    pub position: Vector,
    /// Units per second.
    pub velocity: Vector,
    pub health: i64,
    pub tint: Tint,
}

/// The velocity with the given heading and speed.
pub open spec fn polar(angle: i64, speed: i64) -> Vector {
    Vector {
        x: product(cosine(angle as int) as i64, speed),
        y: product(sine(angle as int) as i64, speed),
    }
}

/// Critters are placed within this distance of the centre, on each axis.
pub open spec fn quarter(extent: i64) -> i64 {
    (extent / 4) as i64
}

/// The critter that a private stream in the given state brings forth. The
/// draws come in a fixed order: health, heading, speed, place, colour.
pub open spec fn critter_from(state: Seq<u64>, health: Health, bounds: Bounds) -> Critter {
    let vitality = ranged_draw(state, health.init_min, health.init_max);
    let angle = range_draw(vitality.1, 0, TAU);
    let speed = range_draw(angle.1, SPEED_START, SPEED_END);
    let x = range_draw(speed.1, (-quarter(bounds.width)) as i64, quarter(bounds.width));
    let y = range_draw(x.1, (-quarter(bounds.height)) as i64, quarter(bounds.height));
    let hue = range_draw(y.1, 0, HUE_END);
    let lightness = range_draw(hue.1, LIGHTNESS_START, LIGHTNESS_END);
    Critter {
        position: Vector { x: x.0, y: y.0 },
        velocity: polar(angle.0, speed.0),
        health: vitality.0,
        tint: Tint { hue: hue.0, lightness: lightness.0 },
    }
}

/// The slots that the first `n` critters of a run fill, in order.
pub open spec fn population(args: Args, bounds: Bounds, n: nat) -> Seq<Option<Entity>> {
    Seq::new(
        n,
        |i: int|
            Some(
                Entity::Critter(
                    critter_from(entity_state(args.seed, i as nat), args.health, bounds),
                ),
            ),
    )
}

/// A component of a velocity is no larger than the speed.
pub proof fn lemma_component_within(share: int, speed: int)
    requires
        -SCALE <= share <= SCALE,
        0 <= speed,
    ensures
        -speed <= scaled_product(share, speed) <= speed,
{
    assert(-(SCALE * speed) <= share * speed <= SCALE * speed) by (nonlinear_arith)
        requires
            -SCALE <= share <= SCALE,
            0 <= speed,
    ;
}

/// The velocity with the given heading and speed. Neither component is
/// larger than the speed.
pub fn from_polar(angle: i64, speed: i64) -> (velocity: Vector)
    ensures
        velocity == polar(angle, speed),
        0 <= speed ==> -speed <= velocity.x <= speed && -speed <= velocity.y <= speed,
{
    proof {
        lemma_sine_bounds(angle as int);
        if 0 <= speed {
            lemma_component_within(cosine(angle as int), speed as int);
            lemma_component_within(sine(angle as int), speed as int);
        }
    }
    Vector { x: times(cos(angle), speed), y: times(sin(angle), speed) }
}

impl Critter {
    /// Draws a critter from its private stream.
    pub fn random(rng: &mut SmallRng, health: &Health, bounds: &Bounds) -> (critter: Critter)
        requires
            health.wf(),
            bounds.wf(),
        ensures
            critter == critter_from(stream_state(*old(rng)), *health, *bounds),
            bounds.holds(critter.position),
            -SPEED_END < critter.velocity.x < SPEED_END,
            -SPEED_END < critter.velocity.y < SPEED_END,
    {
        let vitality = draw_ranged(rng, health.init_min, health.init_max);
        let angle = draw_between(rng, 0, TAU);
        let speed = draw_between(rng, SPEED_START, SPEED_END);
        let x = draw_between(rng, -(bounds.width / 4), bounds.width / 4);
        let y = draw_between(rng, -(bounds.height / 4), bounds.height / 4);
        let hue = draw_between(rng, 0, HUE_END);
        let lightness = draw_between(rng, LIGHTNESS_START, LIGHTNESS_END);
        Critter {
            position: Vector { x, y },
            velocity: from_polar(angle, speed),
            health: vitality,
            tint: Tint { hue, lightness },
        }
    }
}

/// Generates the critters of a run and registers them in the store, in
/// order. Each comes from a private stream forked off one driver, which is
/// seeded with the master seed.
pub fn startup(store: &mut Store, args: &Args, bounds: &Bounds)
    requires
        args.health.wf(),
        bounds.wf(),
    ensures
        final(store)@ == old(store)@ + population(*args, *bounds, args.critters as nat),
        forall|j: int|
            old(store)@.len() <= j < final(store)@.len() ==> inside(
                *bounds,
                #[trigger] final(store)@[j],
            ),
{
    let mut driver = seed_stream(args.seed);
    let mut i: u32 = 0;
    while i < args.critters
        invariant
            i <= args.critters,
            args.health.wf(),
            bounds.wf(),
            stream_state(driver) == driver_state(args.seed, i as nat),
            store@ == old(store)@ + population(*args, *bounds, i as nat),
            forall|j: int|
                old(store)@.len() <= j < store@.len() ==> inside(*bounds, #[trigger] store@[j]),
        decreases args.critters - i,
    {
        let mut rng = fork(&mut driver);
        let critter = Critter::random(&mut rng, &args.health, bounds);
        store.spawn(Entity::Critter(critter));
        i = i + 1;
    }
}

} // verus!

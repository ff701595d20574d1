//! The integrator: one tick of movement on the wraparound plane.
//!
//! Critters advance by velocity times elapsed time and pay for the distance
//! with their health. A coordinate that has left the world on one side comes
//! back in on the other, by one extent: nothing may cross more than one
//! world in a tick. Food neither moves nor pays.

use crate::args::Args;
use crate::critters::Critter;
use crate::entity::Bounds;
use crate::entity::Entity;
use crate::entity::Vector;
use crate::fixed::clamp;
use crate::fixed::lemma_product_fits;
use crate::fixed::magnitude;
use crate::fixed::minus;
use crate::fixed::product;
use crate::fixed::root;
use crate::fixed::saturate;
use crate::fixed::times;
use crate::fixed::toward_zero;
use crate::fixed::SCALE;
use crate::store::EntityId;
use crate::store::Store;
use vstd::prelude::*;

verus! {

/// The coordinate `p` brought back by one extent if it lies beyond half the
/// extent on either side.
pub open spec fn wrap_once(p: int, extent: int) -> int {
    if 2 * p > extent {
        p - extent
    } else if 2 * p < -extent {
        p + extent
    } else {
        p
    }
}

/// Where a coordinate is after `dt` microseconds at velocity `v`.
pub open spec fn advanced(p: i64, v: i64, dt: u64, extent: i64) -> i64 {
    clamp(wrap_once(p + toward_zero(v * dt, SCALE as int), extent as int))
}

/// The distance covered in `dt` microseconds.
pub open spec fn travel(velocity: Vector, dt: u64) -> i64 {
    clamp(root(velocity.x * velocity.x + velocity.y * velocity.y) * dt / (SCALE as int))
}

/// The health that moving for `dt` microseconds costs.
pub open spec fn toll(velocity: Vector, dt: u64, per_vel: i64) -> i64 {
    product(travel(velocity, dt), per_vel)
}

/// A critter one tick later.
pub open spec fn moved(critter: Critter, dt: u64, bounds: Bounds, per_vel: i64) -> Critter {
    Critter {
        position: Vector {
            x: advanced(critter.position.x, critter.velocity.x, dt, bounds.width),
            y: advanced(critter.position.y, critter.velocity.y, dt, bounds.height),
        },
        health: clamp(critter.health - toll(critter.velocity, dt, per_vel)),
        ..critter
    }
}

/// An entity one tick later: critters move, food stays as it is.
pub open spec fn stepped(entity: Entity, dt: u64, bounds: Bounds, per_vel: i64) -> Entity {
    match entity {
        Entity::Critter(critter) => Entity::Critter(moved(critter, dt, bounds, per_vel)),
        Entity::Food(_) => entity,
    }
}

/// A slot one tick later.
pub open spec fn stepped_slot(
    slot: Option<Entity>,
    dt: u64,
    bounds: Bounds,
    per_vel: i64,
) -> Option<Entity> {
    match slot {
        Some(entity) => Some(stepped(entity, dt, bounds, per_vel)),
        None => None,
    }
}

/// All slots one tick later.
pub open spec fn integrated(
    slots: Seq<Option<Entity>>,
    dt: u64,
    bounds: Bounds,
    per_vel: i64,
) -> Seq<Option<Entity>> {
    Seq::new(slots.len(), |i: int| stepped_slot(slots[i], dt, bounds, per_vel))
}

/// Advances one coordinate and wraps it.
pub fn advance(p: i64, v: i64, dt: u64, extent: i64) -> (r: i64)
    ensures
        r == advanced(p, v, dt, extent),
{
    proof {
        lemma_product_fits(v as int, dt as int);
    }
    let way: i128 = (v as i128) * (dt as i128) / (SCALE as i128);
    let there: i128 = p as i128 + way;
    let wrapped: i128 = if 2 * there > extent as i128 {
        there - extent as i128
    } else if 2 * there < -(extent as i128) {
        there + extent as i128
    } else {
        there
    };
    saturate(wrapped)
}

/// The health that `dt` microseconds at the given velocity cost.
pub fn cost(velocity: Vector, dt: u64, per_vel: i64) -> (r: i64)
    ensures
        r == toll(velocity, dt, per_vel),
{
    let speed: u64 = magnitude(velocity.x, velocity.y);
    assert(speed * dt <= 0xffff_ffff_ffff_ffff * 0xffff_ffff_ffff_ffff) by (nonlinear_arith)
        requires
            0 <= speed <= 0xffff_ffff_ffff_ffff,
            0 <= dt <= 0xffff_ffff_ffff_ffff,
    ;
    let way: u128 = (speed as u128) * (dt as u128) / (SCALE as u128);
    let covered: i64 = if way > i64::MAX as u128 {
        i64::MAX
    } else {
        way as i64
    };
    times(covered, per_vel)
}

impl Critter {
    /// The critter one tick later.
    pub fn step(self, dt: u64, bounds: &Bounds, per_vel: i64) -> (r: Critter)
        ensures
            r == moved(self, dt, *bounds, per_vel),
    {
        Critter {
            position: Vector {
                x: advance(self.position.x, self.velocity.x, dt, bounds.width),
                y: advance(self.position.y, self.velocity.y, dt, bounds.height),
            },
            velocity: self.velocity,
            health: minus(self.health, cost(self.velocity, dt, per_vel)),
            tint: self.tint,
        }
    }
}

/// Runs the integrator over the whole store for a tick of `dt` microseconds.
pub fn move_all(store: &mut Store, args: &Args, bounds: &Bounds, dt: u64)
    ensures
        final(store)@ == integrated(old(store)@, dt, *bounds, args.health.per_vel),
{
    let per_vel = args.health.per_vel;
    let n = store.len();
    let mut i: usize = 0;
    while i < n
        invariant
            i <= n,
            per_vel == args.health.per_vel,
            n == old(store)@.len(),
            store@.len() == n,
            forall|j: int|
                0 <= j < i ==> store@[j] == stepped_slot(old(store)@[j], dt, *bounds, per_vel),
            forall|j: int| i <= j < n ==> store@[j] == old(store)@[j],
        decreases n - i,
    {
        let id = EntityId { index: i };
        match store.get(id) {
            Some(Entity::Critter(critter)) => {
                store.replace(id, Entity::Critter(critter.step(dt, bounds, per_vel)));
            },
            _ => {},
        }
        i = i + 1;
    }
}

/// A coordinate beyond half the extent comes back by exactly one extent and
/// is not clamped; one within stays. A coordinate that is no more than one
/// extent outside lands inside.
pub proof fn lemma_wraps_once(p: int, extent: int)
    requires
        extent >= 0,
    ensures
        2 * p > extent ==> wrap_once(p, extent) == p - extent,
        2 * p < -extent ==> wrap_once(p, extent) == p + extent,
        -extent <= 2 * p <= extent ==> wrap_once(p, extent) == p,
        -3 * extent <= 2 * p <= 3 * extent ==> -extent <= 2 * wrap_once(p, extent) <= extent,
{
}

/// In a world that reaches `half` to either side, a coordinate `past` beyond
/// the upper edge reappears `past` beyond the lower edge.
pub proof fn lemma_wrap_over_edge(half: int, past: int)
    requires
        half >= 0,
        past > 0,
    ensures
        wrap_once(half + past, 2 * half) == past - half,
{
}

/// A critter that starts inside the bounds and covers no more than one
/// extent on either axis is inside the bounds after the tick.
pub proof fn lemma_moved_stays_inside(critter: Critter, dt: u64, bounds: Bounds, per_vel: i64)
    requires
        bounds.width >= 0,
        bounds.height >= 0,
        bounds.holds(critter.position),
        -bounds.width <= toward_zero(critter.velocity.x * dt, SCALE as int) <= bounds.width,
        -bounds.height <= toward_zero(critter.velocity.y * dt, SCALE as int) <= bounds.height,
    ensures
        bounds.holds(moved(critter, dt, bounds, per_vel).position),
{
    lemma_wraps_once(
        critter.position.x + toward_zero(critter.velocity.x * dt, SCALE as int),
        bounds.width as int,
    );
    lemma_wraps_once(
        critter.position.y + toward_zero(critter.velocity.y * dt, SCALE as int),
        bounds.height as int,
    );
}

/// A tick of no duration leaves every entity inside the bounds as it is.
pub proof fn lemma_still_tick(entity: Entity, bounds: Bounds, per_vel: i64)
    requires
        bounds.holds(entity.spec_position()),
    ensures
        stepped(entity, 0, bounds, per_vel) == entity,
{
    match entity {
        Entity::Critter(critter) => {
            let v = critter.velocity;
            assert(v.x * 0 == 0 && v.y * 0 == 0) by (nonlinear_arith);
            assert(root(v.x * v.x + v.y * v.y) * 0 == 0) by (nonlinear_arith);
            assert(0 * per_vel == 0) by (nonlinear_arith);
        },
        Entity::Food(_) => {},
    }
}

} // verus!

//! What lives in the world: critters and food, told apart by a tag.

use crate::critters::Critter;
use crate::food::Food;
use vstd::prelude::*;

verus! {

/// Hues run from zero up to, not including, a full turn of the colour wheel,
/// in degrees.
pub const HUE_END: i64 = 360_000_000;

/// Darkest an entity is drawn.
pub const LIGHTNESS_START: i64 = 200_000;

/// An entity is drawn darker than this.
pub const LIGHTNESS_END: i64 = 800_000;

/// A point or a velocity on the plane.
#[derive(Clone, Copy, Debug, PartialEq, Eq)]
pub struct Vector {
    pub x: i64,
    pub y: i64,
}

/// The colour an entity is drawn in. Set once, never read by the core.
#[derive(Clone, Copy, Debug, PartialEq, Eq)]
pub struct Tint {
    /// Degrees on the colour wheel.
    pub hue: i64,
    pub lightness: i64,
}

/// The extent of the world, centred on the origin.
#[derive(Clone, Copy, Debug, PartialEq, Eq)]
pub struct Bounds {
    pub width: i64,
    pub height: i64,
}

/// The two roles.
#[derive(Clone, Copy, Debug, PartialEq, Eq)]
pub enum EntityType {
    Critter,
    Food,
}

/// A simulated object.
#[derive(Clone, Copy, Debug, PartialEq, Eq)]
pub enum Entity {
    Critter(Critter),
    Food(Food),
}

impl Bounds {
    /// Smallest extent in which every placement range holds a point.
    pub const MIN_EXTENT: i64 = 4;

    /// Both extents are large enough to place entities in.
    pub open spec fn wf(self) -> bool {
        self.width >= Self::MIN_EXTENT && self.height >= Self::MIN_EXTENT
    }

    /// The point `p` needs no wrapping.
    pub open spec fn holds(self, p: Vector) -> bool {
        &&& -self.width <= 2 * p.x <= self.width
        &&& -self.height <= 2 * p.y <= self.height
    }

    /// Whether the point `p` needs no wrapping.
    pub fn contains(&self, p: Vector) -> (r: bool)
        ensures
            r == self.holds(p),
    {
        let x: i128 = 2 * (p.x as i128);
        let y: i128 = 2 * (p.y as i128);
        -(self.width as i128) <= x && x <= self.width as i128 && -(self.height as i128) <= y && y
            <= self.height as i128
    }

    /// Bounds of the given extents, if entities can be placed in them.
    pub fn new(width: i64, height: i64) -> (r: Option<Bounds>)
        ensures
            r == if width >= Self::MIN_EXTENT && height >= Self::MIN_EXTENT {
                Some(Bounds { width, height })
            } else {
                None
            },
    {
        if width >= Self::MIN_EXTENT && height >= Self::MIN_EXTENT {
            Some(Bounds { width, height })
        } else {
            None
        }
    }
}

/// The slot holds a living entity that lies inside the bounds.
pub open spec fn inside(bounds: Bounds, slot: Option<Entity>) -> bool {
    slot matches Some(entity) && bounds.holds(entity.spec_position())
}

impl Entity {
    pub open spec fn spec_kind(self) -> EntityType {
        match self {
            Entity::Critter(_) => EntityType::Critter,
            Entity::Food(_) => EntityType::Food,
        }
    }

    pub open spec fn spec_health(self) -> i64 {
        match self {
            Entity::Critter(c) => c.health,
            Entity::Food(f) => f.health,
        }
    }

    pub open spec fn spec_position(self) -> Vector {
        match self {
            Entity::Critter(c) => c.position,
            Entity::Food(f) => f.position,
        }
    }

    pub open spec fn spec_velocity(self) -> Vector {
        match self {
            Entity::Critter(c) => c.velocity,
            Entity::Food(_) => Vector { x: 0, y: 0 },
        }
    }

    pub open spec fn spec_tint(self) -> Tint {
        match self {
            Entity::Critter(c) => c.tint,
            Entity::Food(f) => f.tint,
        }
    }

    pub open spec fn spec_radius(self) -> i64 {
        match self {
            Entity::Critter(_) => crate::critters::RADIUS,
            Entity::Food(_) => crate::food::RADIUS,
        }
    }

    /// The same entity with another health.
    pub open spec fn with_health(self, health: i64) -> Entity {
        match self {
            Entity::Critter(c) => Entity::Critter(Critter { health, ..c }),
            Entity::Food(f) => Entity::Food(Food { health, ..f }),
        }
    }

    /// The role.
    #[verifier::when_used_as_spec(spec_kind)]
    pub fn kind(self) -> (r: EntityType)
        ensures
            r == self.spec_kind(),
    {
        match self {
            Entity::Critter(_) => EntityType::Critter,
            Entity::Food(_) => EntityType::Food,
        }
    }

    /// Remaining health; for food, what it is still worth.
    #[verifier::when_used_as_spec(spec_health)]
    pub fn health(self) -> (r: i64)
        ensures
            r == self.spec_health(),
    {
        match self {
            Entity::Critter(c) => c.health,
            Entity::Food(f) => f.health,
        }
    }

    /// Where the entity is.
    #[verifier::when_used_as_spec(spec_position)]
    pub fn position(self) -> (r: Vector)
        ensures
            r == self.spec_position(),
    {
        match self {
            Entity::Critter(c) => c.position,
            Entity::Food(f) => f.position,
        }
    }

    /// How fast the entity moves; food does not.
    #[verifier::when_used_as_spec(spec_velocity)]
    pub fn velocity(self) -> (r: Vector)
        ensures
            r == self.spec_velocity(),
    {
        match self {
            Entity::Critter(c) => c.velocity,
            Entity::Food(_) => Vector { x: 0, y: 0 },
        }
    }

    /// The colour to draw the entity in.
    #[verifier::when_used_as_spec(spec_tint)]
    pub fn tint(self) -> (r: Tint)
        ensures
            r == self.spec_tint(),
    {
        match self {
            Entity::Critter(c) => c.tint,
            Entity::Food(f) => f.tint,
        }
    }

    /// Radius of the disc that stands for the entity in contact detection.
    #[verifier::when_used_as_spec(spec_radius)]
    pub fn radius(self) -> (r: i64)
        ensures
            r == self.spec_radius(),
    {
        match self {
            Entity::Critter(_) => crate::critters::RADIUS,
            Entity::Food(_) => crate::food::RADIUS,
        }
    }
}

} // verus!

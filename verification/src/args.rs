//! The configuration of a run.

use crate::fixed::from_units;
use crate::fixed::SCALE;
use crate::stream::can_range;
use crate::stream::fresh_seed;
use crate::stream::is_range;
use vstd::prelude::*;

verus! {

/// How critters start out and what moving costs them.
#[derive(Clone, Copy, Debug, PartialEq, Eq)]
pub struct Health {
    /// Lower end of a critter's initial health.
    pub init_min: i64,
    /// Upper end of a critter's initial health.
    pub init_max: i64,
    /// Health that one unit of distance costs.
    pub per_vel: i64,
}

/// How much food there is and what it is worth.
#[derive(Clone, Copy, Debug, PartialEq, Eq)]
pub struct Food {
    /// Lower end of a food item's initial health.
    pub init_min: i64,
    /// Upper end of a food item's initial health.
    pub init_max: i64,
    /// Number of food items at the start.
    pub count: u32,
    /// Food items that grow back per second; carried for the front end, the
    /// core never reads it.
    pub per_sec: u32,
}

/// Everything a run is configured with.
#[derive(Clone, Copy, Debug, PartialEq, Eq)]
pub struct Args {
    /// The master seed as the operator gave it, if at all.
    pub raw_seed: Option<u64>,
    /// Number of critters at the start.
    pub critters: u32,
    /// The master seed in force once `settle_seed` has run.
    pub seed: u64,
    pub health: Health,
    pub food: Food,
}

impl Health {
    /// The initial health can be produced.
    pub open spec fn wf(self) -> bool {
        is_range(self.init_min, self.init_max)
    }

    /// Whether the initial health can be produced.
    pub fn is_valid(&self) -> (r: bool)
        ensures
            r == self.wf(),
    {
        can_range(self.init_min, self.init_max)
    }
}

impl Food {
    /// The initial health can be produced.
    pub open spec fn wf(self) -> bool {
        is_range(self.init_min, self.init_max)
    }

    /// Whether the initial health can be produced.
    pub fn is_valid(&self) -> (r: bool)
        ensures
            r == self.wf(),
    {
        can_range(self.init_min, self.init_max)
    }
}

impl Default for Health {
    fn default() -> (r: Health)
        ensures
            r.init_min == 1000 * SCALE,
            r.init_max == 1000 * SCALE,
            r.per_vel == 10 * SCALE,
    {
        Health { init_min: from_units(1000), init_max: from_units(1000), per_vel: from_units(10) }
    }
}

impl Default for Food {
    fn default() -> (r: Food)
        ensures
            r.init_min == 1000 * SCALE,
            r.init_max == 1000 * SCALE,
            r.count == 100,
            r.per_sec == 10,
    {
        Food { init_min: from_units(1000), init_max: from_units(1000), count: 100, per_sec: 10 }
    }
}

impl Args {
    /// Both populations can be generated.
    pub open spec fn wf(self) -> bool {
        self.health.wf() && self.food.wf()
    }

    /// Whether both populations can be generated.
    pub fn is_valid(&self) -> (r: bool)
        ensures
            r == self.wf(),
    {
        self.health.is_valid() && self.food.is_valid()
    }

    /// A configuration for `critters` critters with every other setting at its
    /// default and no seed chosen yet.
    pub fn new(critters: u32) -> (r: Args)
        ensures
            r.raw_seed is None,
            r.critters == critters,
            r.seed == 0,
            r.health.init_min == 1000 * SCALE,
            r.health.init_max == 1000 * SCALE,
            r.health.per_vel == 10 * SCALE,
            r.food.init_min == 1000 * SCALE,
            r.food.init_max == 1000 * SCALE,
            r.food.count == 100,
            r.food.per_sec == 10,
            r.wf(),
    {
        Args {
            raw_seed: None,
            critters,
            seed: 0,
            health: Health::default(),
            food: Food::default(),
        }
    }

    /// The configuration with its master seed fixed: the operator's seed if
    /// one was given, `fallback` otherwise.
    pub open spec fn settled(self, fallback: u64) -> Args {
        Args {
            seed: match self.raw_seed {
                Some(given) => given,
                None => fallback,
            },
            ..self
        }
    }

    /// Fixes the master seed: the operator's seed if one was given,
    /// `fallback` otherwise.
    pub fn settle_seed_with(&mut self, fallback: u64)
        ensures
            *final(self) == old(self).settled(fallback),
    {
        self.seed = match self.raw_seed {
            Some(given) => given,
            None => fallback,
        };
    }

    /// Fixes the master seed, once, before anything is generated: the
    /// operator's seed if one was given, a random one otherwise. The seed in
    /// force can be read from `seed` afterwards.
    pub fn settle_seed(&mut self)
        ensures
            *final(self) == old(self).settled(final(self).seed),
    {
        let fallback = match self.raw_seed {
            Some(given) => given,
            None => fresh_seed(),
        };
        self.settle_seed_with(fallback);
    }
}

} // verus!

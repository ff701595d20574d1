//! Reproducible random streams.
//!
//! One driver stream, seeded from the master seed, hands out a fresh seed for
//! each entity; all of an entity's attributes come from the private stream
//! that grows from that seed. How much one entity draws therefore never
//! reaches another.
//!
//! The generator is `rand`'s `SmallRng`. What it computes is not restated
//! here: its results carry names, and the contracts below say which name each
//! call returns. Seeds are written as 32 bytes, the width they have on 64-bit
//! targets; on a narrower target `SmallRng` is another generator with shorter
//! seeds, and this module does not build. The names therefore always stand
//! for the results of the 64-bit generator.

use rand::rngs::SmallRng;
use rand::Rng;
use rand::SeedableRng;
use vstd::prelude::*;

verus! {

/// `rand::rngs::SmallRng`, carried through as an opaque value.
#[verifier::external_type_specification]
#[verifier::external_body]
pub struct ExSmallRng(rand::rngs::SmallRng);

/// The state words that a generator holds; they determine all it will return.
pub uninterp spec fn stream_state(rng: SmallRng) -> Seq<u64>;

/// The state of the generator that `SmallRng::seed_from_u64` builds.
pub uninterp spec fn seeded_state(master: u64) -> Seq<u64>;

/// The state of the generator that `SmallRng::from_seed` builds.
pub uninterp spec fn state_from_seed(seed: Seq<u8>) -> Seq<u64>;

/// The 32 bytes that `Rng::gen` draws in a given state, and the state it
/// leaves behind.
pub uninterp spec fn seed_draw(state: Seq<u64>) -> (Seq<u8>, Seq<u64>);

/// The value that `Rng::gen_range` draws from `low..high` in a given state,
/// and the state it leaves behind.
pub uninterp spec fn range_draw(state: Seq<u64>, low: i64, high: i64) -> (i64, Seq<u64>);

/// Two ends closer together than this count as one fixed value.
pub const EPSILON: i64 = 10_000;

/// The range from `min` to `max` is so narrow that nothing is drawn from it.
pub open spec fn is_fixed(min: i64, max: i64) -> bool {
    -EPSILON < max - min < EPSILON
}

/// A ranged attribute can be produced: the range is fixed or not empty.
pub open spec fn is_range(min: i64, max: i64) -> bool {
    is_fixed(min, max) || min < max
}

/// The value of a ranged attribute and the state after producing it. A fixed
/// range yields its upper end and leaves the stream untouched.
pub open spec fn ranged_draw(state: Seq<u64>, min: i64, max: i64) -> (i64, Seq<u64>) {
    if is_fixed(min, max) {
        (max, state)
    } else {
        range_draw(state, min, max)
    }
}

/// The driver's state after it has handed out `n` seeds.
pub open spec fn driver_state(master: u64, n: nat) -> Seq<u64>
    decreases n,
{
    if n == 0 {
        seeded_state(master)
    } else {
        seed_draw(driver_state(master, (n - 1) as nat)).1
    }
}

/// The seed of the `i`-th entity that a driver brings forth.
pub open spec fn entity_seed(master: u64, i: nat) -> Seq<u8> {
    seed_draw(driver_state(master, i)).0
}

/// The initial state of the `i`-th entity's private stream.
pub open spec fn entity_state(master: u64, i: nat) -> Seq<u64> {
    state_from_seed(entity_seed(master, i))
}

/// Calls `SmallRng::seed_from_u64`; the new generator's state is named by
/// `seeded_state`.
#[verifier::external_body]
pub(crate) fn seed_stream(master: u64) -> (rng: SmallRng)
    ensures
        stream_state(rng) == seeded_state(master),
{
    SmallRng::seed_from_u64(master)
}

/// Calls `SmallRng::from_seed`; the new generator's state is named by
/// `state_from_seed`.
#[verifier::external_body]
pub(crate) fn stream_from_seed(seed: [u8; 32]) -> (rng: SmallRng)
    ensures
        stream_state(rng) == state_from_seed(seed@),
{
    SmallRng::from_seed(seed)
}

/// Calls `Rng::gen` for a 32-byte array; the bytes and the generator's next
/// state are named by `seed_draw`.
#[verifier::external_body]
pub(crate) fn draw_seed(rng: &mut SmallRng) -> (seed: [u8; 32])
    ensures
        seed@ == seed_draw(stream_state(*old(rng))).0,
        stream_state(*final(rng)) == seed_draw(stream_state(*old(rng))).1,
{
    rng.gen()
}

/// Calls `Rng::gen_range` on `low..high`, which panics on an empty range. The
/// value and the generator's next state are named by `range_draw`; the value
/// lies in the range.
#[verifier::external_body]
pub(crate) fn draw_between(rng: &mut SmallRng, low: i64, high: i64) -> (value: i64)
    requires
        low < high,
    ensures
        value == range_draw(stream_state(*old(rng)), low, high).0,
        stream_state(*final(rng)) == range_draw(stream_state(*old(rng)), low, high).1,
        low <= value < high,
{
    rng.gen_range(low..high)
}

/// Calls `rand::random` for a `u64`. Nothing is known of the value.
#[verifier::external_body]
pub(crate) fn fresh_seed() -> (seed: u64) {
    rand::random()
}

/// Splits a private stream off a driver: draws one seed from the driver and
/// seeds a new generator with it.
pub fn fork(driver: &mut SmallRng) -> (rng: SmallRng)
    ensures
        stream_state(rng) == state_from_seed(seed_draw(stream_state(*old(driver))).0),
        stream_state(*final(driver)) == seed_draw(stream_state(*old(driver))).1,
{
    let seed = draw_seed(driver);
    stream_from_seed(seed)
}

/// Whether a ranged attribute can be produced from `min` and `max`.
pub fn can_range(min: i64, max: i64) -> (r: bool)
    ensures
        r == is_range(min, max),
{
    let gap: i128 = max as i128 - min as i128;
    -(EPSILON as i128) < gap
}

/// Produces a ranged attribute: the upper end if the range is fixed, without
/// touching the stream, and a draw from `min..max` otherwise.
pub fn draw_ranged(rng: &mut SmallRng, min: i64, max: i64) -> (value: i64)
    requires
        is_range(min, max),
    ensures
        value == ranged_draw(stream_state(*old(rng)), min, max).0,
        stream_state(*final(rng)) == ranged_draw(stream_state(*old(rng)), min, max).1,
        is_fixed(min, max) ==> value == max && stream_state(*final(rng)) == stream_state(*old(rng)),
        !is_fixed(min, max) ==> min <= value < max,
{
    let gap: i128 = max as i128 - min as i128;
    if -(EPSILON as i128) < gap && gap < EPSILON as i128 {
        max
    } else {
        draw_between(rng, min, max)
    }
}

} // verus!

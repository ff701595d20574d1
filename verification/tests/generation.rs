use rand::rngs::SmallRng;
use rand::Rng;
use rand::SeedableRng;
use sim::angle::{cos, sin, TAU};
use sim::args::Args;
use sim::critters::{Critter, SPEED_END, SPEED_START};
use sim::entity::{Bounds, Entity, EntityType, HUE_END, LIGHTNESS_END, LIGHTNESS_START};
use sim::fixed::{times, SCALE};
use sim::food::Food;
use sim::store::{EntityId, Store};
use sim::world::{start, StartError};

fn bounds() -> Bounds {
    Bounds::new(1280 * SCALE, 720 * SCALE).unwrap()
}

fn config(seed: u64, critters: u32, food: u32) -> Args {
    let mut args = Args::new(critters);
    args.raw_seed = Some(seed);
    args.food.count = food;
    args.settle_seed();
    args
}

fn all(store: &Store) -> Vec<Entity> {
    store.ids().into_iter().map(|id| store.get(id).unwrap()).collect()
}

#[test]
fn same_seed_gives_the_same_world() {
    let args = config(42, 20, 30);
    let first = start(&args, Some(bounds())).unwrap();
    let second = start(&args, Some(bounds())).unwrap();
    assert_eq!(first.len(), 50);
    assert_eq!(first, second);
    assert_eq!(all(&first), all(&second));
}

#[test]
fn other_seed_gives_another_world() {
    let first = start(&config(42, 20, 30), Some(bounds())).unwrap();
    let second = start(&config(43, 20, 30), Some(bounds())).unwrap();
    assert_ne!(first, second);
    for (a, b) in all(&first).into_iter().zip(all(&second)) {
        assert_ne!(a.position(), b.position());
    }
}

#[test]
fn critters_come_first_then_food() {
    let store = start(&config(7, 3, 2), Some(bounds())).unwrap();
    let kinds: Vec<EntityType> = all(&store).into_iter().map(|e| e.kind()).collect();
    assert_eq!(
        kinds,
        vec![
            EntityType::Critter,
            EntityType::Critter,
            EntityType::Critter,
            EntityType::Food,
            EntityType::Food
        ]
    );
    let ids: Vec<usize> = store.ids().into_iter().map(|id| id.index).collect();
    assert_eq!(ids, vec![0, 1, 2, 3, 4]);
}

#[test]
fn one_more_critter_changes_no_other_entity() {
    let fewer = start(&config(42, 5, 4), Some(bounds())).unwrap();
    let more = start(&config(42, 6, 4), Some(bounds())).unwrap();
    for i in 0..5 {
        assert_eq!(fewer.get(EntityId { index: i }), more.get(EntityId { index: i }));
    }
    for j in 0..4 {
        assert_eq!(fewer.get(EntityId { index: 5 + j }), more.get(EntityId { index: 6 + j }));
    }
}

#[test]
fn one_critter_less_changes_no_other_entity() {
    let more = start(&config(9, 5, 0), Some(bounds())).unwrap();
    let fewer = start(&config(9, 4, 0), Some(bounds())).unwrap();
    for i in 0..4 {
        assert_eq!(fewer.get(EntityId { index: i }), more.get(EntityId { index: i }));
    }
}

#[test]
fn food_count_changes_no_critter() {
    let some = start(&config(42, 5, 4), Some(bounds())).unwrap();
    let none = start(&config(42, 5, 0), Some(bounds())).unwrap();
    for i in 0..5 {
        assert_eq!(some.get(EntityId { index: i }), none.get(EntityId { index: i }));
    }
}

#[test]
fn fixed_health_range_gives_exactly_that_health() {
    let mut args = config(42, 25, 0);
    args.health.init_min = 500 * SCALE;
    args.health.init_max = 500 * SCALE;
    let store = start(&args, Some(bounds())).unwrap();
    assert_eq!(store.len(), 25);
    for entity in all(&store) {
        assert_eq!(entity.health(), 500 * SCALE);
    }
}

#[test]
fn nearly_equal_ends_give_the_upper_end() {
    let mut args = config(42, 10, 10);
    args.health.init_min = 500 * SCALE;
    args.health.init_max = 500 * SCALE + 9_999;
    args.food.init_min = 50 * SCALE + 9_999;
    args.food.init_max = 50 * SCALE;
    let store = start(&args, Some(bounds())).unwrap();
    for entity in all(&store) {
        match entity {
            Entity::Critter(critter) => assert_eq!(critter.health, 500 * SCALE + 9_999),
            Entity::Food(food) => assert_eq!(food.health, 50 * SCALE),
        }
    }
}

#[test]
fn fixed_health_draws_nothing_from_the_stream() {
    let mut args = config(42, 1, 0);
    args.health.init_min = 500 * SCALE;
    args.health.init_max = 500 * SCALE;
    let store = start(&args, Some(bounds())).unwrap();
    let critter = match store.get(EntityId { index: 0 }).unwrap() {
        Entity::Critter(critter) => critter,
        Entity::Food(_) => panic!("slot 0 holds food"),
    };

    let mut driver = SmallRng::seed_from_u64(42);
    let seed: [u8; 32] = driver.gen();
    let mut rng = SmallRng::from_seed(seed);
    let angle: i64 = rng.gen_range(0..TAU);
    let speed: i64 = rng.gen_range(SPEED_START..SPEED_END);
    let x: i64 = rng.gen_range(-320 * SCALE..320 * SCALE);
    let y: i64 = rng.gen_range(-180 * SCALE..180 * SCALE);
    let hue: i64 = rng.gen_range(0..HUE_END);
    let lightness: i64 = rng.gen_range(LIGHTNESS_START..LIGHTNESS_END);

    assert_eq!(critter.health, 500 * SCALE);
    assert_eq!(critter.velocity.x, times(cos(angle), speed));
    assert_eq!(critter.velocity.y, times(sin(angle), speed));
    assert_eq!(critter.position.x, x);
    assert_eq!(critter.position.y, y);
    assert_eq!(critter.tint.hue, hue);
    assert_eq!(critter.tint.lightness, lightness);
}

#[test]
fn ranged_health_is_the_first_draw() {
    let mut args = config(42, 3, 3);
    args.health.init_min = 100 * SCALE;
    args.health.init_max = 900 * SCALE;
    args.food.init_min = 10 * SCALE;
    args.food.init_max = 90 * SCALE;
    let store = start(&args, Some(bounds())).unwrap();

    let mut driver = SmallRng::seed_from_u64(42);
    for i in 0..3 {
        let seed: [u8; 32] = driver.gen();
        let mut rng = SmallRng::from_seed(seed);
        let health: i64 = rng.gen_range(100 * SCALE..900 * SCALE);
        assert_eq!(store.get(EntityId { index: i }).unwrap().health(), health);

        let mut rng = SmallRng::from_seed(seed);
        let worth: i64 = rng.gen_range(10 * SCALE..90 * SCALE);
        let x: i64 = rng.gen_range(-640 * SCALE..640 * SCALE);
        let y: i64 = rng.gen_range(-360 * SCALE..360 * SCALE);
        let hue: i64 = rng.gen_range(0..HUE_END);
        let lightness: i64 = rng.gen_range(LIGHTNESS_START..LIGHTNESS_END);
        let food = match store.get(EntityId { index: 3 + i }).unwrap() {
            Entity::Food(food) => food,
            Entity::Critter(_) => panic!("a critter among the food"),
        };
        assert_eq!(food.health, worth);
        assert_eq!(food.position.x, x);
        assert_eq!(food.position.y, y);
        assert_eq!(food.tint.hue, hue);
        assert_eq!(food.tint.lightness, lightness);
    }
}

#[test]
fn attributes_stay_in_their_ranges() {
    let mut args = config(2024, 200, 200);
    args.health.init_min = 100 * SCALE;
    args.health.init_max = 900 * SCALE;
    args.food.init_min = 10 * SCALE;
    args.food.init_max = 90 * SCALE;
    let world = bounds();
    let store = start(&args, Some(world)).unwrap();
    for entity in all(&store) {
        assert!(world.contains(entity.position()));
        let tint = entity.tint();
        assert!(0 <= tint.hue && tint.hue < HUE_END);
        assert!(LIGHTNESS_START <= tint.lightness && tint.lightness < LIGHTNESS_END);
        match entity {
            Entity::Critter(Critter { position, velocity, health, .. }) => {
                assert!(100 * SCALE <= health && health < 900 * SCALE);
                assert!(-320 * SCALE <= position.x && position.x < 320 * SCALE);
                assert!(-180 * SCALE <= position.y && position.y < 180 * SCALE);
                assert!(velocity.x.abs() < SPEED_END && velocity.y.abs() < SPEED_END);
                let speed = sim::fixed::magnitude(velocity.x, velocity.y) as i64;
                assert!(SPEED_START * 99 / 100 <= speed && speed <= SPEED_END * 101 / 100);
            }
            Entity::Food(Food { position, health, .. }) => {
                assert!(10 * SCALE <= health && health < 90 * SCALE);
                assert!(-640 * SCALE <= position.x && position.x < 640 * SCALE);
                assert!(-360 * SCALE <= position.y && position.y < 360 * SCALE);
                assert_eq!(entity.velocity(), sim::entity::Vector { x: 0, y: 0 });
            }
        }
    }
}

#[test]
fn entities_of_one_world_differ() {
    let store = start(&config(42, 50, 0), Some(bounds())).unwrap();
    let critters = all(&store);
    for i in 0..critters.len() {
        for j in 0..i {
            assert_ne!(critters[i], critters[j]);
        }
    }
}

#[test]
fn zero_counts_give_an_empty_world() {
    let store = start(&config(42, 0, 0), Some(bounds())).unwrap();
    assert_eq!(store.len(), 0);
    assert!(store.ids().is_empty());
}

#[test]
fn no_bounds_no_world() {
    assert_eq!(start(&config(42, 1, 1), None), Err(StartError::MissingBounds));
}

#[test]
fn tiny_bounds_no_world() {
    let tiny = Bounds { width: 3, height: 720 * SCALE };
    assert_eq!(start(&config(42, 1, 1), Some(tiny)), Err(StartError::DegenerateBounds));
    let flat = Bounds { width: 1280 * SCALE, height: 0 };
    assert_eq!(start(&config(42, 1, 1), Some(flat)), Err(StartError::DegenerateBounds));
    assert_eq!(Bounds::new(3, 4), None);
    assert_eq!(Bounds::new(4, 3), None);
    assert_eq!(Bounds::new(4, 4), Some(Bounds { width: 4, height: 4 }));
}

#[test]
fn smallest_world_can_be_filled() {
    let smallest = Bounds::new(4, 4).unwrap();
    let store = start(&config(42, 10, 10), Some(smallest)).unwrap();
    for entity in all(&store) {
        let at = entity.position();
        match entity {
            Entity::Critter(_) => assert!(-1 <= at.x && at.x < 1 && -1 <= at.y && at.y < 1),
            Entity::Food(_) => assert!(-2 <= at.x && at.x < 2 && -2 <= at.y && at.y < 2),
        }
    }
}

#[test]
fn startup_adds_to_what_is_there() {
    let args = config(42, 2, 3);
    let world = bounds();
    let mut store = Store::new();
    sim::food::startup(&mut store, &args, &world);
    assert_eq!(store.len(), 3);
    sim::critters::startup(&mut store, &args, &world);
    assert_eq!(store.len(), 5);
    let usual = start(&args, Some(world)).unwrap();
    assert_eq!(store.get(EntityId { index: 0 }), usual.get(EntityId { index: 2 }));
    assert_eq!(store.get(EntityId { index: 3 }), usual.get(EntityId { index: 0 }));
}

#[test]
fn forked_streams_repeat_for_one_seed() {
    let mut first = SmallRng::seed_from_u64(42);
    let mut second = SmallRng::seed_from_u64(42);
    let a = sim::stream::fork(&mut first);
    let b = sim::stream::fork(&mut second);
    assert_eq!(a, b);
    assert_ne!(a, first);
    let c = sim::stream::fork(&mut first);
    assert_ne!(a, c);
}

#[test]
fn ranged_draw_leaves_a_fixed_range_alone() {
    let mut rng = SmallRng::seed_from_u64(1);
    let untouched = rng.clone();
    assert_eq!(sim::stream::draw_ranged(&mut rng, 5, 5), 5);
    assert_eq!(sim::stream::draw_ranged(&mut rng, 5, 5 + 9_999), 5 + 9_999);
    assert_eq!(sim::stream::draw_ranged(&mut rng, 5 + 9_999, 5), 5);
    assert_eq!(rng, untouched);
    let drawn = sim::stream::draw_ranged(&mut rng, 5, 5 + 10_000);
    assert!(5 <= drawn && drawn < 5 + 10_000);
    assert_ne!(rng, untouched);
    assert_eq!(drawn, untouched.clone().gen_range(5i64..5 + 10_000));
}

#[test]
fn ranges_are_told_from_empty_ones() {
    assert!(sim::stream::can_range(0, 0));
    assert!(sim::stream::can_range(0, 1));
    assert!(sim::stream::can_range(9_999, 0));
    assert!(!sim::stream::can_range(10_000, 0));
    assert!(sim::stream::can_range(i64::MIN, i64::MAX));
    assert!(!sim::stream::can_range(i64::MAX, i64::MIN));
}

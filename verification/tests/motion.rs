use bird_sim::components::{Component, Components, Position, Size, Speed, Tag, Vec2};
use bird_sim::fixed::UNIT;
use bird_sim::motion::{
    bird_movement, bird_movement_input, damp, movement, GRAVITY, JUMP_SPEED,
};
use bird_sim::store::{EntityId, World};
use bird_sim::viewport::Viewport;

fn entity(world: &mut World, tag: Tag, position: (i64, i64), speed: (i64, i64)) -> EntityId {
    world.spawn(Components::full(
        tag,
        Position(Vec2 { x: position.0, y: position.1 }),
        Speed(Vec2 { x: speed.0, y: speed.1 }),
        Size::square(30 * UNIT),
    ))
}

fn position(world: &World, id: EntityId) -> (i64, i64) {
    let p = world.get(id).unwrap().position.unwrap();
    (p.0.x, p.0.y)
}

fn speed(world: &World, id: EntityId) -> (i64, i64) {
    let v = world.get(id).unwrap().speed.unwrap();
    (v.0.x, v.0.y)
}

#[test]
fn constants_have_their_values() {
    assert_eq!(JUMP_SPEED, -10 * UNIT);
    assert_eq!(GRAVITY, UNIT);
}

#[test]
fn movement_adds_speed_to_position() {
    let mut world = World::new();
    let wall = entity(&mut world, Tag::Wall, (250 * UNIT, -40 * UNIT), (-2 * UNIT, 0));
    let bird = entity(&mut world, Tag::Bird, (-200 * UNIT, 3), (7, -1_500_000));
    movement(&mut world);
    assert_eq!(position(&world, wall), (248 * UNIT, -40 * UNIT));
    assert_eq!(position(&world, bird), (-200 * UNIT + 7, -1_499_997));
    assert_eq!(speed(&world, wall), (-2 * UNIT, 0));
    assert_eq!(speed(&world, bird), (7, -1_500_000));
    movement(&mut world);
    assert_eq!(position(&world, wall), (246 * UNIT, -40 * UNIT));
}

#[test]
fn movement_leaves_tag_and_size_alone() {
    let mut world = World::new();
    let wall = entity(&mut world, Tag::Wall, (1, 2), (3, 4));
    movement(&mut world);
    let c = world.get(wall).unwrap();
    assert_eq!(c.tag, Some(Tag::Wall));
    assert_eq!(c.size, Some(Size::square(30 * UNIT)));
}

#[test]
fn movement_skips_what_lacks_position_or_speed() {
    let mut world = World::new();
    let only_position = world.spawn(
        Components::empty().with(Component::Position(Position(Vec2 { x: 5, y: 6 }))),
    );
    let only_speed =
        world.spawn(Components::empty().with(Component::Speed(Speed(Vec2 { x: 1, y: 1 }))));
    movement(&mut world);
    assert_eq!(position(&world, only_position), (5, 6));
    assert_eq!(speed(&world, only_speed), (1, 1));
    assert_eq!(world.get(only_speed).unwrap().position, None);
}

#[test]
fn movement_stops_at_the_ends_of_the_range() {
    let mut world = World::new();
    let a = entity(&mut world, Tag::Wall, (i64::MAX - 1, i64::MIN + 1), (5, -5));
    movement(&mut world);
    assert_eq!(position(&world, a), (i64::MAX, i64::MIN));
}

#[test]
fn movement_passes_over_vacant_slots() {
    let mut world = World::new();
    let a = entity(&mut world, Tag::Wall, (0, 0), (1, 1));
    let b = entity(&mut world, Tag::Wall, (10, 10), (1, 1));
    world.remove(a);
    movement(&mut world);
    assert!(!world.contains(a));
    assert_eq!(position(&world, b), (11, 11));
}

#[test]
fn jump_sets_the_vertical_speed() {
    let mut world = World::new();
    let bird = entity(&mut world, Tag::Bird, (0, 0), (3, 4 * UNIT));
    bird_movement_input(&mut world, true);
    assert_eq!(speed(&world, bird), (3, -10 * UNIT));
    bird_movement_input(&mut world, true);
    assert_eq!(speed(&world, bird), (3, -10 * UNIT));
    assert_eq!(position(&world, bird), (0, 0));
}

#[test]
fn gravity_adds_to_the_vertical_speed() {
    let mut world = World::new();
    let bird = entity(&mut world, Tag::Bird, (0, 0), (3, -10 * UNIT));
    bird_movement_input(&mut world, false);
    assert_eq!(speed(&world, bird), (3, -9 * UNIT));
    bird_movement_input(&mut world, false);
    assert_eq!(speed(&world, bird), (3, -8 * UNIT));
}

#[test]
fn gravity_stops_at_the_end_of_the_range() {
    let mut world = World::new();
    let bird = entity(&mut world, Tag::Bird, (0, 0), (0, i64::MAX - 5));
    bird_movement_input(&mut world, false);
    assert_eq!(speed(&world, bird), (0, i64::MAX));
}

#[test]
fn input_leaves_walls_alone() {
    let mut world = World::new();
    let wall = entity(&mut world, Tag::Wall, (0, 0), (-2 * UNIT, 0));
    bird_movement_input(&mut world, true);
    assert_eq!(speed(&world, wall), (-2 * UNIT, 0));
    bird_movement_input(&mut world, false);
    assert_eq!(speed(&world, wall), (-2 * UNIT, 0));
}

#[test]
fn input_without_a_bird_does_nothing() {
    let mut world = World::new();
    bird_movement_input(&mut world, true);
    assert_eq!(world.slot_count(), 0);
}

#[test]
fn damp_keeps_four_fifths_rounded_toward_zero() {
    assert_eq!(damp(UNIT), 800_000);
    assert_eq!(damp(-10 * UNIT), -8 * UNIT);
    assert_eq!(damp(0), 0);
    assert_eq!(damp(1), 0);
    assert_eq!(damp(-1), 0);
    assert_eq!(damp(3), 2);
    assert_eq!(damp(-3), -2);
    assert_eq!(damp(5), 4);
    assert_eq!(damp(-6), -4);
    assert_eq!(damp(i64::MAX), 7_378_697_629_483_820_645);
    assert_eq!(damp(i64::MIN), -7_378_697_629_483_820_646);
}

#[test]
fn clamp_holds_the_bird_inside_the_viewport() {
    let viewport = Viewport::new(500 * UNIT, 500 * UNIT).unwrap();
    let mut world = World::new();
    let bird = entity(&mut world, Tag::Bird, (0, 0), (0, 1000 * UNIT));
    movement(&mut world);
    assert_eq!(position(&world, bird), (0, 1000 * UNIT));
    bird_movement(&mut world, viewport);
    assert_eq!(position(&world, bird), (0, 250 * UNIT));
    assert_eq!(speed(&world, bird), (0, 800 * UNIT));
}

#[test]
fn clamp_holds_the_bird_below_the_top_edge() {
    let viewport = Viewport::new(500 * UNIT, 500 * UNIT).unwrap();
    let mut world = World::new();
    let bird = entity(&mut world, Tag::Bird, (-200 * UNIT, -250 * UNIT - 1), (0, -10 * UNIT));
    bird_movement(&mut world, viewport);
    assert_eq!(position(&world, bird), (-200 * UNIT, -250 * UNIT));
    assert_eq!(speed(&world, bird), (0, -8 * UNIT));
}

#[test]
fn clamp_leaves_a_bird_inside_where_it_is() {
    let viewport = Viewport::new(500 * UNIT, 500 * UNIT).unwrap();
    let mut world = World::new();
    let low = entity(&mut world, Tag::Bird, (1, 250 * UNIT), (2, 5));
    let high = entity(&mut world, Tag::Bird, (1, -250 * UNIT), (2, -5));
    let middle = entity(&mut world, Tag::Bird, (1, 17), (2, 0));
    bird_movement(&mut world, viewport);
    assert_eq!(position(&world, low), (1, 250 * UNIT));
    assert_eq!(position(&world, high), (1, -250 * UNIT));
    assert_eq!(position(&world, middle), (1, 17));
    assert_eq!(speed(&world, low), (2, 4));
    assert_eq!(speed(&world, high), (2, -4));
}

#[test]
fn clamp_rounds_half_an_odd_height_down() {
    let viewport = Viewport::new(10, 7).unwrap();
    let mut world = World::new();
    let low = entity(&mut world, Tag::Bird, (0, 4), (0, 0));
    let high = entity(&mut world, Tag::Bird, (0, -4), (0, 0));
    bird_movement(&mut world, viewport);
    assert_eq!(position(&world, low), (0, 3));
    assert_eq!(position(&world, high), (0, -3));
}

#[test]
fn clamp_in_an_empty_viewport_pins_the_bird_to_the_centre_line() {
    let viewport = Viewport::new(0, 0).unwrap();
    let mut world = World::new();
    let bird = entity(&mut world, Tag::Bird, (9, 500 * UNIT), (0, 0));
    bird_movement(&mut world, viewport);
    assert_eq!(position(&world, bird), (9, 0));
}

#[test]
fn clamp_leaves_walls_alone() {
    let viewport = Viewport::new(500 * UNIT, 500 * UNIT).unwrap();
    let mut world = World::new();
    let wall = entity(&mut world, Tag::Wall, (0, 900 * UNIT), (-2 * UNIT, 5 * UNIT));
    bird_movement(&mut world, viewport);
    assert_eq!(position(&world, wall), (0, 900 * UNIT));
    assert_eq!(speed(&world, wall), (-2 * UNIT, 5 * UNIT));
}

#[test]
fn clamp_skips_a_bird_without_speed() {
    let viewport = Viewport::new(500 * UNIT, 500 * UNIT).unwrap();
    let mut world = World::new();
    let bird = world.spawn(
        Components::empty()
            .with(Component::Tag(Tag::Bird))
            .with(Component::Position(Position(Vec2 { x: 0, y: 900 * UNIT }))),
    );
    bird_movement(&mut world, viewport);
    assert_eq!(position(&world, bird), (0, 900 * UNIT));
}

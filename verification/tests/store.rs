use bird_sim::components::{Component, Components, Position, Size, Speed, Tag, Vec2};
use bird_sim::store::{EntityId, World};

fn at(x: i64, y: i64) -> Position {
    Position(Vec2 { x, y })
}

#[test]
fn new_world_is_empty() {
    let world = World::new();
    assert_eq!(world.slot_count(), 0);
    assert_eq!(world.count(Tag::Bird), 0);
    assert_eq!(world.count(Tag::Wall), 0);
    assert_eq!(world.query(Tag::Wall), vec![]);
    assert_eq!(world.entity_at(0), None);
}

#[test]
fn create_gives_an_entity_without_components() {
    let mut world = World::new();
    let id = world.create();
    assert_eq!(id, EntityId { index: 0, generation: 0 });
    assert!(world.contains(id));
    assert_eq!(world.get(id), Some(Components::empty()));
    assert_eq!(world.entity_at(0), Some(id));
}

#[test]
fn attach_fills_one_component_at_a_time() {
    let mut world = World::new();
    let id = world.create();
    assert!(world.attach(id, Component::Tag(Tag::Wall)));
    assert!(world.attach(id, Component::Position(at(1, 2))));
    assert_eq!(
        world.get(id),
        Some(Components { tag: Some(Tag::Wall), position: Some(at(1, 2)), speed: None, size: None })
    );
    assert!(world.attach(id, Component::Speed(Speed(Vec2 { x: 3, y: 4 }))));
    assert!(world.attach(id, Component::Size(Size { width: 5, height: 6 })));
    assert!(world.attach(id, Component::Position(at(7, 8))));
    assert_eq!(
        world.get(id),
        Some(Components {
            tag: Some(Tag::Wall),
            position: Some(at(7, 8)),
            speed: Some(Speed(Vec2 { x: 3, y: 4 })),
            size: Some(Size { width: 5, height: 6 }),
        })
    );
}

#[test]
fn remove_is_idempotent() {
    let mut world = World::new();
    let a = world.create();
    let b = world.create();
    assert!(world.remove(a));
    assert!(!world.contains(a));
    assert_eq!(world.get(a), None);
    assert!(!world.remove(a));
    assert!(!world.remove(a));
    assert!(world.contains(b));
    assert_eq!(world.slot_count(), 2);
}

#[test]
fn a_removed_identifier_never_names_the_next_tenant() {
    let mut world = World::new();
    let first = world.spawn(Components::empty().with(Component::Tag(Tag::Wall)));
    assert!(world.remove(first));
    let second = world.spawn(Components::empty().with(Component::Tag(Tag::Bird)));
    assert_eq!(second.index, first.index);
    assert_eq!(second.generation, first.generation + 1);
    assert!(!world.contains(first));
    assert_eq!(world.get(first), None);
    assert!(!world.attach(first, Component::Tag(Tag::Wall)));
    assert!(!world.set(first, Components::empty()));
    assert!(!world.remove(first));
    assert_eq!(world.get(second).unwrap().tag, Some(Tag::Bird));
}

#[test]
fn spawn_takes_the_first_vacant_slot() {
    let mut world = World::new();
    let a = world.create();
    let b = world.create();
    let c = world.create();
    world.remove(b);
    world.remove(a);
    let d = world.create();
    assert_eq!(d, EntityId { index: 0, generation: 1 });
    let e = world.create();
    assert_eq!(e, EntityId { index: 1, generation: 1 });
    let f = world.create();
    assert_eq!(f, EntityId { index: 3, generation: 0 });
    assert!(world.contains(c));
}

#[test]
fn an_identifier_past_the_last_slot_is_not_live() {
    let mut world = World::new();
    world.create();
    let ghost = EntityId { index: 5, generation: 0 };
    assert!(!world.contains(ghost));
    assert_eq!(world.get(ghost), None);
    assert!(!world.remove(ghost));
    assert_eq!(world.entity_at(5), None);
}

#[test]
fn a_wrong_generation_is_not_live() {
    let mut world = World::new();
    let id = world.create();
    let forged = EntityId { index: id.index, generation: id.generation + 1 };
    assert!(!world.contains(forged));
    assert!(!world.remove(forged));
    assert!(world.contains(id));
}

#[test]
fn query_lists_the_tagged_entities_in_slot_order() {
    let mut world = World::new();
    let wall_a = world.spawn(Components::empty().with(Component::Tag(Tag::Wall)));
    let bird = world.spawn(Components::empty().with(Component::Tag(Tag::Bird)));
    let untagged = world.create();
    let wall_b = world.spawn(Components::empty().with(Component::Tag(Tag::Wall)));
    assert_eq!(world.query(Tag::Wall), vec![wall_a, wall_b]);
    assert_eq!(world.query(Tag::Bird), vec![bird]);
    assert_eq!(world.count(Tag::Wall), 2);
    assert_eq!(world.count(Tag::Bird), 1);
    world.remove(wall_a);
    assert_eq!(world.query(Tag::Wall), vec![wall_b]);
    assert!(world.contains(untagged));
}

#[test]
fn set_replaces_the_whole_bundle() {
    let mut world = World::new();
    let id = world.spawn(Components::full(
        Tag::Wall,
        at(1, 1),
        Speed(Vec2 { x: 0, y: 0 }),
        Size::square(4),
    ));
    assert!(world.set(id, Components::empty().with(Component::Tag(Tag::Bird))));
    assert_eq!(
        world.get(id),
        Some(Components { tag: Some(Tag::Bird), position: None, speed: None, size: None })
    );
}

#[test]
fn has_tag_tells_the_tags_apart() {
    let bird = Components::empty().with(Component::Tag(Tag::Bird));
    assert!(bird.has_tag(Tag::Bird));
    assert!(!bird.has_tag(Tag::Wall));
    assert!(!Components::empty().has_tag(Tag::Bird));
    assert!(!Components::empty().has_tag(Tag::Wall));
}

use engine2d::components::Collider;
use engine2d::components::Component;
use engine2d::components::EcsError;
use engine2d::components::EntityId;
use engine2d::components::RigidBody;
use engine2d::components::Sprite;
use engine2d::components::Transform;
use engine2d::ecs::EcsWorld;
use engine2d::math::from_units;
use engine2d::math::Vec2;
use engine2d::math::UNIT;

fn sprite(name: &str, size: i32) -> Sprite {
    Sprite { texture_name: name.to_string(), width: from_units(size), height: from_units(size) }
}

#[test]
fn new_world_is_empty() {
    let world = EcsWorld::new();
    assert_eq!(world.len(), 0);
    assert!(world.get_renderables().is_empty());
    assert!(world.detect_collisions().is_empty());
    assert!(world.can_update());
}

#[test]
fn create_entity_gives_fresh_identifiers() {
    let mut world = EcsWorld::new();
    let a = world.create_entity();
    let b = world.create_entity();
    let c = world.create_entity();
    assert_ne!(a, b);
    assert_ne!(a, c);
    assert_ne!(b, c);
    assert_eq!(world.len(), 3);
    assert!(world.contains(a) && world.contains(b) && world.contains(c));
    let held = world.components(a).unwrap();
    assert_eq!(held.transform, None);
    assert_eq!(held.sprite, None);
    assert_eq!(held.rigid_body, None);
    assert_eq!(held.collider, None);
}

#[test]
fn create_sprite_entity_attaches_transform_and_sprite() {
    let mut world = EcsWorld::new();
    let e = world.create_sprite_entity("player", Vec2::from_units(400, 300), from_units(100), from_units(50));
    let held = world.components(e).unwrap();
    assert_eq!(
        held.transform,
        Some(Transform {
            position: Vec2 { x: 400 * UNIT, y: 300 * UNIT },
            rotation: 0,
            scale: Vec2 { x: UNIT, y: UNIT },
        })
    );
    assert_eq!(
        held.sprite,
        Some(Sprite { texture_name: "player".to_string(), width: 100 * UNIT, height: 50 * UNIT })
    );
    assert_eq!(held.rigid_body, None);
    assert_eq!(held.collider, None);
    assert_eq!(world.len(), 1);
}

#[test]
fn unknown_entity_is_reported() {
    let mut world = EcsWorld::new();
    let stranger = EntityId { bits: (7u64 << 32) | 3 };
    let zero = EntityId { bits: 0 };
    assert!(!world.contains(stranger));
    assert!(!world.contains(zero));
    assert!(world.components(stranger).is_none());
    assert_eq!(world.add_rigid_body(stranger, Vec2::zero(), UNIT), Err(EcsError::UnknownEntity));
    assert_eq!(world.add_collider(zero, UNIT, UNIT, false), Err(EcsError::UnknownEntity));
    assert_eq!(
        world.attach(stranger, Component::Transform(Transform::at(Vec2::zero()))),
        Err(EcsError::UnknownEntity)
    );
    assert_eq!(world.len(), 0);
}

#[test]
fn identifier_of_another_world_is_unknown_in_an_empty_one() {
    let mut first = EcsWorld::new();
    let e = first.create_entity();
    let mut second = EcsWorld::new();
    assert!(!second.contains(e));
    assert_eq!(second.add_collider(e, UNIT, UNIT, true), Err(EcsError::UnknownEntity));
}

#[test]
fn second_attach_of_a_kind_is_a_duplicate() {
    let mut world = EcsWorld::new();
    let e = world.create_sprite_entity("player", Vec2::from_units(1, 2), from_units(10), from_units(10));
    assert_eq!(world.add_rigid_body(e, Vec2::from_units(1, 0), UNIT), Ok(()));
    assert_eq!(
        world.add_rigid_body(e, Vec2::from_units(9, 9), 5 * UNIT),
        Err(EcsError::DuplicateComponent)
    );
    let held = world.components(e).unwrap();
    assert_eq!(
        held.rigid_body,
        Some(RigidBody { velocity: Vec2 { x: UNIT, y: 0 }, acceleration: Vec2 { x: 0, y: 0 }, mass: UNIT })
    );

    assert_eq!(world.add_collider(e, from_units(3), from_units(4), true), Ok(()));
    assert_eq!(world.add_collider(e, from_units(8), from_units(8), false), Err(EcsError::DuplicateComponent));
    let held = world.components(e).unwrap();
    assert_eq!(held.collider, Some(Collider { width: 3 * UNIT, height: 4 * UNIT, is_trigger: true }));

    assert_eq!(
        world.attach(e, Component::Transform(Transform::at(Vec2::from_units(50, 50)))),
        Err(EcsError::DuplicateComponent)
    );
    assert_eq!(world.attach(e, Component::Sprite(sprite("other", 1))), Err(EcsError::DuplicateComponent));
    let held = world.components(e).unwrap();
    assert_eq!(held.transform, Some(Transform::at(Vec2::from_units(1, 2))));
    assert_eq!(held.sprite, Some(sprite("player", 10)));
}

#[test]
fn failed_attach_does_not_stop_the_rest() {
    let mut world = EcsWorld::new();
    let a = world.create_sprite_entity("a", Vec2::from_units(0, 0), from_units(1), from_units(1));
    let b = world.create_sprite_entity("b", Vec2::from_units(5, 5), from_units(1), from_units(1));
    assert!(world.add_collider(a, UNIT, UNIT, false).is_ok());
    assert!(world.add_collider(a, UNIT, UNIT, false).is_err());
    assert!(world.add_collider(b, UNIT, UNIT, false).is_ok());
    assert!(world.components(b).unwrap().collider.is_some());
    assert_eq!(world.len(), 2);
}

#[test]
fn attach_stores_each_kind() {
    let mut world = EcsWorld::new();
    let e = world.create_entity();
    let t = Transform { position: Vec2::from_units(3, 4), rotation: 7, scale: Vec2::from_units(2, 2) };
    let b = RigidBody { velocity: Vec2::new(1, 2), acceleration: Vec2::new(3, 4), mass: 5 };
    let c = Collider { width: 6, height: 7, is_trigger: true };
    assert_eq!(world.attach(e, Component::Collider(c)), Ok(()));
    assert_eq!(world.attach(e, Component::RigidBody(b)), Ok(()));
    assert_eq!(world.attach(e, Component::Sprite(sprite("s", 9))), Ok(()));
    assert_eq!(world.attach(e, Component::Transform(t)), Ok(()));
    let held = world.components(e).unwrap();
    assert_eq!(held.transform, Some(t));
    assert_eq!(held.sprite, Some(sprite("s", 9)));
    assert_eq!(held.rigid_body, Some(b));
    assert_eq!(held.collider, Some(c));
}

#[test]
fn render_query_returns_exactly_entities_with_transform_and_sprite() {
    let mut world = EcsWorld::new();
    let both_first = world.create_entity();
    world.attach(both_first, Component::Transform(Transform::at(Vec2::from_units(1, 1)))).unwrap();
    world.attach(both_first, Component::Sprite(sprite("one", 1))).unwrap();
    let both_second = world.create_entity();
    world.attach(both_second, Component::Sprite(sprite("two", 2))).unwrap();
    world.attach(both_second, Component::Transform(Transform::at(Vec2::from_units(2, 2)))).unwrap();
    let only_transform = world.create_entity();
    world.attach(only_transform, Component::Transform(Transform::at(Vec2::from_units(3, 3)))).unwrap();
    let only_sprite = world.create_entity();
    world.attach(only_sprite, Component::Sprite(sprite("four", 4))).unwrap();
    let neither = world.create_entity();
    let made = world.create_sprite_entity("five", Vec2::from_units(5, 5), from_units(5), from_units(5));
    world.add_collider(made, UNIT, UNIT, false).unwrap();

    let found = world.get_renderables();
    assert_eq!(found.len(), 3);
    let mut ids: Vec<u64> = found.iter().map(|entry| entry.0.bits).collect();
    ids.sort();
    let mut expected = vec![both_first.bits, both_second.bits, made.bits];
    expected.sort();
    assert_eq!(ids, expected);
    assert!(!ids.contains(&only_transform.bits));
    assert!(!ids.contains(&only_sprite.bits));
    assert!(!ids.contains(&neither.bits));
    for (id, transform, sprite) in found.iter() {
        let held = world.components(*id).unwrap();
        assert_eq!(held.transform, Some(*transform));
        assert_eq!(held.sprite, Some(sprite.clone()));
    }
    let two = found.iter().find(|entry| entry.0 == both_second).unwrap();
    assert_eq!(two.1.position, Vec2::from_units(2, 2));
    assert_eq!(two.2.texture_name, "two");
}

#[test]
fn render_query_is_stable_between_calls() {
    let mut world = EcsWorld::new();
    for i in 0..10 {
        let e = world.create_sprite_entity("x", Vec2::from_units(i, i), from_units(1), from_units(1));
        if i % 3 == 0 {
            world.add_collider(e, UNIT, UNIT, false).unwrap();
        }
    }
    let first = world.get_renderables();
    let second = world.get_renderables();
    assert_eq!(first, second);
    assert_eq!(first.len(), 10);
}

#[test]
fn render_snapshot_outlives_later_changes() {
    let mut world = EcsWorld::new();
    let e = world.create_sprite_entity("x", Vec2::from_units(1, 1), from_units(1), from_units(1));
    world.add_rigid_body(e, Vec2::from_units(1, 0), UNIT).unwrap();
    let snapshot = world.get_renderables();
    world.update();
    assert_eq!(snapshot[0].1.position, Vec2::from_units(1, 1));
    assert_eq!(world.get_renderables()[0].1.position, Vec2::from_units(2, 1));
}

#[test]
fn destroyed_entity_is_unknown_and_others_stay() {
    let mut world = EcsWorld::new();
    let a = world.create_sprite_entity("a", Vec2::from_units(1, 1), from_units(1), from_units(1));
    let b = world.create_sprite_entity("b", Vec2::from_units(2, 2), from_units(2), from_units(2));
    let c = world.create_sprite_entity("c", Vec2::from_units(3, 3), from_units(3), from_units(3));
    world.add_collider(b, UNIT, UNIT, false).unwrap();
    let b_before = world.components(b).unwrap();
    let c_before = world.components(c).unwrap();
    assert_eq!(world.destroy_entity(a), Ok(()));
    assert_eq!(world.len(), 2);
    assert!(!world.contains(a));
    assert!(world.components(a).is_none());
    assert_eq!(world.components(b).unwrap(), b_before);
    assert_eq!(world.components(c).unwrap(), c_before);
    assert_eq!(world.destroy_entity(a), Err(EcsError::UnknownEntity));
    assert_eq!(world.add_collider(a, UNIT, UNIT, false), Err(EcsError::UnknownEntity));
    assert_eq!(world.add_rigid_body(a, Vec2::zero(), UNIT), Err(EcsError::UnknownEntity));
    let found = world.get_renderables();
    assert_eq!(found.len(), 2);
    assert!(found.iter().all(|entry| entry.0 != a));
}

#[test]
fn identifier_of_a_destroyed_entity_is_not_given_to_the_next() {
    let mut world = EcsWorld::new();
    let a = world.create_entity();
    world.destroy_entity(a).unwrap();
    let b = world.create_entity();
    assert_ne!(a, b);
    assert!(!world.contains(a));
    assert!(world.contains(b));
    assert_eq!(world.destroy_entity(EntityId { bits: 0 }), Err(EcsError::UnknownEntity));
    assert_eq!(world.len(), 1);
}

#[test]
fn destroyed_entities_are_counted() {
    let mut world = EcsWorld::new();
    assert_eq!(world.destroyed_count(), 0);
    assert!(world.can_give_new_ids());
    let a = world.create_entity();
    let b = world.create_entity();
    assert_eq!(world.destroyed_count(), 0);
    assert_eq!(world.destroy_entity(a), Ok(()));
    assert_eq!(world.destroyed_count(), 1);
    assert_eq!(world.destroy_entity(a), Err(EcsError::UnknownEntity));
    assert_eq!(world.destroyed_count(), 1);
    assert_eq!(world.destroy_entity(b), Ok(()));
    assert_eq!(world.destroyed_count(), 2);
    world.create_entity();
    assert_eq!(world.destroyed_count(), 2);
    assert!(world.can_give_new_ids());
}

#[test]
fn identifiers_are_never_handed_out_twice() {
    let mut world = EcsWorld::new();
    let mut seen: Vec<EntityId> = Vec::new();
    for round in 0..50 {
        let a = world.create_entity();
        let b = world.create_sprite_entity("x", Vec2::from_units(round, 0), from_units(1), from_units(1));
        assert!(!seen.contains(&a));
        seen.push(a);
        assert!(!seen.contains(&b));
        seen.push(b);
        if round % 2 == 0 {
            world.destroy_entity(a).unwrap();
        } else {
            world.destroy_entity(b).unwrap();
        }
    }
    assert_eq!(world.len(), 50);
    assert_eq!(world.destroyed_count(), 50);
    for id in seen.iter() {
        assert_eq!(world.contains(*id), world.components(*id).is_some());
    }
}

#[test]
fn transforms_are_handed_out_for_every_placed_entity() {
    let mut world = EcsWorld::new();
    let with_sprite = world.create_sprite_entity("s", Vec2::from_units(1, 2), from_units(1), from_units(1));
    let bare = world.create_entity();
    let placed = world.create_entity();
    let t = Transform { position: Vec2::new(7, 8), rotation: 9, scale: Vec2::new(1, 1) };
    world.attach(placed, Component::Transform(t)).unwrap();
    let boxed = world.create_entity();
    world.attach(boxed, Component::Collider(Collider { width: 1, height: 1, is_trigger: false })).unwrap();
    let found = world.get_transforms();
    assert_eq!(found.len(), 2);
    assert!(found.contains(&(with_sprite, Transform::at(Vec2::from_units(1, 2)))));
    assert!(found.contains(&(placed, t)));
    assert!(found.iter().all(|entry| entry.0 != bare && entry.0 != boxed));
    assert_eq!(found, world.get_transforms());
    assert!(EcsWorld::new().get_transforms().is_empty());
}

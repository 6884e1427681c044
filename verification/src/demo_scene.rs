//! The scene that the engine starts with: one player and a row of five
//! enemies.

use crate::components::Collider;
use crate::components::EntityId;
use crate::components::RigidBody;
use crate::components::Slot;
use crate::components::SpriteView;
use crate::components::Transform;
use crate::ecs::EcsWorld;
use crate::math::Vec2;
use crate::math::from_half_units;
use crate::math::from_units;
use crate::math::half_units;
use crate::math::units;
use vstd::prelude::*;

verus! {

/// The number of entities of the scene.
pub const SCENE_SIZE: u32 = 6;

/// What the player carries: a sprite of 100 by 100 units at (400, 300), a
/// velocity of one unit a step to the right, and a box of the sprite's size.
pub open spec fn player_slot() -> Slot {
    Slot {
        transform: Some(Transform::placed_at(Vec2 { x: units(400), y: units(300) })),
        sprite: Some(SpriteView { texture_name: "player"@, width: units(100), height: units(100) }),
        rigid_body: Some(
            RigidBody {
                velocity: Vec2 { x: units(1), y: 0 },
                acceleration: Vec2 { x: 0, y: 0 },
                mass: units(1),
            },
        ),
        collider: Some(Collider { width: units(100), height: units(100), is_trigger: false }),
    }
}

/// What enemy `k` of the row carries, for `k` from 0 to 4: a sprite of 80 by
/// 80 units at (-300 + 150 k, 200), a velocity of half a unit a step
/// downwards, and a box of the sprite's size.
pub open spec fn enemy_slot(k: int) -> Slot {
    Slot {
        transform: Some(Transform::placed_at(Vec2 { x: units(-300 + 150 * k), y: units(200) })),
        sprite: Some(SpriteView { texture_name: "enemy"@, width: units(80), height: units(80) }),
        rigid_body: Some(
            RigidBody {
                velocity: Vec2 { x: 0, y: half_units(-1) },
                acceleration: Vec2 { x: 0, y: 0 },
                mass: units(1),
            },
        ),
        collider: Some(Collider { width: units(80), height: units(80), is_trigger: false }),
    }
}

/// What entity `k` of the scene carries: the player first, then the enemies
/// from left to right.
pub open spec fn scene_slot(k: int) -> Slot {
    if k == 0 {
        player_slot()
    } else {
        enemy_slot(k - 1)
    }
}

/// Whether `after` is `before` with the first `n` entities of the scene
/// added under the identifiers `ids`, all of them new and different.
pub open spec fn scene_added(
    before: Map<EntityId, Slot>,
    after: Map<EntityId, Slot>,
    ids: Seq<EntityId>,
    n: int,
) -> bool {
    &&& ids.len() == n
    &&& ids.no_duplicates()
    &&& forall|k: int| 0 <= k < n ==> !before.contains_key(#[trigger] ids[k])
    &&& forall|e: EntityId|
        #![trigger after.dom().contains(e)]
        #![trigger before.dom().contains(e)]
        #![trigger ids.contains(e)]
        after.dom().contains(e) <==> before.dom().contains(e) || ids.contains(e)
    &&& forall|e: EntityId|
        #![trigger after[e]]
        #![trigger before.dom().contains(e)]
        before.dom().contains(e) ==> after[e] == before[e]
    &&& forall|k: int| 0 <= k < n ==> after[#[trigger] ids[k]] == scene_slot(k)
}

/// Whether `after` holds the identifiers of `before` and `ids` and no
/// other, and, where `new` is set, none of `ids` is in `before`.
pub open spec fn scene_issued(
    before: Set<EntityId>,
    after: Set<EntityId>,
    ids: Seq<EntityId>,
    new: bool,
) -> bool {
    &&& forall|e: EntityId|
        #![trigger after.contains(e)]
        #![trigger before.contains(e)]
        #![trigger ids.contains(e)]
        after.contains(e) <==> before.contains(e) || ids.contains(e)
    &&& new ==> forall|k: int| 0 <= k < ids.len() ==> !before.contains(#[trigger] ids[k])
}

/// Adds the scene to `world`: six new entities, and nothing else changes.
/// Their identifiers were never handed out before, as far as the world can
/// still give such identifiers.
pub fn load_demo_scene(world: &mut EcsWorld)
    requires
        old(world).wf(),
        old(world)@.len() + SCENE_SIZE <= u32::MAX,
    ensures
        final(world).wf(),
        final(world).destroyed() == old(world).destroyed(),
        exists|ids: Seq<EntityId>|
            scene_added(old(world)@, final(world)@, ids, SCENE_SIZE as int) && scene_issued(
                old(world).issued(),
                final(world).issued(),
                ids,
                old(world).gives_new_ids(),
            ),
{
    let ghost before = world@;
    let ghost handed = world.issued();
    let ghost new = world.gives_new_ids();
    proof {
        world.lemma_wf();
    }
    let player = world.create_sprite_entity(
        "player",
        Vec2::from_units(400, 300),
        from_units(100),
        from_units(100),
    );
    let moving = world.add_rigid_body(player, Vec2::from_units(1, 0), from_units(1));
    let boxed = world.add_collider(player, from_units(100), from_units(100), false);
    assert(moving is Ok && boxed is Ok);
    let ghost mut ids: Seq<EntityId> = seq![player];
    proof {
        assert(ids[0] == player);
    }
    let mut i: i32 = 0;
    while i < 5
        invariant
            0 <= i <= 5,
            world.wf(),
            before.dom().finite(),
            before.len() + SCENE_SIZE <= u32::MAX,
            world@.len() == before.len() + 1 + i,
            world.destroyed() == old(world).destroyed(),
            new == old(world).gives_new_ids(),
            scene_added(before, world@, ids, 1 + i),
            scene_issued(handed, world.issued(), ids, new),
        decreases 5 - i,
    {
        let ghost was = world@;
        proof {
            world.lemma_wf();
        }
        let enemy = world.create_sprite_entity(
            "enemy",
            Vec2::from_units(-300 + i * 150, 200),
            from_units(80),
            from_units(80),
        );
        let moving = world.add_rigid_body(
            enemy,
            Vec2::new(0, from_half_units(-1)),
            from_units(1),
        );
        let boxed = world.add_collider(enemy, from_units(80), from_units(80), false);
        assert(moving is Ok && boxed is Ok);
        proof {
            let grown = ids.push(enemy);
            assert forall|e: EntityId| world@.contains_key(e) <==> before.contains_key(e)
                || grown.contains(e) by {
                if ids.contains(e) {
                    let k = choose|k: int| 0 <= k < ids.len() && ids[k] == e;
                    assert(grown[k] == e);
                }
                if e == enemy {
                    assert(grown[ids.len() as int] == e);
                }
            }
            assert(grown.no_duplicates());
            ids = grown;
        }
        i += 1;
    }
}

} // verus!

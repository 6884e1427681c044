//! The entity-component world and the systems that run on it.

use crate::collision::colliding_pairs;
use crate::collision::find_collisions;
use crate::components::Collider;
use crate::components::Component;
use crate::components::Components;
use crate::components::EcsError;
use crate::components::EntityId;
use crate::components::RigidBody;
use crate::components::Slot;
use crate::components::Sprite;
use crate::components::SpriteView;
use crate::components::Transform;
use crate::math::Vec2;
use crate::query::is_moving;
use crate::query::lemma_ids_with;
use crate::query::lists;
use crate::query::moving_ids;
use crate::query::placed_ids;
use crate::query::renderable_ids;
use crate::query::solid_ids;
use crate::store::world_contains;
use crate::store::world_contents;
use crate::store::world_despawns;
use crate::store::world_despawn;
use crate::store::world_get;
use crate::store::world_issued;
use crate::store::world_len;
use crate::store::world_new;
use crate::store::world_order;
use crate::store::world_put;
use crate::store::world_query;
use crate::store::world_spawn;
use vstd::prelude::*;

verus! {

/// Where `t` is after one step at velocity `v`. A component that leaves the
/// range of `i64` is meaningless here: `fits_step` excludes it.
pub open spec fn advance(t: Transform, v: Vec2) -> Transform {
    Transform {
        position: Vec2 { x: (t.position.x + v.x) as i64, y: (t.position.y + v.y) as i64 },
        rotation: t.rotation,
        scale: t.scale,
    }
}

/// What an entity carries after one motion pass: one that has a transform
/// and a rigid body is moved by its velocity, any other is left as it is.
pub open spec fn stepped(slot: Slot) -> Slot {
    if is_moving(slot) {
        slot.with_transform(advance(slot.transform->0, slot.rigid_body->0.velocity))
    } else {
        slot
    }
}

/// Whether the motion pass can move what `slot` describes without leaving
/// the range of `i64`.
pub open spec fn fits_step(slot: Slot) -> bool {
    is_moving(slot) ==> slot.transform->0.position.can_add(slot.rigid_body->0.velocity)
}

/// What one step of the simulation hands to the outside: the collisions it
/// found and a snapshot of what is to be drawn.
#[derive(Debug)]
pub struct Frame {
    pub collisions: Vec<(EntityId, EntityId)>,
    pub renderables: Vec<(EntityId, Transform, Sprite)>,
}

/// A world of entities. Its value is a finite map from the identifiers of
/// its live entities to what each carries.
pub struct EcsWorld {
    world: hecs::World,
    destroyed: u64,
}

impl View for EcsWorld {
    type V = Map<EntityId, Slot>;

    closed spec fn view(&self) -> Map<EntityId, Slot> {
        world_contents(self.world)
    }
}

impl EcsWorld {
    /// The invariant of a world: it has finitely many entities, and its
    /// order lists each of them once and nothing else.
    pub closed spec fn wf(&self) -> bool {
        &&& world_contents(self.world).dom().finite()
        &&& lists(world_order(self.world), world_contents(self.world))
        &&& world_contents(self.world).dom().subset_of(world_issued(self.world))
        &&& self.destroyed == if world_despawns(self.world) < u64::MAX {
            world_despawns(self.world)
        } else {
            u64::MAX as nat
        }
    }

    /// What the invariant says, over the view, the order and the
    /// identifiers handed out.
    pub proof fn lemma_wf(&self)
        requires
            self.wf(),
        ensures
            self@.dom().finite(),
            self.order().no_duplicates(),
            forall|e: EntityId| self.order().contains(e) <==> self@.contains_key(e),
            self@.dom().subset_of(self.issued()),
    {
    }

    /// The identifiers that this world has handed out so far: those of its
    /// live entities and those of the entities that were destroyed.
    pub closed spec fn issued(&self) -> Set<EntityId> {
        world_issued(self.world)
    }

    /// The number of entities that were destroyed in this world so far.
    pub closed spec fn destroyed(&self) -> nat {
        world_despawns(self.world)
    }

    /// Whether the next identifier is sure to be one that was never handed
    /// out before. An identifier can come back only after more entities
    /// were destroyed than a `u32` counts.
    pub open spec fn gives_new_ids(&self) -> bool {
        self.destroyed() < u32::MAX
    }

    /// The live entities in the order in which queries visit them. It stays
    /// as it is until an entity is created or removed or a component is
    /// attached.
    pub closed spec fn order(&self) -> Seq<EntityId> {
        world_order(self.world)
    }

    /// A world without entities.
    pub fn new() -> (w: EcsWorld)
        ensures
            w.wf(),
            w@ == Map::<EntityId, Slot>::empty(),
            w.order() == Seq::<EntityId>::empty(),
            w.issued() == Set::<EntityId>::empty(),
            w.destroyed() == 0,
    {
        let world = world_new();
        EcsWorld { world, destroyed: 0 }
    }

    /// The number of entities that were destroyed so far, as far as a `u64`
    /// counts.
    pub fn destroyed_count(&self) -> (n: u64)
        requires
            self.wf(),
        ensures
            n == if self.destroyed() < u64::MAX {
                self.destroyed()
            } else {
                u64::MAX as nat
            },
    {
        self.destroyed
    }

    /// Decides `gives_new_ids`.
    pub fn can_give_new_ids(&self) -> (b: bool)
        requires
            self.wf(),
        ensures
            b == self.gives_new_ids(),
    {
        self.destroyed < 0xffff_ffff
    }

    /// The number of live entities.
    pub fn len(&self) -> (n: u32)
        ensures
            n == self@.len(),
    {
        world_len(&self.world)
    }

    /// What `entity` carries, or `None` if no live entity has that
    /// identifier.
    pub fn components(&self, entity: EntityId) -> (found: Option<Components>)
        ensures
            found.is_some() == self@.contains_key(entity),
            found.is_some() ==> found.unwrap()@ == self@[entity],
    {
        if !world_contains(&self.world, entity) {
            return None;
        }
        let held = Components {
            transform: world_get::<Transform>(&self.world, entity),
            sprite: world_get::<Sprite>(&self.world, entity),
            rigid_body: world_get::<RigidBody>(&self.world, entity),
            collider: world_get::<Collider>(&self.world, entity),
        };
        Some(held)
    }

    /// Whether `entity` is a live entity of this world.
    pub fn contains(&self, entity: EntityId) -> (b: bool)
        ensures
            b == self@.contains_key(entity),
    {
        world_contains(&self.world, entity)
    }

    /// Creates an entity without components.
    pub fn create_entity(&mut self) -> (id: EntityId)
        requires
            old(self).wf(),
            old(self)@.len() < u32::MAX,
        ensures
            final(self).wf(),
            !old(self)@.contains_key(id),
            old(self).gives_new_ids() ==> !old(self).issued().contains(id),
            final(self)@ == old(self)@.insert(id, Slot::empty()),
            final(self).issued() == old(self).issued().insert(id),
            final(self).destroyed() == old(self).destroyed(),
    {
        world_spawn(&mut self.world)
    }

    /// Creates an entity at `position`, not turned and not scaled, that is
    /// drawn with the named texture on a quad of the given extents.
    pub fn create_sprite_entity(
        &mut self,
        texture_name: &str,
        position: Vec2,
        width: i64,
        height: i64,
    ) -> (id: EntityId)
        requires
            old(self).wf(),
            old(self)@.len() < u32::MAX,
        ensures
            final(self).wf(),
            !old(self)@.contains_key(id),
            old(self).gives_new_ids() ==> !old(self).issued().contains(id),
            final(self)@ == old(self)@.insert(
                id,
                Slot::empty().with_transform(Transform::placed_at(position)).with_sprite(
                    SpriteView { texture_name: texture_name@, width, height },
                ),
            ),
            final(self).issued() == old(self).issued().insert(id),
            final(self).destroyed() == old(self).destroyed(),
    {
        let sprite = Sprite { texture_name: texture_name.to_owned(), width, height };
        let id = world_spawn(&mut self.world);
        world_put(&mut self.world, id, Transform::at(position));
        world_put(&mut self.world, id, sprite);
        id
    }

    /// Removes `entity` and all it carries. The other entities keep their
    /// identifiers and their components.
    pub fn destroy_entity(&mut self, entity: EntityId) -> (r: Result<(), EcsError>)
        requires
            old(self).wf(),
        ensures
            final(self).wf(),
            r is Ok <==> old(self)@.contains_key(entity),
            r is Ok ==> final(self)@ == old(self)@.remove(entity) && final(self).destroyed() == old(
                self,
            ).destroyed() + 1,
            r is Err ==> r == Err::<(), EcsError>(EcsError::UnknownEntity) && final(self)@ == old(
                self,
            )@ && final(self).order() == old(self).order() && final(self).destroyed() == old(
                self,
            ).destroyed(),
            final(self).issued() == old(self).issued(),
    {
        if world_despawn(&mut self.world, entity) {
            if self.destroyed < u64::MAX {
                self.destroyed = self.destroyed + 1;
            }
            Ok(())
        } else {
            Err(EcsError::UnknownEntity)
        }
    }

    /// Attaches `component` to `entity`. An entity carries at most one
    /// component of each kind: a second one is refused, and so is an
    /// identifier that no live entity has. A refused call changes nothing.
    pub fn attach(&mut self, entity: EntityId, component: Component) -> (r: Result<(), EcsError>)
        requires
            old(self).wf(),
        ensures
            final(self).wf(),
            r is Ok <==> old(self)@.contains_key(entity) && !old(self)@[entity].has_kind_of(
                component@,
            ),
            r is Ok ==> final(self)@ == old(self)@.insert(
                entity,
                old(self)@[entity].with(component@),
            ),
            r is Err ==> final(self)@ == old(self)@ && final(self).order() == old(self).order(),
            final(self).issued() == old(self).issued(),
            final(self).destroyed() == old(self).destroyed(),
            r == Err::<(), EcsError>(EcsError::UnknownEntity) <==> !old(self)@.contains_key(entity),
            r == Err::<(), EcsError>(EcsError::DuplicateComponent) <==> old(self)@.contains_key(
                entity,
            ) && old(self)@[entity].has_kind_of(component@),
    {
        if !world_contains(&self.world, entity) {
            return Err(EcsError::UnknownEntity);
        }
        match component {
            Component::Transform(t) => {
                if world_get::<Transform>(&self.world, entity).is_some() {
                    return Err(EcsError::DuplicateComponent);
                }
                world_put(&mut self.world, entity, t);
            },
            Component::Sprite(s) => {
                if world_get::<Sprite>(&self.world, entity).is_some() {
                    return Err(EcsError::DuplicateComponent);
                }
                world_put(&mut self.world, entity, s);
            },
            Component::RigidBody(b) => {
                if world_get::<RigidBody>(&self.world, entity).is_some() {
                    return Err(EcsError::DuplicateComponent);
                }
                world_put(&mut self.world, entity, b);
            },
            Component::Collider(c) => {
                if world_get::<Collider>(&self.world, entity).is_some() {
                    return Err(EcsError::DuplicateComponent);
                }
                world_put(&mut self.world, entity, c);
            },
        }
        Ok(())
    }

    /// Attaches a rigid body with the given velocity and mass, and no
    /// acceleration, to `entity`.
    pub fn add_rigid_body(&mut self, entity: EntityId, velocity: Vec2, mass: i64) -> (r: Result<
        (),
        EcsError,
    >)
        requires
            old(self).wf(),
        ensures
            final(self).wf(),
            r is Ok <==> old(self)@.contains_key(entity) && old(self)@[entity].rigid_body is None,
            r is Ok ==> final(self)@ == old(self)@.insert(
                entity,
                old(self)@[entity].with_rigid_body(
                    RigidBody { velocity, acceleration: Vec2 { x: 0, y: 0 }, mass },
                ),
            ),
            r is Err ==> final(self)@ == old(self)@ && final(self).order() == old(self).order(),
            final(self).issued() == old(self).issued(),
            final(self).destroyed() == old(self).destroyed(),
            r == Err::<(), EcsError>(EcsError::UnknownEntity) <==> !old(self)@.contains_key(entity),
            r == Err::<(), EcsError>(EcsError::DuplicateComponent) <==> old(self)@.contains_key(
                entity,
            ) && old(self)@[entity].rigid_body is Some,
    {
        let body = RigidBody { velocity, acceleration: Vec2::zero(), mass };
        self.attach(entity, Component::RigidBody(body))
    }

    /// Attaches a box of the given extents to `entity`.
    pub fn add_collider(&mut self, entity: EntityId, width: i64, height: i64, is_trigger: bool) -> (r:
        Result<(), EcsError>)
        requires
            old(self).wf(),
        ensures
            final(self).wf(),
            r is Ok <==> old(self)@.contains_key(entity) && old(self)@[entity].collider is None,
            r is Ok ==> final(self)@ == old(self)@.insert(
                entity,
                old(self)@[entity].with_collider(Collider { width, height, is_trigger }),
            ),
            r is Err ==> final(self)@ == old(self)@ && final(self).order() == old(self).order(),
            final(self).issued() == old(self).issued(),
            final(self).destroyed() == old(self).destroyed(),
            r == Err::<(), EcsError>(EcsError::UnknownEntity) <==> !old(self)@.contains_key(entity),
            r == Err::<(), EcsError>(EcsError::DuplicateComponent) <==> old(self)@.contains_key(
                entity,
            ) && old(self)@[entity].collider is Some,
    {
        self.attach(entity, Component::Collider(Collider { width, height, is_trigger }))
    }

    /// Whether one motion pass keeps every position in the range of `i64`.
    pub open spec fn motion_fits(&self) -> bool {
        forall|e: EntityId| self@.contains_key(e) ==> fits_step(#[trigger] self@[e])
    }

    /// The boxes that collision detection looks at: one entry for each
    /// entity with a transform and a collider, in query order.
    pub open spec fn solids(&self) -> Seq<(EntityId, Transform, Collider)> {
        solid_ids(self.order(), self@).map_values(
            |e: EntityId| (e, self@[e].transform->0, self@[e].collider->0),
        )
    }

    /// Where everything is: one entry for each entity with a transform, in
    /// query order.
    pub open spec fn transforms(&self) -> Seq<(EntityId, Transform)> {
        placed_ids(self.order(), self@).map_values(|e: EntityId| (e, self@[e].transform->0))
    }

    /// What is drawn: one entry for each entity with a transform and a
    /// sprite, in query order.
    pub open spec fn renderables(&self) -> Seq<(EntityId, Transform, SpriteView)> {
        renderable_ids(self.order(), self@).map_values(
            |e: EntityId| (e, self@[e].transform->0, self@[e].sprite->0),
        )
    }

    /// Decides `motion_fits`.
    pub fn can_update(&self) -> (b: bool)
        requires
            self.wf(),
        ensures
            b == self.motion_fits(),
    {
        let moving = world_query::<Transform, RigidBody>(&self.world);
        let ghost ids = moving_ids(self.order(), self@);
        proof {
            lemma_ids_with::<Transform, RigidBody>(self.order(), self@);
        }
        let mut i: usize = 0;
        while i < moving.len()
            invariant
                i <= moving@.len(),
                moving@.len() == ids.len(),
                forall|k: int|
                    0 <= k < moving@.len() ==> {
                        &&& (#[trigger] moving@[k]).0 == ids[k]
                        &&& self@[ids[k]].transform == Some(moving@[k].1)
                        &&& self@[ids[k]].rigid_body == Some(moving@[k].2)
                    },
                forall|e: EntityId| ids.contains(e) <==> self@.contains_key(e) && is_moving(self@[e]),
                forall|k: int| 0 <= k < i ==> fits_step(self@[#[trigger] ids[k]]),
            decreases moving@.len() - i,
        {
            let (_id, transform, body) = moving[i];
            if !transform.position.fits_sum(body.velocity) {
                proof {
                    let e = ids[i as int];
                    assert(ids.contains(e));
                }
                return false;
            }
            i += 1;
        }
        proof {
            assert forall|e: EntityId| self@.contains_key(e) implies fits_step(#[trigger] self@[e]) by {
                if is_moving(self@[e]) {
                    assert(ids.contains(e));
                }
            }
        }
        true
    }

    /// The motion pass: every entity with a transform and a rigid body moves
    /// by its velocity, once. Nothing else changes.
    pub fn step_motion(&mut self)
        requires
            old(self).wf(),
            old(self).motion_fits(),
        ensures
            final(self).wf(),
            final(self)@ == old(self)@.map_values(|slot: Slot| stepped(slot)),
            final(self).order() == old(self).order(),
            final(self).issued() == old(self).issued(),
            final(self).destroyed() == old(self).destroyed(),
    {
        let moving = world_query::<Transform, RigidBody>(&self.world);
        let ghost before = self@;
        let ghost order = self.order();
        let ghost ids = moving_ids(order, before);
        proof {
            lemma_ids_with::<Transform, RigidBody>(order, before);
        }
        let mut i: usize = 0;
        while i < moving.len()
            invariant
                i <= moving@.len(),
                self.wf(),
                self.order() == order,
                self.issued() == old(self).issued(),
                self.destroyed() == old(self).destroyed(),
                self@.dom() == before.dom(),
                ids.no_duplicates(),
                moving@.len() == ids.len(),
                forall|k: int|
                    0 <= k < moving@.len() ==> {
                        &&& (#[trigger] moving@[k]).0 == ids[k]
                        &&& before[ids[k]].transform == Some(moving@[k].1)
                        &&& before[ids[k]].rigid_body == Some(moving@[k].2)
                    },
                forall|e: EntityId| ids.contains(e) <==> before.contains_key(e) && is_moving(before[e]),
                forall|e: EntityId| before.contains_key(e) ==> fits_step(#[trigger] before[e]),
                forall|e: EntityId|
                    before.contains_key(e) ==> #[trigger] self@[e] == if ids.take(i as int).contains(e) {
                        stepped(before[e])
                    } else {
                        before[e]
                    },
            decreases moving@.len() - i,
        {
            let (id, transform, body) = moving[i];
            proof {
                assert(ids.contains(id));
            }
            let moved = Transform {
                position: transform.position.plus(body.velocity),
                rotation: transform.rotation,
                scale: transform.scale,
            };
            world_put(&mut self.world, id, moved);
            proof {
                assert forall|e: EntityId| before.contains_key(e) implies #[trigger] self@[e] == if ids.take(
                    i + 1,
                ).contains(e) {
                    stepped(before[e])
                } else {
                    before[e]
                } by {
                    let grown = ids.take(i + 1);
                    if e == id {
                        assert(grown[i as int] == id);
                    }
                }
            }
            i += 1;
        }
        proof {
            assert(ids.take(i as int) =~= ids);
        }
    }

    /// The collision pass: every two entities with a transform and a
    /// collider whose boxes overlap, as one pair, the entity that the query
    /// visits first named first.
    pub fn detect_collisions(&self) -> (pairs: Vec<(EntityId, EntityId)>)
        requires
            self.wf(),
        ensures
            pairs@ == colliding_pairs(self.solids()),
    {
        let solids = world_query::<Transform, Collider>(&self.world);
        proof {
            assert(solids@ =~= self.solids());
        }
        find_collisions(&solids)
    }

    /// One step of the simulation: the motion pass, then the collision pass
    /// on the new positions. Returns the colliding pairs of this step.
    pub fn update(&mut self) -> (pairs: Vec<(EntityId, EntityId)>)
        requires
            old(self).wf(),
            old(self).motion_fits(),
        ensures
            final(self).wf(),
            final(self)@ == old(self)@.map_values(|slot: Slot| stepped(slot)),
            final(self).order() == old(self).order(),
            final(self).issued() == old(self).issued(),
            final(self).destroyed() == old(self).destroyed(),
            pairs@ == colliding_pairs(final(self).solids()),
    {
        self.step_motion();
        self.detect_collisions()
    }

    /// As `update`, for any world: where a position would leave the range
    /// of `i64` it does nothing and returns `None`.
    pub fn try_update(&mut self) -> (pairs: Option<Vec<(EntityId, EntityId)>>)
        requires
            old(self).wf(),
        ensures
            final(self).wf(),
            final(self).order() == old(self).order(),
            final(self).issued() == old(self).issued(),
            final(self).destroyed() == old(self).destroyed(),
            pairs is Some <==> old(self).motion_fits(),
            pairs is Some ==> final(self)@ == old(self)@.map_values(|slot: Slot| stepped(slot))
                && pairs->0@ == colliding_pairs(final(self).solids()),
            pairs is None ==> final(self)@ == old(self)@,
    {
        if self.can_update() {
            Some(self.update())
        } else {
            None
        }
    }

    /// One tick: the motion pass, then the collision pass, then the render
    /// query, the last two on the positions that the first one left.
    pub fn tick(&mut self) -> (frame: Frame)
        requires
            old(self).wf(),
            old(self).motion_fits(),
        ensures
            final(self).wf(),
            final(self)@ == old(self)@.map_values(|slot: Slot| stepped(slot)),
            final(self).order() == old(self).order(),
            final(self).issued() == old(self).issued(),
            final(self).destroyed() == old(self).destroyed(),
            frame.collisions@ == colliding_pairs(final(self).solids()),
            frame.renderables@.len() == final(self).renderables().len(),
            forall|i: int|
                0 <= i < frame.renderables@.len() ==> (
                (#[trigger] frame.renderables@[i]).0,
                frame.renderables@[i].1,
                frame.renderables@[i].2@,
            ) == final(self).renderables()[i],
    {
        let collisions = self.update();
        let renderables = self.get_renderables();
        Frame { collisions, renderables }
    }

    /// A copy of the transform of every entity that has one, in query
    /// order.
    pub fn get_transforms(&self) -> (found: Vec<(EntityId, Transform)>)
        requires
            self.wf(),
        ensures
            found@ == self.transforms(),
    {
        let twice = world_query::<Transform, Transform>(&self.world);
        let mut found: Vec<(EntityId, Transform)> = Vec::new();
        let mut i: usize = 0;
        while i < twice.len()
            invariant
                i <= twice@.len(),
                twice@.len() == self.transforms().len(),
                forall|k: int|
                    0 <= k < twice@.len() ==> (
                    (#[trigger] twice@[k]).0,
                    twice@[k].1,
                ) == self.transforms()[k],
                found@ == self.transforms().take(i as int),
            decreases twice@.len() - i,
        {
            let (id, transform, _) = twice[i];
            found.push((id, transform));
            i += 1;
        }
        found
    }

    /// The render query: a copy of the transform and the sprite of every
    /// entity that has both, in query order.
    pub fn get_renderables(&self) -> (found: Vec<(EntityId, Transform, Sprite)>)
        requires
            self.wf(),
        ensures
            found@.len() == self.renderables().len(),
            forall|i: int|
                0 <= i < found@.len() ==> (
                (#[trigger] found@[i]).0,
                found@[i].1,
                found@[i].2@,
            ) == self.renderables()[i],
    {
        world_query::<Transform, Sprite>(&self.world)
    }
}

} // verus!

//! What holds of every world: the properties of the motion pass, of
//! attaching, of the queries and of collision detection, each proved from
//! the contracts of the functions it speaks of.

use crate::collision::boxes_overlap;
use crate::collision::colliding_pairs;
use crate::collision::distinct_ids;
use crate::collision::lemma_disjoint_not_reported;
use crate::collision::lemma_never_both_orders;
use crate::collision::lemma_no_pair_reported_twice;
use crate::collision::lemma_overlap_reported_once;
use crate::collision::lemma_overlap_symmetric;
use crate::collision::lemma_reported_names_two_entries;
use crate::collision::reports;
use crate::components::Collider;
use crate::components::ComponentView;
use crate::components::EntityId;
use crate::components::Kind;
use crate::components::Slot;
use crate::components::Sprite;
use crate::components::SpriteView;
use crate::components::Transform;
use crate::components::same_kind;
use crate::ecs::EcsWorld;
use crate::ecs::fits_step;
use crate::ecs::stepped;
use crate::math::Vec2;
use crate::query::is_moving;
use crate::query::is_solid;
use crate::query::ids_with;
use crate::query::lemma_ids_with;
use vstd::prelude::*;

verus! {

/// Whether a slot that holds a sprite, a rigid body or a collider also holds
/// a transform.
pub open spec fn placed(slot: Slot) -> bool {
    slot.sprite is Some || slot.rigid_body is Some || slot.collider is Some
        ==> slot.transform is Some
}

/// Whether every entity that carries a sprite, a rigid body or a collider
/// also carries a transform.
pub open spec fn all_placed(contents: Map<EntityId, Slot>) -> bool {
    forall|e: EntityId| contents.contains_key(e) ==> placed(#[trigger] contents[e])
}

/// Creating a sprite entity, attaching a component to an entity that has a
/// transform, and the motion pass each keep every entity placed.
pub proof fn lemma_placed_is_kept(
    contents: Map<EntityId, Slot>,
    e: EntityId,
    position: Vec2,
    sprite: SpriteView,
    c: ComponentView,
)
    requires
        all_placed(contents),
    ensures
        all_placed(
            contents.insert(
                e,
                Slot::empty().with_transform(Transform::placed_at(position)).with_sprite(sprite),
            ),
        ),
        contents.contains_key(e) && contents[e].transform is Some ==> all_placed(
            contents.insert(e, contents[e].with(c)),
        ),
        all_placed(contents.map_values(|slot: Slot| stepped(slot))),
{
    let made = contents.insert(
        e,
        Slot::empty().with_transform(Transform::placed_at(position)).with_sprite(sprite),
    );
    assert forall|x: EntityId| made.contains_key(x) implies placed(#[trigger] made[x]) by {
        if x != e {
            assert(placed(contents[x]));
        }
    }
    if contents.contains_key(e) && contents[e].transform is Some {
        let grown = contents.insert(e, contents[e].with(c));
        assert forall|x: EntityId| grown.contains_key(x) implies placed(#[trigger] grown[x]) by {
            if x != e {
                assert(placed(contents[x]));
            }
        }
    }
    let moved = contents.map_values(|slot: Slot| stepped(slot));
    assert forall|x: EntityId| moved.contains_key(x) implies placed(#[trigger] moved[x]) by {
        assert(placed(contents[x]));
    }
}

/// One motion pass adds the velocity to the position, exactly and once, of
/// an entity that has a transform and a rigid body. Acceleration and mass
/// play no part. The one condition is that the sum can be held: it leaves
/// out, for one, a position of `i64::MAX` with a velocity of 1.
pub proof fn lemma_motion_adds_velocity(before: EcsWorld, after: EcsWorld, e: EntityId)
    requires
        after@ == before@.map_values(|slot: Slot| stepped(slot)),
        before@.contains_key(e),
        is_moving(before@[e]),
        fits_step(before@[e]),
    ensures
        after@.contains_key(e),
        after@[e].transform is Some,
        after@[e].transform->0.position.x == before@[e].transform->0.position.x
            + before@[e].rigid_body->0.velocity.x,
        after@[e].transform->0.position.y == before@[e].transform->0.position.y
            + before@[e].rigid_body->0.velocity.y,
{
}

/// The position is the only thing that a motion pass may change: of every
/// entity, whether it moves or not, the rotation and the scale stay, and so
/// do the sprite, the rigid body and the collider. An entity that lacks a
/// transform or a rigid body stays as it is altogether.
pub proof fn lemma_motion_changes_position_only(before: EcsWorld, after: EcsWorld, e: EntityId)
    requires
        after@ == before@.map_values(|slot: Slot| stepped(slot)),
        before@.contains_key(e),
    ensures
        after@.contains_key(e),
        after@[e].transform is Some == before@[e].transform is Some,
        before@[e].transform is Some ==> {
            &&& after@[e].transform->0.rotation == before@[e].transform->0.rotation
            &&& after@[e].transform->0.scale == before@[e].transform->0.scale
        },
        after@[e].sprite == before@[e].sprite,
        after@[e].rigid_body == before@[e].rigid_body,
        after@[e].collider == before@[e].collider,
        !is_moving(before@[e]) ==> after@[e] == before@[e],
{
}

/// The motion pass neither creates nor removes an entity.
pub proof fn lemma_motion_keeps_entities(before: EcsWorld, after: EcsWorld)
    requires
        after@ == before@.map_values(|slot: Slot| stepped(slot)),
    ensures
        after@.dom() == before@.dom(),
{
}

/// Once a component is attached, a second one of the same kind is refused:
/// the entity is known and its slot holds that kind, which are the inputs on
/// which `attach` returns `DuplicateComponent` and changes nothing. The slot
/// still holds the first component, and the other kinds as before.
pub proof fn lemma_second_attach_is_duplicate(
    world: Map<EntityId, Slot>,
    e: EntityId,
    first: ComponentView,
    second: ComponentView,
)
    requires
        world.contains_key(e),
        !world[e].has_kind_of(first),
        same_kind(first, second),
    ensures
        ({
            let attached = world.insert(e, world[e].with(first));
            &&& attached.contains_key(e)
            &&& attached[e].has_kind_of(second)
            &&& attached[e].holds(first)
            &&& forall|other: ComponentView|
                !same_kind(first, other) ==> attached[e].has_kind_of(other) == world[e].has_kind_of(
                    other,
                )
        }),
{
}

/// A slot does not remember in which order its components were attached.
pub proof fn lemma_attach_order_is_forgotten(slot: Slot, a: ComponentView, b: ComponentView)
    requires
        !same_kind(a, b),
    ensures
        slot.with(a).with(b) == slot.with(b).with(a),
{
}

/// What a query for two kinds hands out: `found` has one entry for each
/// entity that carries both, and none for an entity that lacks either. Here
/// `found` is any list that names, place by place, the entities that the
/// query visits.
proof fn lemma_entries_exact<A: Kind, B: Kind, T>(
    world: &EcsWorld,
    found: Seq<T>,
    id_of: spec_fn(T) -> EntityId,
)
    requires
        world.wf(),
        found.len() == ids_with::<A, B>(world.order(), world@).len(),
        forall|i: int|
            0 <= i < found.len() ==> id_of(#[trigger] found[i]) == ids_with::<A, B>(
                world.order(),
                world@,
            )[i],
    ensures
        forall|e: EntityId|
            (exists|i: int| 0 <= i < found.len() && id_of(#[trigger] found[i]) == e)
                <==> world@.contains_key(e) && A::present(world@[e]) && B::present(world@[e]),
        forall|i: int, j: int|
            0 <= i < j < found.len() ==> id_of(#[trigger] found[i]) != id_of(#[trigger] found[j]),
        forall|i: int|
            0 <= i < found.len() ==> {
                let e = id_of(#[trigger] found[i]);
                world@.contains_key(e) && A::present(world@[e]) && B::present(world@[e])
            },
{
    let ids = ids_with::<A, B>(world.order(), world@);
    world.lemma_wf();
    lemma_ids_with::<A, B>(world.order(), world@);
    assert forall|e: EntityId|
        (exists|i: int| 0 <= i < found.len() && id_of(#[trigger] found[i]) == e)
            <==> world@.contains_key(e) && A::present(world@[e]) && B::present(world@[e]) by {
        if exists|i: int| 0 <= i < found.len() && id_of(#[trigger] found[i]) == e {
            let i = choose|i: int| 0 <= i < found.len() && id_of(#[trigger] found[i]) == e;
            assert(ids[i] == e);
            assert(ids.contains(e));
        }
        if ids.contains(e) {
            let i = choose|i: int| 0 <= i < ids.len() && ids[i] == e;
            assert(id_of(found[i]) == e);
        }
    }
    assert forall|i: int| 0 <= i < found.len() implies {
        let e = id_of(#[trigger] found[i]);
        world@.contains_key(e) && A::present(world@[e]) && B::present(world@[e])
    } by {
        assert(ids.contains(ids[i]));
    }
}

impl EcsWorld {
    /// The render query returns one entry for each entity that has both a
    /// transform and a sprite, and none for an entity that lacks either.
    /// Each entry carries the entity's own transform and sprite.
    pub proof fn lemma_renderables_exact(&self)
        requires
            self.wf(),
        ensures
            forall|e: EntityId|
                (exists|i: int| 0 <= i < self.renderables().len() && #[trigger] self.renderables()[i].0 == e)
                    <==> self@.contains_key(e) && self@[e].transform is Some && self@[e].sprite is Some,
            forall|i: int, j: int|
                0 <= i < j < self.renderables().len() ==> self.renderables()[i].0
                    != self.renderables()[j].0,
            forall|i: int|
                0 <= i < self.renderables().len() ==> {
                    let entry = #[trigger] self.renderables()[i];
                    &&& self@[entry.0].transform == Some(entry.1)
                    &&& self@[entry.0].sprite == Some(entry.2)
                },
    {
        lemma_entries_exact::<Transform, Sprite, (EntityId, Transform, SpriteView)>(
            self,
            self.renderables(),
            |entry: (EntityId, Transform, SpriteView)| entry.0,
        );
    }

    /// The transforms handed out are those of the entities that have one,
    /// each once and each with the entity's own transform.
    pub proof fn lemma_transforms_exact(&self)
        requires
            self.wf(),
        ensures
            forall|e: EntityId|
                (exists|i: int| 0 <= i < self.transforms().len() && #[trigger] self.transforms()[i].0 == e)
                    <==> self@.contains_key(e) && self@[e].transform is Some,
            forall|i: int, j: int|
                0 <= i < j < self.transforms().len() ==> self.transforms()[i].0
                    != self.transforms()[j].0,
            forall|i: int|
                0 <= i < self.transforms().len() ==> {
                    let entry = #[trigger] self.transforms()[i];
                    self@[entry.0].transform == Some(entry.1)
                },
    {
        lemma_entries_exact::<Transform, Transform, (EntityId, Transform)>(
            self,
            self.transforms(),
            |entry: (EntityId, Transform)| entry.0,
        );
    }

    /// The collision pass looks at one box for each entity that has both a
    /// transform and a collider, and at no other; no entity has two entries.
    pub proof fn lemma_solids_exact(&self)
        requires
            self.wf(),
        ensures
            distinct_ids(self.solids()),
            forall|e: EntityId|
                (exists|i: int| 0 <= i < self.solids().len() && #[trigger] self.solids()[i].0 == e)
                    <==> self@.contains_key(e) && self@[e].transform is Some && self@[e].collider is Some,
            forall|i: int|
                0 <= i < self.solids().len() ==> {
                    let entry = #[trigger] self.solids()[i];
                    &&& self@[entry.0].transform == Some(entry.1)
                    &&& self@[entry.0].collider == Some(entry.2)
                },
    {
        lemma_entries_exact::<Transform, Collider, (EntityId, Transform, Collider)>(
            self,
            self.solids(),
            |entry: (EntityId, Transform, Collider)| entry.0,
        );
    }

    /// Whether the boxes of two entities that have a transform and a
    /// collider overlap.
    pub open spec fn collide(&self, a: EntityId, b: EntityId) -> bool {
        boxes_overlap(
            self@[a].transform->0.position,
            self@[a].collider->0,
            self@[b].transform->0.position,
            self@[b].collider->0,
        )
    }

    /// Of two entities with a transform and a collider, the collision pass
    /// reports a pair if and only if their boxes overlap. It then reports
    /// them once, in one of the two orders, and never in both.
    pub proof fn lemma_collisions_exact(&self, a: EntityId, b: EntityId)
        requires
            self.wf(),
            a != b,
            self@.contains_key(a) && self@[a].transform is Some && self@[a].collider is Some,
            self@.contains_key(b) && self@[b].transform is Some && self@[b].collider is Some,
        ensures
            self.collide(a, b) == self.collide(b, a),
            self.collide(a, b) ==> colliding_pairs(self.solids()).to_multiset().count((a, b))
                + colliding_pairs(self.solids()).to_multiset().count((b, a)) == 1,
            !self.collide(a, b) ==> !colliding_pairs(self.solids()).contains((a, b))
                && !colliding_pairs(self.solids()).contains((b, a)),
    {
        let s = self.solids();
        let pairs = colliding_pairs(s);
        self.lemma_solids_exact();
        let i = choose|i: int| 0 <= i < s.len() && #[trigger] s[i].0 == a;
        let j = choose|j: int| 0 <= j < s.len() && #[trigger] s[j].0 == b;
        lemma_overlap_symmetric(s[i].1.position, s[i].2, s[j].1.position, s[j].2);
        vstd::seq_lib::to_multiset_contains(pairs, (a, b));
        vstd::seq_lib::to_multiset_contains(pairs, (b, a));
        if i < j {
            if self.collide(a, b) {
                lemma_overlap_reported_once(s, i, j);
            } else {
                lemma_disjoint_not_reported(s, i, j);
            }
        } else {
            if self.collide(a, b) {
                lemma_overlap_reported_once(s, j, i);
            } else {
                lemma_disjoint_not_reported(s, j, i);
            }
        }
    }
    /// What the collision pass reports, pair by pair: two different
    /// entities, each with a transform and a collider, whose boxes overlap.
    /// No pair is reported twice, and none in both orders.
    pub proof fn lemma_reported_pairs(&self)
        requires
            self.wf(),
        ensures
            colliding_pairs(self.solids()).no_duplicates(),
            forall|k: int|
                0 <= k < colliding_pairs(self.solids()).len() ==> {
                    let pair = #[trigger] colliding_pairs(self.solids())[k];
                    &&& pair.0 != pair.1
                    &&& self@.contains_key(pair.0) && is_solid(self@[pair.0])
                    &&& self@.contains_key(pair.1) && is_solid(self@[pair.1])
                    &&& self.collide(pair.0, pair.1)
                },
            forall|a: EntityId, b: EntityId|
                !(colliding_pairs(self.solids()).contains((a, b)) && colliding_pairs(
                    self.solids(),
                ).contains((b, a))),
    {
        let s = self.solids();
        let pairs = colliding_pairs(s);
        self.lemma_solids_exact();
        lemma_no_pair_reported_twice(s);
        assert forall|k: int| 0 <= k < pairs.len() implies {
            let pair = #[trigger] pairs[k];
            &&& pair.0 != pair.1
            &&& self@.contains_key(pair.0) && is_solid(self@[pair.0])
            &&& self@.contains_key(pair.1) && is_solid(self@[pair.1])
            &&& self.collide(pair.0, pair.1)
        } by {
            lemma_reported_names_two_entries(s, pairs[k]);
            let (i, j) = choose|i: int, j: int| #[trigger] reports(s, i, j, pairs[k]);
            assert(s[i].0 == pairs[k].0 && s[j].0 == pairs[k].1);
        }
        assert forall|a: EntityId, b: EntityId|
            !(pairs.contains((a, b)) && pairs.contains((b, a))) by {
            lemma_never_both_orders(s, a, b);
        }
    }
}

} // verus!

//! Which entities a query selects, and in what order.

use crate::components::Collider;
use crate::components::EntityId;
use crate::components::Kind;
use crate::components::RigidBody;
use crate::components::Slot;
use crate::components::Sprite;
use crate::components::Transform;
use vstd::prelude::*;

verus! {

/// `order` lists every key of `contents` once and nothing else.
pub open spec fn lists(order: Seq<EntityId>, contents: Map<EntityId, Slot>) -> bool {
    &&& order.no_duplicates()
    &&& forall|e: EntityId| order.contains(e) <==> contents.contains_key(e)
}

/// A slot that the motion pass moves: it has a place and a velocity.
pub open spec fn is_moving(slot: Slot) -> bool {
    slot.transform is Some && slot.rigid_body is Some
}

/// A slot that takes part in collision detection: it has a place and a box.
pub open spec fn is_solid(slot: Slot) -> bool {
    slot.transform is Some && slot.collider is Some
}

/// A slot that is drawn: it has a place and a sprite.
pub open spec fn is_renderable(slot: Slot) -> bool {
    slot.transform is Some && slot.sprite is Some
}

/// The test that picks the entities of `contents` that carry a component
/// of kind `A` and one of kind `B`.
pub open spec fn both_in<A: Kind, B: Kind>(contents: Map<EntityId, Slot>) -> spec_fn(
    EntityId,
) -> bool {
    |e: EntityId| A::present(contents[e]) && B::present(contents[e])
}

/// The entities of `order` that carry a component of kind `A` and one of
/// kind `B`, in that order: what a query for the two kinds visits.
pub open spec fn ids_with<A: Kind, B: Kind>(
    order: Seq<EntityId>,
    contents: Map<EntityId, Slot>,
) -> Seq<EntityId> {
    order.filter(both_in::<A, B>(contents))
}

/// The entities of `order` that have a transform, in that order: a query
/// for one kind is the query for that kind twice.
pub open spec fn placed_ids(order: Seq<EntityId>, contents: Map<EntityId, Slot>) -> Seq<EntityId> {
    ids_with::<Transform, Transform>(order, contents)
}

/// The entities of `order` that the motion pass moves, in that order.
pub open spec fn moving_ids(order: Seq<EntityId>, contents: Map<EntityId, Slot>) -> Seq<EntityId> {
    ids_with::<Transform, RigidBody>(order, contents)
}

/// The entities of `order` that take part in collision detection, in that
/// order.
pub open spec fn solid_ids(order: Seq<EntityId>, contents: Map<EntityId, Slot>) -> Seq<EntityId> {
    ids_with::<Transform, Collider>(order, contents)
}

/// The entities of `order` that are drawn, in that order.
pub open spec fn renderable_ids(order: Seq<EntityId>, contents: Map<EntityId, Slot>) -> Seq<
    EntityId,
> {
    ids_with::<Transform, Sprite>(order, contents)
}

/// Selecting from a list without repetition gives a list without
/// repetition, which holds exactly the listed entities that pass the test.
pub proof fn lemma_selection(order: Seq<EntityId>, test: spec_fn(EntityId) -> bool)
    requires
        order.no_duplicates(),
    ensures
        order.filter(test).no_duplicates(),
        forall|e: EntityId| order.filter(test).contains(e) <==> order.contains(e) && test(e),
    decreases order.len(),
{
    reveal(Seq::filter);
    if order.len() > 0 {
        let rest = order.drop_last();
        let last = order.last();
        lemma_selection(rest, test);
        let kept = rest.filter(test);
        assert forall|e: EntityId| order.contains(e) <==> rest.contains(e) || e == last by {
            if order.contains(e) {
                let i = choose|i: int| 0 <= i < order.len() && order[i] == e;
                if i < order.len() - 1 {
                    assert(rest[i] == e);
                }
            }
        }
        assert(!rest.contains(last));
        if test(last) {
            let out = kept.push(last);
            assert forall|e: EntityId| out.contains(e) <==> kept.contains(e) || e == last by {
                if kept.contains(e) {
                    let i = choose|i: int| 0 <= i < kept.len() && kept[i] == e;
                    assert(out[i] == e);
                }
            }
            assert(out.no_duplicates());
        }
    }
}

/// A query for two kinds visits each entity that carries both once, and no
/// other.
pub proof fn lemma_ids_with<A: Kind, B: Kind>(order: Seq<EntityId>, contents: Map<EntityId, Slot>)
    requires
        lists(order, contents),
    ensures
        ids_with::<A, B>(order, contents).no_duplicates(),
        forall|e: EntityId| #[trigger]
            ids_with::<A, B>(order, contents).contains(e) <==> contents.contains_key(e)
                && A::present(contents[e]) && B::present(contents[e]),
{
    lemma_selection(order, both_in::<A, B>(contents));
    assert forall|e: EntityId| #[trigger]
        ids_with::<A, B>(order, contents).contains(e) <==> contents.contains_key(e) && A::present(
            contents[e],
        ) && B::present(contents[e]) by {
        assert(order.contains(e) <==> contents.contains_key(e));
    }
}

} // verus!

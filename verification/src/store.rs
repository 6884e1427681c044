//! The `hecs` world as the engine sees it: a finite map from entity
//! identifiers to component slots, walked in a storage order.
//!
//! Nothing in this file is proved. Each function states what the `hecs` call
//! in its body does to that map and that order. The worlds it speaks of are
//! those that `world_new` made and these functions changed.

use crate::components::EntityId;
use crate::components::Kind;
use crate::components::Slot;
use crate::query::ids_with;
use crate::query::lists;
use vstd::prelude::*;

verus! {

/// `hecs::World`, taken as a value of which nothing is seen but what the
/// four functions below read from it.
#[verifier::external_type_specification]
#[verifier::external_body]
pub struct ExWorld(hecs::World);

/// The live entities of a world, each with the components it carries.
pub uninterp spec fn world_contents(w: hecs::World) -> Map<EntityId, Slot>;

/// The live entities of a world in the order in which its archetypes store
/// them, which is the order in which every query visits them.
pub uninterp spec fn world_order(w: hecs::World) -> Seq<EntityId>;

/// The identifiers that a world has handed out since it was made, those of
/// entities that have left it since among them.
pub uninterp spec fn world_issued(w: hecs::World) -> Set<EntityId>;

/// The number of entities that have left a world since it was made.
pub uninterp spec fn world_despawns(w: hecs::World) -> nat;

/// `hecs::World::new`: a world without entities, which has handed out no
/// identifier and which no entity has left.
#[verifier::external_body]
pub(crate) fn world_new() -> (w: hecs::World)
    ensures
        world_contents(w).is_empty(),
        world_order(w).len() == 0,
        world_issued(w).is_empty(),
        world_despawns(w) == 0,
{
    hecs::World::new()
}

/// `hecs::World::len`: the number of live entities.
#[verifier::external_body]
pub(crate) fn world_len(w: &hecs::World) -> (n: u32)
    ensures
        n == world_contents(*w).dom().len(),
{
    w.len()
}

/// `hecs::World::contains`: whether a live entity has the identifier.
#[verifier::external_body]
pub(crate) fn world_contains(w: &hecs::World, id: EntityId) -> (live: bool)
    ensures
        live == world_contents(*w).contains_key(id),
{
    match hecs::Entity::from_bits(id.bits) {
        Some(entity) => w.contains(entity),
        None => false,
    }
}

/// `hecs::World::spawn` with the empty bundle: a new live entity without
/// components, under an identifier that no live entity has. The call panics
/// where the world is full, which `requires` leaves out.
///
/// An identifier is a slot and the slot's generation, and a slot's
/// generation goes up by one each time its entity leaves; it starts again
/// only after `u32::MAX` departures from that one slot. So as long as fewer
/// entities than that have left the world, the identifier is one that the
/// world never handed out before.
#[verifier::external_body]
pub(crate) fn world_spawn(w: &mut hecs::World) -> (id: EntityId)
    requires
        world_contents(*old(w)).dom().finite(),
        world_contents(*old(w)).dom().len() < u32::MAX,
    ensures
        !world_contents(*old(w)).contains_key(id),
        world_despawns(*old(w)) < u32::MAX ==> !world_issued(*old(w)).contains(id),
        world_contents(*final(w)) == world_contents(*old(w)).insert(id, Slot::empty()),
        world_issued(*final(w)) == world_issued(*old(w)).insert(id),
        world_despawns(*final(w)) == world_despawns(*old(w)),
        lists(world_order(*old(w)), world_contents(*old(w))) ==> lists(
            world_order(*final(w)),
            world_contents(*final(w)),
        ),
{
    EntityId { bits: w.spawn(()).to_bits().get() }
}

/// `hecs::World::despawn`: a live entity leaves the world with all it
/// carries, and the other entities stay as they are; on any other identifier
/// nothing changes. No identifier is handed out.
#[verifier::external_body]
pub(crate) fn world_despawn(w: &mut hecs::World, id: EntityId) -> (done: bool)
    ensures
        done == world_contents(*old(w)).contains_key(id),
        done ==> world_contents(*final(w)) == world_contents(*old(w)).remove(id),
        done ==> world_despawns(*final(w)) == world_despawns(*old(w)) + 1,
        !done ==> world_contents(*final(w)) == world_contents(*old(w)) && world_order(*final(w))
            == world_order(*old(w)) && world_despawns(*final(w)) == world_despawns(*old(w)),
        world_issued(*final(w)) == world_issued(*old(w)),
        lists(world_order(*old(w)), world_contents(*old(w))) ==> lists(
            world_order(*final(w)),
            world_contents(*final(w)),
        ),
{
    match hecs::Entity::from_bits(id.bits) {
        Some(entity) => w.despawn(entity).is_ok(),
        None => false,
    }
}

/// `hecs::World::get`: a copy of the component of kind `C` that a live
/// entity carries, and `None` where the entity carries none or no live
/// entity has the identifier.
#[verifier::external_body]
pub(crate) fn world_get<C: Kind>(w: &hecs::World, id: EntityId) -> (found: Option<C>)
    ensures
        found.is_some() == (world_contents(*w).contains_key(id) && C::present(
            world_contents(*w)[id],
        )),
        found.is_some() ==> found.unwrap().kept_in(world_contents(*w)[id]),
{
    w.get::<&C>(hecs::Entity::from_bits(id.bits)?).ok().map(|c| (*c).clone())
}

/// `hecs::World::insert_one`: on a live entity it stores the component,
/// replacing one of its kind that is there, and leaves the other kinds and
/// the other entities alone; on any other identifier it changes nothing.
/// Where a component is replaced the storage order stays. No identifier is
/// handed out and no entity leaves.
#[verifier::external_body]
pub(crate) fn world_put<C: Kind>(w: &mut hecs::World, id: EntityId, component: C) -> (done: bool)
    ensures
        done == world_contents(*old(w)).contains_key(id),
        world_issued(*final(w)) == world_issued(*old(w)),
        world_despawns(*final(w)) == world_despawns(*old(w)),
        done ==> world_contents(*final(w)) == world_contents(*old(w)).insert(
            id,
            component.put_in(world_contents(*old(w))[id]),
        ),
        !done ==> world_contents(*final(w)) == world_contents(*old(w)),
        !done || C::present(world_contents(*old(w))[id]) ==> world_order(*final(w)) == world_order(
            *old(w),
        ),
        lists(world_order(*old(w)), world_contents(*old(w))) ==> lists(
            world_order(*final(w)),
            world_contents(*final(w)),
        ),
{
    match hecs::Entity::from_bits(id.bits) {
        Some(entity) => w.insert_one(entity, component).is_ok(),
        None => false,
    }
}

/// `hecs::World::query` for a pair of kinds: the entities that carry both,
/// in storage order, each with copies of the two components.
#[verifier::external_body]
pub(crate) fn world_query<A: Kind, B: Kind>(w: &hecs::World) -> (found: Vec<(EntityId, A, B)>)
    ensures
        (found@.len() == ids_with::<A, B>(world_order(*w), world_contents(*w)).len()),
        (forall|i: int|
            0 <= i < found@.len() ==> {
                let id = ids_with::<A, B>(world_order(*w), world_contents(*w))[i];
                &&& (#[trigger] found@[i]).0 == id
                &&& found@[i].1.kept_in(world_contents(*w)[id])
                &&& found@[i].2.kept_in(world_contents(*w)[id])
            }),
{
    w.query::<(&A, &B)>().iter().map(
        |(entity, (a, b))| (EntityId { bits: entity.to_bits().get() }, a.clone(), b.clone()),
    ).collect()
}

} // verus!

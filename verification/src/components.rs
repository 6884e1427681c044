//! Entity identifiers and the four kinds of component an entity may carry.

use crate::math::UNIT;
use crate::math::Vec2;
use vstd::prelude::*;

verus! {

/// Identifies one entity of a world. It carries no data of its own: it is a
/// key under which components are stored.
#[derive(Clone, Copy, Debug, PartialEq, Eq, Hash, Structural)]
pub struct EntityId {
    pub bits: u64,
}

/// Where an entity is, how it is turned and how it is scaled.
#[derive(Clone, Copy, Debug, PartialEq, Eq, Structural)]
pub struct Transform {
    pub position: Vec2,
    pub rotation: i64,
    pub scale: Vec2,
}

/// What is drawn for an entity: a texture, named by its key in the renderer's
/// registry, and the extents of the quad before scaling.
#[derive(Clone, Debug, PartialEq, Eq)]
pub struct Sprite {
    pub texture_name: String,
    pub width: i64,
    pub height: i64,
}

/// How an entity moves. Only `velocity` is consumed by the motion pass.
#[derive(Clone, Copy, Debug, PartialEq, Eq, Structural)]
pub struct RigidBody {
    pub velocity: Vec2,
    pub acceleration: Vec2,
    pub mass: i64,
}

/// An axis-aligned box centred on the owner's position. Rotation and scale
/// of the owner do not apply to it.
#[derive(Clone, Copy, Debug, PartialEq, Eq, Structural)]
pub struct Collider {
    pub width: i64,
    pub height: i64,
    pub is_trigger: bool,
}

/// The mathematical value of a `Sprite`.
pub struct SpriteView {
    pub texture_name: Seq<char>,
    pub width: i64,
    pub height: i64,
}

impl View for Sprite {
    type V = SpriteView;

    open spec fn view(&self) -> SpriteView {
        SpriteView { texture_name: self.texture_name@, width: self.width, height: self.height }
    }
}

/// Everything one entity carries: at most one component of each kind.
pub struct Slot {
    pub transform: Option<Transform>,
    pub sprite: Option<SpriteView>,
    pub rigid_body: Option<RigidBody>,
    pub collider: Option<Collider>,
}

impl Slot {
    /// The slot of an entity without components.
    pub open spec fn empty() -> Slot {
        Slot { transform: None, sprite: None, rigid_body: None, collider: None }
    }

    /// The slot with `t` as its transform.
    pub open spec fn with_transform(self, t: Transform) -> Slot {
        Slot { transform: Some(t), ..self }
    }

    /// The slot with `s` as its sprite.
    pub open spec fn with_sprite(self, s: SpriteView) -> Slot {
        Slot { sprite: Some(s), ..self }
    }

    /// The slot with `b` as its rigid body.
    pub open spec fn with_rigid_body(self, b: RigidBody) -> Slot {
        Slot { rigid_body: Some(b), ..self }
    }

    /// The slot with `c` as its collider.
    pub open spec fn with_collider(self, c: Collider) -> Slot {
        Slot { collider: Some(c), ..self }
    }
}

/// A kind of component: it says which field of a slot is its own. Each of
/// the four kinds has one field, and no two kinds share one.
pub trait Kind: Sized + Clone + Send + Sync + 'static {
    /// Whether the slot holds a component of this kind.
    spec fn present(slot: Slot) -> bool;

    /// Whether the slot holds this very component.
    spec fn kept_in(&self, slot: Slot) -> bool;

    /// The slot with this component stored, in place of one of its kind.
    spec fn put_in(&self, slot: Slot) -> Slot;
}

impl Kind for Transform {
    open spec fn present(slot: Slot) -> bool {
        slot.transform is Some
    }

    open spec fn kept_in(&self, slot: Slot) -> bool {
        slot.transform == Some(*self)
    }

    open spec fn put_in(&self, slot: Slot) -> Slot {
        slot.with_transform(*self)
    }
}

impl Kind for Sprite {
    open spec fn present(slot: Slot) -> bool {
        slot.sprite is Some
    }

    open spec fn kept_in(&self, slot: Slot) -> bool {
        slot.sprite == Some(self@)
    }

    open spec fn put_in(&self, slot: Slot) -> Slot {
        slot.with_sprite(self@)
    }
}

impl Kind for RigidBody {
    open spec fn present(slot: Slot) -> bool {
        slot.rigid_body is Some
    }

    open spec fn kept_in(&self, slot: Slot) -> bool {
        slot.rigid_body == Some(*self)
    }

    open spec fn put_in(&self, slot: Slot) -> Slot {
        slot.with_rigid_body(*self)
    }
}

impl Kind for Collider {
    open spec fn present(slot: Slot) -> bool {
        slot.collider is Some
    }

    open spec fn kept_in(&self, slot: Slot) -> bool {
        slot.collider == Some(*self)
    }

    open spec fn put_in(&self, slot: Slot) -> Slot {
        slot.with_collider(*self)
    }
}

/// The components of one entity, copied out of a world.
#[derive(Clone, Debug, PartialEq, Eq)]
pub struct Components {
    pub transform: Option<Transform>,
    pub sprite: Option<Sprite>,
    pub rigid_body: Option<RigidBody>,
    pub collider: Option<Collider>,
}

impl View for Components {
    type V = Slot;

    open spec fn view(&self) -> Slot {
        Slot {
            transform: self.transform,
            sprite: match self.sprite {
                Some(s) => Some(s@),
                None => None,
            },
            rigid_body: self.rigid_body,
            collider: self.collider,
        }
    }
}

impl Transform {
    /// The transform of an entity placed at `position`, not turned and not
    /// scaled.
    pub open spec fn placed_at(position: Vec2) -> Transform {
        Transform { position, rotation: 0, scale: Vec2 { x: UNIT, y: UNIT } }
    }

    /// Builds `placed_at(position)`.
    pub fn at(position: Vec2) -> (t: Transform)
        ensures
            t == Transform::placed_at(position),
    {
        Transform { position, rotation: 0, scale: Vec2 { x: UNIT, y: UNIT } }
    }
}

/// One component of any kind, as handed to `EcsWorld::attach`.
#[derive(Clone, Debug, PartialEq, Eq)]
pub enum Component {
    Transform(Transform),
    Sprite(Sprite),
    RigidBody(RigidBody),
    Collider(Collider),
}

/// The mathematical value of a `Component`.
pub enum ComponentView {
    Transform(Transform),
    Sprite(SpriteView),
    RigidBody(RigidBody),
    Collider(Collider),
}

impl View for Component {
    type V = ComponentView;

    open spec fn view(&self) -> ComponentView {
        match *self {
            Component::Transform(t) => ComponentView::Transform(t),
            Component::Sprite(s) => ComponentView::Sprite(s@),
            Component::RigidBody(b) => ComponentView::RigidBody(b),
            Component::Collider(c) => ComponentView::Collider(c),
        }
    }
}

impl Slot {
    /// Whether the slot already holds a component of the kind of `c`.
    pub open spec fn has_kind_of(self, c: ComponentView) -> bool {
        match c {
            ComponentView::Transform(_) => self.transform is Some,
            ComponentView::Sprite(_) => self.sprite is Some,
            ComponentView::RigidBody(_) => self.rigid_body is Some,
            ComponentView::Collider(_) => self.collider is Some,
        }
    }

    /// The slot with `c` stored under its kind.
    pub open spec fn with(self, c: ComponentView) -> Slot {
        match c {
            ComponentView::Transform(t) => self.with_transform(t),
            ComponentView::Sprite(s) => self.with_sprite(s),
            ComponentView::RigidBody(b) => self.with_rigid_body(b),
            ComponentView::Collider(k) => self.with_collider(k),
        }
    }
}

/// Whether two components are of one kind.
pub open spec fn same_kind(a: ComponentView, b: ComponentView) -> bool {
    match (a, b) {
        (ComponentView::Transform(_), ComponentView::Transform(_)) => true,
        (ComponentView::Sprite(_), ComponentView::Sprite(_)) => true,
        (ComponentView::RigidBody(_), ComponentView::RigidBody(_)) => true,
        (ComponentView::Collider(_), ComponentView::Collider(_)) => true,
        _ => false,
    }
}

impl Slot {
    /// Whether the slot holds exactly `c` under the kind of `c`.
    pub open spec fn holds(self, c: ComponentView) -> bool {
        match c {
            ComponentView::Transform(t) => self.transform == Some(t),
            ComponentView::Sprite(s) => self.sprite == Some(s),
            ComponentView::RigidBody(b) => self.rigid_body == Some(b),
            ComponentView::Collider(k) => self.collider == Some(k),
        }
    }
}

/// Why a component could not be attached.
#[derive(Clone, Copy, Debug, PartialEq, Eq, Structural)]
pub enum EcsError {
    /// No live entity has the identifier.
    UnknownEntity,
    /// The entity already carries a component of that kind.
    DuplicateComponent,
}

} // verus!

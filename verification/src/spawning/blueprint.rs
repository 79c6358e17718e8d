//! What a spawner asks the host to build: a root entity, the entities hung
//! below it, and what each of them carries.

use crate::spawning::{GameObject, Transform};
use vstd::prelude::*;

verus! {

/// A solid, with its lengths in pico-units.
#[derive(Clone, Copy, Debug, PartialEq, Eq, Structural)]
pub enum Shape {
    Capsule { height: i64, radius: i64 },
    Cylinder { half_height: i64, radius: i64 },
    UvSphere { radius: i64 },
}

/// A colour, each channel in millionths of full strength.
#[derive(Clone, Copy, Debug, PartialEq, Eq, Structural)]
pub struct Color {
    pub red: i32,
    pub green: i32,
    pub blue: i32,
}

/// A light that shines from one point.
#[derive(Clone, Copy, Debug, PartialEq, Eq, Structural)]
pub struct PointLight {
    pub color: Color,
    /// In millionths.
    pub intensity: i64,
    /// How far the light reaches, in pico-units; `None` leaves it to the host.
    pub range: Option<i64>,
    /// In pico-units.
    pub radius: i64,
    pub shadows_enabled: bool,
}

/// A preloaded animation.
#[derive(Clone, Copy, Debug, PartialEq, Eq, Structural)]
pub enum AnimationClip {
    CharacterIdle,
    CharacterWalking,
    CharacterRunning,
}

/// A preloaded model.
#[derive(Clone, Copy, Debug, PartialEq, Eq, Structural)]
pub enum Model {
    Character,
}

/// A preloaded material.
#[derive(Clone, Copy, Debug, PartialEq, Eq, Structural)]
pub enum Material {
    Glowy,
}

/// A conversation that an entity can start.
#[derive(Clone, Copy, Debug, PartialEq, Eq, Structural)]
pub enum DialogId {
    Follower,
}

impl DialogId {
    /// The name under which the conversation is filed.
    pub fn as_str(self) -> (id: &'static str)
        ensures
            id@ == "follower"@,
    {
        match self {
            DialogId::Follower => "follower",
        }
    }
}

/// One thing that an entity carries.
#[derive(Clone, Copy, Debug, PartialEq, Eq, Structural)]
pub enum Component {
    /// Makes the entity and what hangs below it visible.
    Visible,
    /// A body that the game moves and the physics solver keeps out of walls.
    KinematicCharacter { shape: Shape },
    /// Walks after the player.
    Follower,
    /// The animations to play while standing, walking and in the air.
    CharacterAnimations { idle: AnimationClip, walk: AnimationClip, aerial: AnimationClip },
    /// Starts a conversation with whoever touches the entity.
    DialogTarget { dialog_id: DialogId },
    /// A solid that the physics solver knows.
    Collider { shape: Shape },
    /// The collider reports what touches it and stops nothing.
    Sensor,
    /// Touches are reported as events.
    CollisionEvents,
    /// Touches between moved and fixed bodies count.
    KinematicStaticCollisions,
    /// The collider was put here on purpose and is left as it is.
    CustomCollider,
    /// Shows one scene of a model.
    Scene { model: Model, index: usize },
    /// Marks the entity that shows a character's model.
    Model,
    /// Shows the mesh that was made for a kind of object.
    Mesh { object: GameObject, material: Material },
    /// The entity casts no shadow.
    NotShadowCaster,
    /// The entity shines.
    PointLight { light: PointLight },
}

/// An entity to build, as plain values.
pub struct EntityModel {
    pub name: Option<Seq<char>>,
    pub transform: Option<Transform>,
    pub components: Seq<Component>,
}

/// An entity to build.
#[derive(Clone, Debug, PartialEq, Eq)]
pub struct EntityBlueprint {
    /// The name by which the entity can be found.
    pub name: Option<&'static str>,
    /// Where the entity stands relative to its parent; `None` for an entity
    /// that has no place of its own.
    pub transform: Option<Transform>,
    pub components: Vec<Component>,
}

impl View for EntityBlueprint {
    type V = EntityModel;

    open spec fn view(&self) -> EntityModel {
        EntityModel {
            name: match self.name {
                Some(name) => Some(name@),
                None => None,
            },
            transform: self.transform,
            components: self.components@,
        }
    }
}

/// A root entity and its children, as plain values.
pub struct BlueprintModel {
    pub root: EntityModel,
    pub children: Seq<EntityModel>,
}

/// A root entity and the entities to hang below it, first to last.
#[derive(Clone, Debug, PartialEq, Eq)]
pub struct Blueprint {
    pub root: EntityBlueprint,
    pub children: Vec<EntityBlueprint>,
}

impl View for Blueprint {
    type V = BlueprintModel;

    open spec fn view(&self) -> BlueprintModel {
        BlueprintModel {
            root: self.root@,
            children: Seq::new(self.children@.len(), |i: int| self.children@[i]@),
        }
    }
}

} // verus!

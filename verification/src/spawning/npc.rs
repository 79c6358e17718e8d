//! The character that follows the player around and talks.

use crate::spawning::blueprint::{
    AnimationClip, Blueprint, BlueprintModel, Component, DialogId, EntityBlueprint, EntityModel,
    Model, Shape,
};
use crate::spawning::{GameObject, Offset, Rotation, Scale, SpawnAssets, Transform, ONE};
use vstd::prelude::*;

verus! {

/// Height of the character's body between its round ends, in pico-units.
pub const HEIGHT: i64 = 1_000_000_000_000;

/// Radius of the character's body, in pico-units.
pub const RADIUS: i64 = 400_000_000_000;

/// Size of the character against its model's own size, in millionths.
pub const SCALE: i32 = 600_000;

/// Size of the model against the body it is drawn for, in millionths.
pub const MODEL_SCALE: i32 = 20_000;

/// Plans characters.
pub struct NpcSpawner;

impl NpcSpawner {
    /// The character: a body that follows the player, with the character
    /// animations.
    pub open spec fn root() -> EntityModel {
        EntityModel {
            name: Some("NPC"@),
            transform: Some(Transform::scaled(SCALE)),
            components: seq![
                Component::Visible,
                Component::KinematicCharacter {
                    shape: Shape::Capsule { height: HEIGHT, radius: RADIUS },
                },
                Component::Follower,
                Component::CharacterAnimations {
                    idle: AnimationClip::CharacterIdle,
                    walk: AnimationClip::CharacterWalking,
                    aerial: AnimationClip::CharacterRunning,
                },
            ],
        }
    }

    /// The zone around the character in which it can be talked to: a sensor
    /// half as high as the body and five times as wide.
    pub open spec fn dialog_collider() -> EntityModel {
        EntityModel {
            name: Some("NPC Dialog Collider"@),
            transform: None,
            components: seq![
                Component::DialogTarget { dialog_id: DialogId::Follower },
                Component::Collider {
                    shape: Shape::Cylinder {
                        half_height: (HEIGHT / 2) as i64,
                        radius: (RADIUS * 5) as i64,
                    },
                },
                Component::Sensor,
                Component::CollisionEvents,
                Component::KinematicStaticCollisions,
                Component::CustomCollider,
            ],
        }
    }

    /// What is seen of the character: the first scene of the character model,
    /// set on the ground, shrunk, and turned half round to face forward.
    pub open spec fn model() -> EntityModel {
        EntityModel {
            name: Some("NPC Model"@),
            transform: Some(
                Transform {
                    translation: Offset { x: 0, y: (-HEIGHT) as i64, z: 0 },
                    scale: Scale { x: MODEL_SCALE, y: MODEL_SCALE, z: MODEL_SCALE },
                    rotation: Rotation { x: 0, y: ONE, z: 0, w: 0 },
                },
            ),
            components: seq![Component::Scene { model: Model::Character, index: 0 }, Component::Model],
        }
    }

    /// What spawning a character builds.
    pub open spec fn plan() -> BlueprintModel {
        BlueprintModel { root: Self::root(), children: seq![Self::dialog_collider(), Self::model()] }
    }

    /// Plans a character.
    ///
    /// The character model must have been loaded, with a scene in it.
    pub fn spawn(&self, spawner: &SpawnAssets, _object: GameObject) -> (blueprint: Blueprint)
        requires
            spawner.character_scenes matches Some(scenes) && scenes > 0,
        ensures
            blueprint@ == Self::plan(),
    {
        let root = EntityBlueprint {
            name: Some("NPC"),
            transform: Some(Transform::from_scale(SCALE)),
            components: vec![
                Component::Visible,
                Component::KinematicCharacter {
                    shape: Shape::Capsule { height: HEIGHT, radius: RADIUS },
                },
                Component::Follower,
                Component::CharacterAnimations {
                    idle: AnimationClip::CharacterIdle,
                    walk: AnimationClip::CharacterWalking,
                    aerial: AnimationClip::CharacterRunning,
                },
            ],
        };
        let dialog_collider = EntityBlueprint {
            name: Some("NPC Dialog Collider"),
            transform: None,
            components: vec![
                Component::DialogTarget { dialog_id: DialogId::Follower },
                Component::Collider {
                    shape: Shape::Cylinder { half_height: HEIGHT / 2, radius: RADIUS * 5 },
                },
                Component::Sensor,
                Component::CollisionEvents,
                Component::KinematicStaticCollisions,
                Component::CustomCollider,
            ],
        };
        let model = EntityBlueprint {
            name: Some("NPC Model"),
            transform: Some(
                Transform {
                    translation: Offset { x: 0, y: -HEIGHT, z: 0 },
                    scale: Scale { x: MODEL_SCALE, y: MODEL_SCALE, z: MODEL_SCALE },
                    rotation: Rotation { x: 0, y: ONE, z: 0, w: 0 },
                },
            ),
            components: vec![Component::Scene { model: Model::Character, index: 0 }, Component::Model],
        };
        let blueprint = Blueprint { root, children: vec![dialog_collider, model] };
        assert(blueprint@.root.components =~= Self::root().components);
        assert(blueprint@.children[0].components =~= Self::dialog_collider().components);
        assert(blueprint@.children[1].components =~= Self::model().components);
        assert(blueprint@.children =~= Self::plan().children);
        blueprint
    }
}

} // verus!

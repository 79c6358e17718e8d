//! A glowing ball that hangs in the air.

use crate::spawning::blueprint::{
    Blueprint, BlueprintModel, Color, Component, EntityBlueprint, EntityModel, Material, PointLight,
    Shape,
};
use crate::spawning::{GameObject, Offset, SpawnAssets, Transform};
use vstd::prelude::*;

verus! {

/// Radius of the ball, in pico-units.
pub const RADIUS: i64 = 1_000_000_000_000;

/// Height at which the ball hangs, in pico-units.
pub const HEIGHT: i64 = 1_500_000_000_000;

/// Strength of the ball's glow, in millionths.
pub const INTENSITY: i64 = 10_000_000_000;

/// Plans orbs.
pub struct OrbSpawner;

impl OrbSpawner {
    /// The mesh of the ball.
    pub open spec fn mesh() -> Shape {
        Shape::UvSphere { radius: RADIUS }
    }

    /// The ball as it is seen: the mesh made for `object`, glowing.
    pub open spec fn root(object: GameObject) -> EntityModel {
        EntityModel {
            name: Some("Orb"@),
            transform: Some(Transform::translated(Offset { x: 0, y: HEIGHT, z: 0 })),
            components: seq![
                Component::Mesh { object, material: Material::Glowy },
                Component::NotShadowCaster,
            ],
        }
    }

    /// The dim orange light inside the ball.
    pub open spec fn glow() -> EntityModel {
        EntityModel {
            name: None,
            transform: Some(Transform::identity()),
            components: seq![
                Component::PointLight {
                    light: PointLight {
                        color: Color { red: 500_000, green: 100_000, blue: 0 },
                        intensity: INTENSITY,
                        range: None,
                        radius: RADIUS,
                        shadows_enabled: true,
                    },
                },
            ],
        }
    }

    /// What spawning an orb builds.
    pub open spec fn plan(object: GameObject) -> BlueprintModel {
        BlueprintModel { root: Self::root(object), children: seq![Self::glow()] }
    }

    /// The mesh to make for orbs before any is spawned.
    pub fn create_mesh(&self) -> (mesh: Option<Shape>)
        ensures
            mesh == Some(Self::mesh()),
    {
        Some(Shape::UvSphere { radius: RADIUS })
    }

    /// Plans an orb that shows the mesh made for `object`.
    ///
    /// That mesh must have been made.
    pub fn spawn(&self, spawner: &SpawnAssets, object: GameObject) -> (blueprint: Blueprint)
        requires
            spawner@.has_mesh(object),
        ensures
            blueprint@ == Self::plan(object),
    {
        let root = EntityBlueprint {
            name: Some("Orb"),
            transform: Some(Transform::from_translation(Offset { x: 0, y: HEIGHT, z: 0 })),
            components: vec![
                Component::Mesh { object, material: Material::Glowy },
                Component::NotShadowCaster,
            ],
        };
        let glow = EntityBlueprint {
            name: None,
            transform: Some(Transform::default()),
            components: vec![
                Component::PointLight {
                    light: PointLight {
                        color: Color { red: 500_000, green: 100_000, blue: 0 },
                        intensity: INTENSITY,
                        range: None,
                        radius: RADIUS,
                        shadows_enabled: true,
                    },
                },
            ],
        };
        let blueprint = Blueprint { root, children: vec![glow] };
        assert(blueprint@.root.components =~= Self::root(object).components);
        assert(blueprint@.children[0].components =~= Self::glow().components);
        assert(blueprint@.children =~= Self::plan(object).children);
        blueprint
    }
}

} // verus!

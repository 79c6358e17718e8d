//! A bare white light.

use crate::spawning::blueprint::{
    Blueprint, BlueprintModel, Color, Component, EntityBlueprint, EntityModel, PointLight,
};
use crate::spawning::{GameObject, SpawnAssets, Transform, ONE, UNIT};
use vstd::prelude::*;

verus! {

/// Plans lights.
pub struct PointLightSpawner;

impl PointLightSpawner {
    /// The light: white, of strength one, one unit wide and reaching one
    /// unit far.
    pub open spec fn root() -> EntityModel {
        EntityModel {
            name: Some("Light"@),
            transform: Some(Transform::identity()),
            components: seq![
                Component::PointLight {
                    light: PointLight {
                        color: Color { red: ONE, green: ONE, blue: ONE },
                        intensity: 1_000_000,
                        range: Some(UNIT),
                        radius: UNIT,
                        shadows_enabled: true,
                    },
                },
            ],
        }
    }

    /// What spawning a light builds.
    pub open spec fn plan() -> BlueprintModel {
        BlueprintModel { root: Self::root(), children: Seq::empty() }
    }

    /// Plans a light.
    pub fn spawn(&self, _spawner: &SpawnAssets, _object: GameObject) -> (blueprint: Blueprint)
        ensures
            blueprint@ == Self::plan(),
    {
        let root = EntityBlueprint {
            name: Some("Light"),
            transform: Some(Transform::default()),
            components: vec![
                Component::PointLight {
                    light: PointLight {
                        color: Color { red: ONE, green: ONE, blue: ONE },
                        intensity: 1_000_000,
                        range: Some(UNIT),
                        radius: UNIT,
                        shadows_enabled: true,
                    },
                },
            ],
        };
        let blueprint = Blueprint { root, children: Vec::new() };
        assert(blueprint@.root.components =~= Self::root().components);
        assert(blueprint@.children =~= Self::plan().children);
        blueprint
    }
}

} // verus!

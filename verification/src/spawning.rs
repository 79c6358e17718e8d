//! The kinds of object that can be placed in the world, and where.

use crate::spawning::blueprint::{Blueprint, BlueprintModel, Shape};
use crate::spawning::npc::NpcSpawner;
use crate::spawning::orb::OrbSpawner;
use crate::spawning::point_light::PointLightSpawner;
use vstd::prelude::*;

pub mod blueprint;
pub mod npc;
pub mod orb;
pub mod point_light;

verus! {

/// How many kinds of object there are.
pub const GAME_OBJECT_COUNT: usize = 3;

/// One world unit, in the pico-units that lengths are counted in.
pub const UNIT: i64 = 1_000_000_000_000;

/// The whole, in the millionths that factors are counted in.
pub const ONE: i32 = 1_000_000;

/// A kind of object that can be spawned.
#[derive(Clone, Copy, Debug, PartialEq, Eq, Structural, Hash)]
pub enum GameObject {
    Npc,
    Orb,
    PointLight,
}

impl GameObject {
    /// The number that stands for this kind where kinds are stored or sent.
    pub open spec fn tag(self) -> nat {
        match self {
            GameObject::Npc => 0,
            GameObject::Orb => 1,
            GameObject::PointLight => 2,
        }
    }

    /// The number that stands for this kind.
    pub fn index(self) -> (index: usize)
        ensures
            index == self.tag(),
    {
        match self {
            GameObject::Npc => 0,
            GameObject::Orb => 1,
            GameObject::PointLight => 2,
        }
    }

    /// The kind that a number stands for, if it stands for one.
    pub fn from_index(index: usize) -> (object: Option<GameObject>)
        ensures
            object is Some <==> index < GAME_OBJECT_COUNT,
            object matches Some(o) ==> o.tag() == index,
    {
        if index == 0 {
            Some(GameObject::Npc)
        } else if index == 1 {
            Some(GameObject::Orb)
        } else if index == 2 {
            Some(GameObject::PointLight)
        } else {
            None
        }
    }

    /// Every kind, by rising number.
    pub fn all() -> (objects: Vec<GameObject>)
        ensures
            objects@.len() == GAME_OBJECT_COUNT,
            forall|i: int| 0 <= i < objects@.len() ==> (#[trigger] objects@[i]).tag() == i,
    {
        let mut objects: Vec<GameObject> = Vec::new();
        objects.push(GameObject::Npc);
        objects.push(GameObject::Orb);
        objects.push(GameObject::PointLight);
        objects
    }
}

/// Each kind has a number of its own below the count, so a number names at
/// most one kind.
pub proof fn tags_name_one_kind_each(a: GameObject, b: GameObject)
    ensures
        a.tag() < GAME_OBJECT_COUNT,
        a.tag() == b.tag() ==> a == b,
{
}

/// Three lengths along the axes, in pico-units.
#[derive(Clone, Copy, Debug, PartialEq, Eq, Structural)]
pub struct Offset {
    pub x: i64,
    pub y: i64,
    pub z: i64,
}

/// A rotation as a unit quaternion, each part in millionths.
#[derive(Clone, Copy, Debug, PartialEq, Eq, Structural)]
pub struct Rotation {
    pub x: i32,
    pub y: i32,
    pub z: i32,
    pub w: i32,
}

/// Three factors along the axes, in millionths.
#[derive(Clone, Copy, Debug, PartialEq, Eq, Structural)]
pub struct Scale {
    pub x: i32,
    pub y: i32,
    pub z: i32,
}

/// Where an entity stands relative to its parent.
#[derive(Clone, Copy, Debug, PartialEq, Eq, Structural)]
pub struct Transform {
    pub translation: Offset,
    pub rotation: Rotation,
    pub scale: Scale,
}

impl Transform {
    /// The placement that changes nothing: no offset, no turn, full size.
    pub open spec fn identity() -> Transform {
        Transform {
            translation: Offset { x: 0, y: 0, z: 0 },
            rotation: Rotation { x: 0, y: 0, z: 0, w: ONE },
            scale: Scale { x: ONE, y: ONE, z: ONE },
        }
    }

    /// The identity moved by `translation`.
    pub open spec fn translated(translation: Offset) -> Transform {
        Transform { translation, ..Transform::identity() }
    }

    /// The identity scaled by `factor` along every axis.
    pub open spec fn scaled(factor: i32) -> Transform {
        Transform { scale: Scale { x: factor, y: factor, z: factor }, ..Transform::identity() }
    }

    /// The identity moved by `translation`.
    pub fn from_translation(translation: Offset) -> (transform: Transform)
        ensures
            transform == Transform::translated(translation),
    {
        Transform {
            translation,
            rotation: Rotation { x: 0, y: 0, z: 0, w: ONE },
            scale: Scale { x: ONE, y: ONE, z: ONE },
        }
    }

    /// The identity scaled by `factor` along every axis.
    pub fn from_scale(factor: i32) -> (transform: Transform)
        ensures
            transform == Transform::scaled(factor),
    {
        Transform {
            translation: Offset { x: 0, y: 0, z: 0 },
            rotation: Rotation { x: 0, y: 0, z: 0, w: ONE },
            scale: Scale { x: factor, y: factor, z: factor },
        }
    }
}

impl Default for Transform {
    fn default() -> (transform: Self)
        ensures
            transform == Transform::identity(),
    {
        Transform {
            translation: Offset { x: 0, y: 0, z: 0 },
            rotation: Rotation { x: 0, y: 0, z: 0, w: ONE },
            scale: Scale { x: ONE, y: ONE, z: ONE },
        }
    }
}

/// What has been loaded and made ahead of spawning, as plain values.
pub struct SpawnAssetsModel {
    pub character_scenes: Option<usize>,
    pub meshes: Seq<GameObject>,
}

impl SpawnAssetsModel {
    /// Whether a mesh was made for `object`.
    pub open spec fn has_mesh(self, object: GameObject) -> bool {
        self.meshes.contains(object)
    }

    /// Whether all is there that spawning `object` needs: for a character
    /// the loaded character model with a scene in it, for an orb its mesh.
    pub open spec fn ready_for(self, object: GameObject) -> bool {
        match object {
            GameObject::Npc => self.character_scenes matches Some(scenes) && scenes > 0,
            GameObject::Orb => self.has_mesh(object),
            GameObject::PointLight => true,
        }
    }
}

/// What has been loaded and made ahead of spawning.
#[derive(Clone, Debug)]
pub struct SpawnAssets {
    /// How many scenes the character model holds; `None` until it is loaded.
    pub character_scenes: Option<usize>,
    /// The kinds of object for which a mesh was made.
    pub meshes: Vec<GameObject>,
}

impl View for SpawnAssets {
    type V = SpawnAssetsModel;

    open spec fn view(&self) -> SpawnAssetsModel {
        SpawnAssetsModel { character_scenes: self.character_scenes, meshes: self.meshes@ }
    }
}

/// The mesh that has to be made for a kind of object before one is spawned,
/// if it needs one: only orbs do.
pub open spec fn mesh_for(object: GameObject) -> Option<Shape> {
    match object {
        GameObject::Orb => Some(OrbSpawner::mesh()),
        _ => None,
    }
}

/// What spawning a kind of object builds.
pub open spec fn plan_for(object: GameObject) -> BlueprintModel {
    match object {
        GameObject::Npc => NpcSpawner::plan(),
        GameObject::Orb => OrbSpawner::plan(object),
        GameObject::PointLight => PointLightSpawner::plan(),
    }
}

/// The mesh to make for a kind of object, if it needs one.
pub fn create_mesh(object: GameObject) -> (mesh: Option<Shape>)
    ensures
        mesh == mesh_for(object),
{
    match object {
        GameObject::Orb => OrbSpawner.create_mesh(),
        _ => None,
    }
}

impl SpawnAssets {
    /// Nothing loaded, and the meshes made that the kinds of object need.
    pub fn new() -> (assets: SpawnAssets)
        ensures
            assets@.character_scenes is None,
            forall|object: GameObject|
                assets@.has_mesh(object) <==> mesh_for(object) is Some,
    {
        let objects = GameObject::all();
        let mut meshes: Vec<GameObject> = Vec::new();
        let mut i: usize = 0;
        while i < objects.len()
            invariant
                i <= objects@.len() == GAME_OBJECT_COUNT,
                forall|k: int| 0 <= k < objects@.len() ==> (#[trigger] objects@[k]).tag() == k,
                forall|object: GameObject|
                    meshes@.contains(object) <==> object.tag() < i && mesh_for(object) is Some,
            decreases objects@.len() - i,
        {
            let object = objects[i];
            let ghost before = meshes@;
            if create_mesh(object).is_some() {
                meshes.push(object);
                assert(meshes@[before.len() as int] == object);
                assert forall|other: GameObject| meshes@.contains(other) implies other.tag() < i + 1
                    && mesh_for(other) is Some by {
                    let k = choose|k: int| 0 <= k < meshes@.len() && meshes@[k] == other;
                    if k < before.len() {
                        assert(before[k] == other);
                        assert(before.contains(other));
                    }
                }
                assert forall|other: GameObject|
                    other.tag() < i + 1 && mesh_for(other) is Some implies meshes@.contains(
                    other,
                ) by {
                    if other.tag() < i {
                        assert(before.contains(other));
                        let k = choose|k: int| 0 <= k < before.len() && before[k] == other;
                        assert(meshes@[k] == other);
                    } else {
                        tags_name_one_kind_each(other, object);
                    }
                }
            } else {
                assert forall|other: GameObject|
                    other.tag() < i + 1 && mesh_for(other) is Some implies other.tag() < i by {
                    tags_name_one_kind_each(other, object);
                }
            }
            i += 1;
        }
        assert forall|object: GameObject| meshes@.contains(object) <==> mesh_for(
            object,
        ) is Some by {
            tags_name_one_kind_each(object, object);
        }
        SpawnAssets { character_scenes: None, meshes }
    }

    /// Whether a mesh was made for `object`.
    pub fn has_mesh(&self, object: GameObject) -> (found: bool)
        ensures
            found == self@.has_mesh(object),
    {
        let mut i: usize = 0;
        while i < self.meshes.len()
            invariant
                i <= self.meshes@.len(),
                forall|k: int| 0 <= k < i ==> self.meshes@[k] != object,
            decreases self.meshes@.len() - i,
        {
            if self.meshes[i] == object {
                return true;
            }
            i += 1;
        }
        false
    }

    /// Whether all is there that spawning `object` needs.
    pub fn ready_for(&self, object: GameObject) -> (ready: bool)
        ensures
            ready == self@.ready_for(object),
    {
        match object {
            GameObject::Npc => match self.character_scenes {
                Some(scenes) => scenes > 0,
                None => false,
            },
            GameObject::Orb => self.has_mesh(object),
            GameObject::PointLight => true,
        }
    }
}

/// Once the character model is loaded and the meshes are made that the
/// kinds of object need, every kind can be spawned.
pub proof fn every_kind_can_be_spawned_once_loaded(assets: SpawnAssetsModel, object: GameObject)
    requires
        assets.character_scenes matches Some(scenes) && scenes > 0,
        forall|kind: GameObject| mesh_for(kind) is Some ==> assets.has_mesh(kind),
    ensures
        assets.ready_for(object),
{
}

/// Plans an object of the given kind with the spawner of that kind.
///
/// What the kind needs must be there: spawning without it is a fault in the
/// game's setup, not something to recover from.
pub fn spawn(assets: &SpawnAssets, object: GameObject) -> (blueprint: Blueprint)
    requires
        assets@.ready_for(object),
    ensures
        blueprint@ == plan_for(object),
{
    match object {
        GameObject::Npc => NpcSpawner.spawn(assets, object),
        GameObject::Orb => OrbSpawner.spawn(assets, object),
        GameObject::PointLight => PointLightSpawner.spawn(assets, object),
    }
}

} // verus!

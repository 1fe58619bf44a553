//! The per-frame scene snapshot the scheduler binds for the stage kernels:
//! shared attribute buffers (indices, positions, normals, uvs), the mesh,
//! instance, emitter, material and camera tables, and the integer logic
//! that navigates them. The spatial index built from this data, and the
//! device upload of the buffers, are external collaborators.

use vstd::prelude::*;

use crate::workitems::{Mat4Bits, Vec2Bits, Vec3Bits};

verus! {

/// A mesh: offsets of its first index / vertex attributes inside the shared
/// scene buffers, and how many indices belong to it.
#[derive(Clone, Copy, Debug, PartialEq, Eq, Structural)]
pub struct Mesh {
    pub indices: u32,
    pub indices_count: u32,
    pub positions: u32,
    pub normals: u32,
    pub uvs: u32,
}

/// One placed occurrence of a mesh: its world transform and the mesh,
/// material and (optional, `-1` for none) emitter it references.
#[derive(Clone, Copy, Debug, PartialEq, Eq, Structural)]
pub struct Instance {
    pub to_world: Mat4Bits,
    pub mesh: u32,
    pub material: u32,
    pub emitter: i32,
}

/// A texture reference: either a constant value or an index into the bound
/// texture array.
#[derive(Clone, Copy, Debug, PartialEq, Eq, Structural)]
pub struct Texture {
    pub val: Vec3Bits,
    pub texture: u32,
    pub ty: u32,
}

impl Texture {
    /// Tag of a constant-valued texture.
    pub const TY_CONSTANT: u32 = 0;

    /// Tag of an image-backed texture.
    pub const TY_IMAGE: u32 = 1;

    /// A texture holding the constant value `val`.
    pub fn constant(val: Vec3Bits) -> (t: Texture)
        ensures
            t.ty == Texture::TY_CONSTANT,
            t.val == val,
            t.texture == 0,
    {
        Texture { ty: Texture::TY_CONSTANT, val, texture: 0 }
    }

    /// A texture backed by image `texture` of the bound texture array.
    pub fn image(texture: u32) -> (t: Texture)
        ensures
            t.ty == Texture::TY_IMAGE,
            t.texture == texture,
            t.val == (Vec3Bits { x: 0, y: 0, z: 0 }),
    {
        Texture { ty: Texture::TY_IMAGE, val: Vec3Bits { x: 0, y: 0, z: 0 }, texture }
    }
}

/// The default texture: a constant texture of value zero.
pub open spec fn default_texture() -> Texture {
    Texture { val: Vec3Bits { x: 0, y: 0, z: 0 }, texture: 0, ty: Texture::TY_CONSTANT }
}

impl Default for Texture {
    /// A constant texture of value zero.
    fn default() -> (t: Texture)
        ensures
            t == default_texture(),
    {
        Texture { val: Vec3Bits { x: 0, y: 0, z: 0 }, texture: 0, ty: Texture::TY_CONSTANT }
    }
}

/// A light source: its irradiance texture, the instance it is attached to
/// (for area lights), and its kind tag.
#[derive(Clone, Copy, Debug, PartialEq, Eq, Structural)]
pub struct Emitter {
    pub irradiance: Texture,
    pub instance: u32,
    pub ty: u32,
}

impl Emitter {
    /// Tag of an absent emitter.
    pub const TY_NONE: u32 = 0;

    /// Tag of an environment emitter.
    pub const TY_ENV: u32 = 1;

    /// Tag of an area emitter.
    pub const TY_AREA: u32 = 2;

    /// An environment emitter with the given irradiance.
    pub fn env(irradiance: Texture) -> (e: Emitter)
        ensures
            e.ty == Emitter::TY_ENV,
            e.irradiance == irradiance,
            e.instance == 0,
    {
        Emitter { irradiance, instance: 0, ty: Emitter::TY_ENV }
    }

    /// An area emitter attached to `instance`.
    pub fn area(irradiance: Texture, instance: u32) -> (e: Emitter)
        ensures
            e.ty == Emitter::TY_AREA,
            e.irradiance == irradiance,
            e.instance == instance,
    {
        Emitter { irradiance, instance, ty: Emitter::TY_AREA }
    }
}

/// A material: the texture references the shading stage samples.
#[derive(Clone, Copy, Debug, PartialEq, Eq, Structural)]
pub struct Material {
    pub normal: Texture,
    pub base_color: Texture,
    pub metallic_roughness: Texture,
    pub transmission: Texture,
}

impl Default for Material {
    /// A material whose four texture slots are all the default texture.
    fn default() -> (m: Material)
        ensures
            m.normal == default_texture(),
            m.base_color == default_texture(),
            m.metallic_roughness == default_texture(),
            m.transmission == default_texture(),
    {
        Material {
            normal: Texture::default(),
            base_color: Texture::default(),
            metallic_roughness: Texture::default(),
            transmission: Texture::default(),
        }
    }
}

/// An immutable per-frame camera snapshot: world and view transforms and
/// the clip-plane distances (bit patterns of device `f32` values).
#[derive(Clone, Copy, Debug, PartialEq, Eq, Structural)]
pub struct Camera {
    pub to_world: Mat4Bits,
    pub to_view: Mat4Bits,
    pub near_clip: u32,
    pub far_clip: u32,
}

impl Camera {
    /// The camera-to-world transform.
    pub fn to_world(&self) -> (m: Mat4Bits)
        ensures
            m == self.to_world,
    {
        self.to_world
    }

    /// The world-to-view transform.
    pub fn to_view(&self) -> (m: Mat4Bits)
        ensures
            m == self.to_view,
    {
        self.to_view
    }
}

/// The host-side scene: shared attribute buffers plus the mesh, instance,
/// emitter, material and camera tables that one frame binds read-only.
pub struct Scene {
    pub indices: Vec<u32>,
    pub positions: Vec<Vec3Bits>,
    pub normals: Vec<Vec3Bits>,
    pub uvs: Vec<Vec2Bits>,
    pub instances: Vec<Instance>,
    pub meshes: Vec<Mesh>,
    pub emitters: Vec<Emitter>,
    pub materials: Vec<Material>,
    pub cameras: Vec<Camera>,
}

impl Scene {
    /// The mesh table is consistent with the shared index buffer: meshes
    /// appear in index-buffer order and none of them starts past its end.
    pub open spec fn meshes_wf(self) -> bool {
        &&& forall|i: int|
            0 <= i < self.meshes@.len() ==> (#[trigger] self.meshes@[i]).indices as int
                <= self.indices@.len()
        &&& forall|i: int|
            0 <= i + 1 < self.meshes@.len() ==> (#[trigger] self.meshes@[i]).indices
                <= self.meshes@[i + 1].indices
    }

    /// Every instance references an existing mesh and material.
    pub open spec fn instances_wf(self) -> bool {
        forall|i: int|
            0 <= i < self.instances@.len() ==> {
                &&& ((#[trigger] self.instances@[i]).mesh as int) < self.meshes@.len()
                &&& (self.instances@[i].material as int) < self.materials@.len()
            }
    }

    /// The scene's invariant.
    pub open spec fn wf(self) -> bool {
        self.meshes_wf() && self.instances_wf()
    }

    /// The number of indices belonging to mesh `mesh_idx`: the distance to
    /// the next mesh's first index, or to the end of the index buffer for
    /// the last mesh.
    pub open spec fn spec_indices_count(self, mesh_idx: int) -> int {
        if mesh_idx == self.meshes@.len() - 1 {
            self.indices@.len() - self.meshes@[mesh_idx].indices as int
        } else {
            self.meshes@[mesh_idx + 1].indices as int - self.meshes@[mesh_idx].indices as int
        }
    }

    /// Returns the number of indices of the mesh at `mesh_idx`.
    pub fn indices_count(&self, mesh_idx: usize) -> (count: usize)
        requires
            self.wf(),
            mesh_idx < self.meshes@.len(),
        ensures
            count == self.spec_indices_count(mesh_idx as int),
    {
        if mesh_idx == self.meshes.len() - 1 {
            self.indices.len() - self.meshes[mesh_idx].indices as usize
        } else {
            self.meshes[mesh_idx + 1].indices as usize - self.meshes[mesh_idx].indices as usize
        }
    }
}

impl Default for Scene {
    /// The empty scene: every buffer and table empty.
    fn default() -> (s: Scene)
        ensures
            s.indices@.len() == 0,
            s.positions@.len() == 0,
            s.normals@.len() == 0,
            s.uvs@.len() == 0,
            s.instances@.len() == 0,
            s.meshes@.len() == 0,
            s.emitters@.len() == 0,
            s.materials@.len() == 0,
            s.cameras@.len() == 0,
            s.wf(),
    {
        Scene {
            indices: Vec::new(),
            positions: Vec::new(),
            normals: Vec::new(),
            uvs: Vec::new(),
            instances: Vec::new(),
            meshes: Vec::new(),
            emitters: Vec::new(),
            materials: Vec::new(),
            cameras: Vec::new(),
        }
    }
}

} // verus!

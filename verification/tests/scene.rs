use wavefront::scene::{Camera, Emitter, Material, Mesh, Scene, Texture};
use wavefront::workitems::{Mat4Bits, Vec3Bits, Vec4Bits};

fn zero_mat() -> Mat4Bits {
    let z = Vec4Bits { x: 0, y: 0, z: 0, w: 0 };
    Mat4Bits { c0: z, c1: z, c2: z, c3: z }
}

fn mesh_at(indices: u32, count: u32) -> Mesh {
    Mesh { indices, indices_count: count, positions: 0, normals: 0, uvs: 0 }
}

#[test]
fn indices_count_spans_to_the_next_mesh_or_buffer_end() {
    let mut scene = Scene::default();
    scene.indices = (0..9).collect();
    scene.meshes.push(mesh_at(0, 6));
    scene.meshes.push(mesh_at(6, 3));
    assert_eq!(scene.indices_count(0), 6);
    assert_eq!(scene.indices_count(1), 3);
}

#[test]
fn default_scene_is_empty() {
    let scene = Scene::default();
    assert!(scene.indices.is_empty());
    assert!(scene.meshes.is_empty());
    assert!(scene.instances.is_empty());
    assert!(scene.cameras.is_empty());
}

#[test]
fn texture_constructors_tag_their_kind() {
    let c = Texture::constant(Vec3Bits { x: 1, y: 2, z: 3 });
    assert_eq!(c.ty, Texture::TY_CONSTANT);
    assert_eq!(c.val, Vec3Bits { x: 1, y: 2, z: 3 });
    let i = Texture::image(5);
    assert_eq!(i.ty, Texture::TY_IMAGE);
    assert_eq!(i.texture, 5);
    let d = Texture::default();
    assert_eq!(d.ty, Texture::TY_CONSTANT);
    assert_eq!(d.val, Vec3Bits { x: 0, y: 0, z: 0 });
}

#[test]
fn emitter_constructors_tag_their_kind() {
    let irradiance = Texture::constant(Vec3Bits { x: 7, y: 7, z: 7 });
    let env = Emitter::env(irradiance);
    assert_eq!(env.ty, Emitter::TY_ENV);
    assert_eq!(env.irradiance, irradiance);
    let area = Emitter::area(irradiance, 4);
    assert_eq!(area.ty, Emitter::TY_AREA);
    assert_eq!(area.instance, 4);
}

#[test]
fn default_material_uses_default_textures() {
    let m = Material::default();
    assert_eq!(m.normal, Texture::default());
    assert_eq!(m.base_color, Texture::default());
    assert_eq!(m.metallic_roughness, Texture::default());
    assert_eq!(m.transmission, Texture::default());
}

#[test]
fn camera_getters_return_its_transforms() {
    let camera = Camera { to_world: zero_mat(), to_view: zero_mat(), near_clip: 1, far_clip: 2 };
    assert_eq!(camera.to_world(), zero_mat());
    assert_eq!(camera.to_view(), zero_mat());
    assert_eq!(camera.near_clip, 1);
    assert_eq!(camera.far_clip, 2);
}

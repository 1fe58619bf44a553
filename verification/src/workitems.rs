//! Typed payloads passed between pipeline stages.
//!
//! Every scalar that is an IEEE-754 `f32` on the device is carried here as
//! its 32-bit pattern (`u32`). The scheduling core routes these values but
//! never interprets them numerically; the shading math that does lives
//! outside the verified library.

use vstd::prelude::*;

verus! {

/// Bit pattern of `1.0f32`.
pub const F32_ONE_BITS: u32 = 0x3F80_0000;

/// Two packed 32-bit patterns (an `f32` pair on the device).
#[derive(Clone, Copy, Debug, PartialEq, Eq, Structural)]
pub struct Vec2Bits {
    pub x: u32,
    pub y: u32,
}

/// Three packed 32-bit patterns (an `f32` triple on the device).
#[derive(Clone, Copy, Debug, PartialEq, Eq, Structural)]
pub struct Vec3Bits {
    pub x: u32,
    pub y: u32,
    pub z: u32,
}

/// Four packed 32-bit patterns (an `f32` quadruple on the device).
#[derive(Clone, Copy, Debug, PartialEq, Eq, Structural)]
pub struct Vec4Bits {
    pub x: u32,
    pub y: u32,
    pub z: u32,
    pub w: u32,
}

/// A 4x4 matrix of 32-bit patterns, column major.
#[derive(Clone, Copy, Debug, PartialEq, Eq, Structural)]
pub struct Mat4Bits {
    pub c0: Vec4Bits,
    pub c1: Vec4Bits,
    pub c2: Vec4Bits,
    pub c3: Vec4Bits,
}

/// An unsigned pixel coordinate.
#[derive(Clone, Copy, Debug, PartialEq, Eq, Structural)]
pub struct UVec2 {
    pub x: u32,
    pub y: u32,
}

/// The all-zero quadruple: the initial radiance of every pixel.
pub open spec fn zero_radiance() -> Vec4Bits {
    Vec4Bits { x: 0, y: 0, z: 0, w: 0 }
}

/// The identity path throughput `(1, 1, 1, 1)` that every camera ray
/// starts with.
pub open spec fn identity_throughput() -> Vec4Bits {
    Vec4Bits { x: F32_ONE_BITS, y: F32_ONE_BITS, z: F32_ONE_BITS, w: F32_ONE_BITS }
}

impl Vec4Bits {
    /// The all-zero quadruple.
    pub fn zero() -> (r: Vec4Bits)
        ensures
            r == zero_radiance(),
    {
        Vec4Bits { x: 0, y: 0, z: 0, w: 0 }
    }

    /// The identity-throughput quadruple.
    pub fn ones() -> (r: Vec4Bits)
        ensures
            r == identity_throughput(),
    {
        Vec4Bits { x: F32_ONE_BITS, y: F32_ONE_BITS, z: F32_ONE_BITS, w: F32_ONE_BITS }
    }
}

/// A ray segment: origin, direction, and the valid parameter interval
/// `[tmin, tmax]` (all components bit patterns of device `f32` values).
#[derive(Clone, Copy, Debug, PartialEq, Eq, Structural)]
pub struct Ray3f {
    pub o: Vec4Bits,
    pub d: Vec4Bits,
    pub tmin: u32,
    pub tmax: u32,
    pub t: u32,
}

/// A payload together with the coordinate of the pixel it originated from,
/// so a stage that compacts its input can still scatter results correctly.
#[derive(Clone, Copy, Debug, PartialEq, Eq, Structural)]
pub struct WorkItem<T> {
    pub item: T,
    pub idx: UVec2,
}

/// Work for the intersection stage: a camera (or bounce) ray, the path
/// throughput accumulated so far, and the flat index of the origin pixel.
#[derive(Clone, Copy, Debug, PartialEq, Eq, Structural)]
pub struct RayWorkItem {
    pub ray: Ray3f,
    pub beta: Vec4Bits,
    pub pixel_idx: u32,
}

/// A resolved ray-surface hit: hit point, distance, and the instance,
/// primitive and material that were struck.
#[derive(Clone, Copy, Debug, PartialEq, Eq, Structural)]
pub struct SurfaceInteraction {
    pub p: Vec4Bits,
    pub dist: u32,
    pub t: u32,
    pub instance: u32,
    pub primitive: u32,
    pub material: u32,
}

/// Work for the material-evaluation stage: the surface interaction of a ray
/// that hit geometry, and the flat index of the origin pixel.
#[derive(Clone, Copy, Debug, PartialEq, Eq, Structural)]
pub struct MaterialEvalWorkItem {
    pub si: SurfaceInteraction,
    pub pixel_idx: u32,
}

/// Per-pixel accumulation state: exactly one entry per pixel, written by the
/// material-evaluation stage and read by the film-update stage.
#[derive(Clone, Copy, Debug, PartialEq, Eq, Structural)]
pub struct PixelSampleState {
    pub pixel: UVec2,
    pub radiance: Vec4Bits,
}

/// Per-path accumulation carried across bounces: radiance gathered so far
/// and the remaining throughput factor.
#[derive(Clone, Copy, Debug, PartialEq, Eq, Structural)]
pub struct LoopState {
    pub radiance: Vec4Bits,
    pub throughput: Vec4Bits,
}

/// What the scene's ray-query capability reports for one ray: either the
/// closest hit — instance and primitive struck, barycentric surface
/// attributes, hit distance and resolved hit point — or a miss. An explicit
/// tagged result, in place of the payload structure that device hit/miss
/// handlers mutate implicitly.
#[derive(Clone, Copy, Debug, PartialEq, Eq, Structural)]
pub enum TraceResult {
    Hit { instance: u32, primitive: u32, uv: Vec2Bits, dist: u32, p: Vec4Bits },
    Miss,
}

impl TraceResult {
    /// Whether this outcome is a hit.
    pub open spec fn is_hit(self) -> bool {
        self is Hit
    }
}

/// Push-constant block of the camera-ray generation kernel: the index of
/// the camera to generate rays for.
#[derive(Clone, Copy, Debug, PartialEq, Eq, Structural)]
pub struct GenerateCameraRaysPc {
    pub camera: u32,
}

} // verus!

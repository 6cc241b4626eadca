use vstd::prelude::*;

use crate::math::Vector3D;

verus! {

/// A camera of a scene.
///
/// The field of view, clip planes and aspect ratio are IEEE-754
/// single-precision bit patterns; vectors hold their components the same way.
#[derive(Debug, PartialEq, Eq)]
pub struct Camera {
    pub name: String,
    pub position: Vector3D,
    pub up: Vector3D,
    pub look_at: Vector3D,
    pub horizontal_fov: u32,
    pub clip_plane_near: u32,
    pub clip_plane_far: u32,
    pub aspect: u32,
}

impl Camera {
    pub fn name(&self) -> (res: &str)
        ensures
            res@ == self.name@,
    {
        self.name.as_str()
    }

    pub fn position(&self) -> (v: Vector3D)
        ensures
            v == self.position,
    {
        self.position
    }

    pub fn up(&self) -> (v: Vector3D)
        ensures
            v == self.up,
    {
        self.up
    }

    pub fn look_at(&self) -> (v: Vector3D)
        ensures
            v == self.look_at,
    {
        self.look_at
    }

    /// Half the horizontal field of view in radians, as an IEEE-754 single-precision bit pattern.
    pub fn horizontal_fov(&self) -> (bits: u32)
        ensures
            bits == self.horizontal_fov,
    {
        self.horizontal_fov
    }

    /// The distance of the near clipping plane, as an IEEE-754 single-precision bit pattern.
    pub fn clip_plane_near(&self) -> (bits: u32)
        ensures
            bits == self.clip_plane_near,
    {
        self.clip_plane_near
    }

    /// The distance of the far clipping plane, as an IEEE-754 single-precision bit pattern.
    pub fn clip_plane_far(&self) -> (bits: u32)
        ensures
            bits == self.clip_plane_far,
    {
        self.clip_plane_far
    }

    /// The aspect ratio, as an IEEE-754 single-precision bit pattern.
    pub fn aspect(&self) -> (bits: u32)
        ensures
            bits == self.aspect,
    {
        self.aspect
    }
}

} // verus!

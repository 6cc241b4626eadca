use vstd::prelude::*;

use crate::math::{Color3D, Vector2D, Vector3D};

verus! {

/// The kind of a light source.
#[derive(Clone, Copy, Debug, PartialEq, Eq, Structural)]
pub enum LightSourceType {
    Undefined,
    Directional,
    Point,
    Spot,
    Ambient,
    Area,
}

/// A light source of a scene.
///
/// The attenuation factors and cone angles are IEEE-754 single-precision bit
/// patterns; vectors and colors hold their components the same way.
#[derive(Debug, PartialEq, Eq)]
pub struct Light {
    pub name: String,
    pub light_type: LightSourceType,
    pub position: Vector3D,
    pub direction: Vector3D,
    pub up: Vector3D,
    pub attenuation_constant: u32,
    pub attenuation_linear: u32,
    pub attenuation_quadratic: u32,
    pub color_diffuse: Color3D,
    pub color_specular: Color3D,
    pub color_ambient: Color3D,
    pub angle_inner_cone: u32,
    pub angle_outer_cone: u32,
    pub size: Vector2D,
}

impl Light {
    pub fn name(&self) -> (res: &str)
        ensures
            res@ == self.name@,
    {
        self.name.as_str()
    }

    pub fn light_type(&self) -> (t: LightSourceType)
        ensures
            t == self.light_type,
    {
        self.light_type
    }

    pub fn position(&self) -> (v: Vector3D)
        ensures
            v == self.position,
    {
        self.position
    }

    pub fn direction(&self) -> (v: Vector3D)
        ensures
            v == self.direction,
    {
        self.direction
    }

    pub fn up(&self) -> (v: Vector3D)
        ensures
            v == self.up,
    {
        self.up
    }

    /// The constant attenuation factor, as an IEEE-754 single-precision bit pattern.
    pub fn attenuation_constant(&self) -> (bits: u32)
        ensures
            bits == self.attenuation_constant,
    {
        self.attenuation_constant
    }

    /// The linear attenuation factor, as an IEEE-754 single-precision bit pattern.
    pub fn attenuation_linear(&self) -> (bits: u32)
        ensures
            bits == self.attenuation_linear,
    {
        self.attenuation_linear
    }

    /// The quadratic attenuation factor, as an IEEE-754 single-precision bit pattern.
    pub fn attenuation_quadratic(&self) -> (bits: u32)
        ensures
            bits == self.attenuation_quadratic,
    {
        self.attenuation_quadratic
    }

    pub fn color_diffuse(&self) -> (c: Color3D)
        ensures
            c == self.color_diffuse,
    {
        self.color_diffuse
    }

    pub fn color_specular(&self) -> (c: Color3D)
        ensures
            c == self.color_specular,
    {
        self.color_specular
    }

    pub fn color_ambient(&self) -> (c: Color3D)
        ensures
            c == self.color_ambient,
    {
        self.color_ambient
    }

    /// The inner cone angle of a spot light, as an IEEE-754 single-precision bit pattern.
    pub fn angle_inner_cone(&self) -> (bits: u32)
        ensures
            bits == self.angle_inner_cone,
    {
        self.angle_inner_cone
    }

    /// The outer cone angle of a spot light, as an IEEE-754 single-precision bit pattern.
    pub fn angle_outer_cone(&self) -> (bits: u32)
        ensures
            bits == self.angle_outer_cone,
    {
        self.angle_outer_cone
    }

    /// The size of an area light.
    pub fn size(&self) -> (v: Vector2D)
        ensures
            v == self.size,
    {
        self.size
    }
}

} // verus!

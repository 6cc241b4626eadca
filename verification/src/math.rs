use vstd::prelude::*;

verus! {

/// A two-component vector as stored in an imported scene.
///
/// Each component is the IEEE-754 single-precision bit pattern of the value,
/// so that vectors are carried through the library exactly as they were read.
#[derive(Clone, Copy, Debug, PartialEq, Eq, Structural)]
pub struct Vector2D {
    pub x: u32,
    pub y: u32,
}

/// A three-component vector; components are IEEE-754 single-precision bit patterns.
#[derive(Clone, Copy, Debug, PartialEq, Eq, Structural)]
pub struct Vector3D {
    pub x: u32,
    pub y: u32,
    pub z: u32,
}

/// An RGB color; components are IEEE-754 single-precision bit patterns.
#[derive(Clone, Copy, Debug, PartialEq, Eq, Structural)]
pub struct Color3D {
    pub r: u32,
    pub g: u32,
    pub b: u32,
}

/// An RGBA color; components are IEEE-754 single-precision bit patterns.
#[derive(Clone, Copy, Debug, PartialEq, Eq, Structural)]
pub struct Color4D {
    pub r: u32,
    pub g: u32,
    pub b: u32,
    pub a: u32,
}

/// A rotation quaternion; components are IEEE-754 single-precision bit patterns.
#[derive(Clone, Copy, Debug, PartialEq, Eq, Structural)]
pub struct Quaternion {
    pub w: u32,
    pub x: u32,
    pub y: u32,
    pub z: u32,
}

impl Vector2D {
    pub fn new(x: u32, y: u32) -> (v: Vector2D)
        ensures
            v.x == x,
            v.y == y,
    {
        Vector2D { x, y }
    }
}

impl Vector3D {
    pub fn new(x: u32, y: u32, z: u32) -> (v: Vector3D)
        ensures
            v.x == x,
            v.y == y,
            v.z == z,
    {
        Vector3D { x, y, z }
    }
}

} // verus!

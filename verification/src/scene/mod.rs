//! The data of an imported scene: animations, cameras, lights, materials and
//! embedded textures, with the accessors the renderer reads them through.

pub mod animation;
pub mod camera;
pub mod graph;
pub mod light;
pub mod material;
pub mod texture;

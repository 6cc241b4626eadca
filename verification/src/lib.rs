//! Scene data, meshes and models of a small OpenGL renderer.
//!
//! The library holds the renderer's decisions: what an imported scene holds,
//! how a model is assembled from it (meshes in node order, textures loaded
//! once per path) and which GL commands draw a mesh. Window handling, file
//! reading, image decoding, GL calls and floating-point camera math stand
//! outside it.

pub mod camera;
pub mod input;
pub mod math;
pub mod mesh;
pub mod model;
pub mod scene;
pub mod shader;
pub mod text;

use vstd::prelude::*;

verus! {

/// A direction in which keyboard input moves the camera.
#[derive(Clone, Copy, Debug, PartialEq, Eq, Structural)]
pub enum CameraMovement {
    FORWARD,
    BACKWARD,
    LEFT,
    RIGHT,
}

} // verus!
